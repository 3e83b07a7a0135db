//! The pagination and retry state machine. The caller performs each request
//! and hands the classified response to [`FetchLoop::step`], which says what
//! to do with it: save a page, wait before retrying, or stop.
use vstd::prelude::*;
use crate::cursor::{next_url_of, opt_view, parse_next_url};
use crate::request::{page_file_text, page_filename};

verus! {

/// Seconds to wait after the first rate-limited response.
pub const INITIAL_RETRY_DELAY: u64 = 2;

/// The longest wait between two attempts, in seconds.
pub const MAX_RETRY_DELAY: u64 = 10;

/// HTTP status of a page that was served.
pub const STATUS_OK: u16 = 200;

/// HTTP status of a rate-limited request.
pub const STATUS_TOO_MANY_REQUESTS: u16 = 429;

/// How a response status is handled.
#[derive(PartialEq, Eq, Structural, Clone, Copy, Debug)]
pub enum StatusClass {
    Success,
    RateLimited,
    TerminalFailure { status: u16 },
}

/// What a status code means to the loop: `200` is a page, `429` a rate limit,
/// anything else the end of the run.
pub open spec fn status_class(status: u16) -> StatusClass {
    if status == STATUS_OK {
        StatusClass::Success
    } else if status == STATUS_TOO_MANY_REQUESTS {
        StatusClass::RateLimited
    } else {
        StatusClass::TerminalFailure { status }
    }
}

/// Classifies a response status code.
pub fn classify_status(status: u16) -> (r: StatusClass)
    ensures
        r == status_class(status),
{
    if status == STATUS_OK {
        StatusClass::Success
    } else if status == STATUS_TOO_MANY_REQUESTS {
        StatusClass::RateLimited
    } else {
        StatusClass::TerminalFailure { status }
    }
}

/// The outcome of one request.
#[derive(Debug)]
pub enum PageResult {
    /// A page was served: its raw body and the URL of the next page, if any.
    Success { body: String, next_url: Option<String> },
    RateLimited,
    TerminalFailure { status: u16 },
}

/// A [`PageResult`] as plain values.
pub enum PageEvent {
    Success { body: Seq<char>, next_url: Option<Seq<char>> },
    RateLimited,
    TerminalFailure { status: u16 },
}

impl View for PageResult {
    type V = PageEvent;

    open spec fn view(&self) -> PageEvent {
        match self {
            PageResult::Success { body, next_url } => PageEvent::Success {
                body: body@,
                next_url: opt_view(*next_url),
            },
            PageResult::RateLimited => PageEvent::RateLimited,
            PageResult::TerminalFailure { status } => PageEvent::TerminalFailure { status: *status },
        }
    }
}

/// The event of a served page with body `body`: its cursor is read from the body.
pub open spec fn served(body: Seq<char>) -> PageEvent {
    PageEvent::Success { body, next_url: next_url_of(body) }
}

/// The result for a served page: the body, kept verbatim, and its `next_url`.
pub fn success_page(body: String) -> (r: PageResult)
    ensures
        r@ == served(body@),
{
    let next_url = parse_next_url(body.as_str());
    PageResult::Success { body, next_url }
}

/// What the caller does after a response.
#[derive(Debug)]
pub enum Action {
    /// Write `body` to the file `filename`, then request the next page, if any.
    Save { filename: String, body: String },
    /// Sleep `seconds`, then send the same request again.
    Wait { seconds: u64 },
    /// Give up: the run ends without error after reporting `status`.
    Stop { status: u16 },
}

/// An [`Action`] as plain values.
pub enum ActionView {
    Save { filename: Seq<char>, body: Seq<char> },
    Wait { seconds: nat },
    Stop { status: u16 },
}

impl View for Action {
    type V = ActionView;

    open spec fn view(&self) -> ActionView {
        match self {
            Action::Save { filename, body } => ActionView::Save { filename: filename@, body: body@ },
            Action::Wait { seconds } => ActionView::Wait { seconds: *seconds as nat },
            Action::Stop { status } => ActionView::Stop { status: *status },
        }
    }
}

/// The state of a run: what names the saved files, the URL still to be
/// requested (`None` once the run is over), the number of the next page, the
/// wait before the next retry, and the status that ended the run early.
pub struct LoopView {
    pub ticker: Seq<char>,
    pub from_date: Seq<char>,
    pub to_date: Seq<char>,
    pub url: Option<Seq<char>>,
    pub page: nat,
    pub retry_delay: nat,
    pub stopped: Option<u16>,
}

/// The state of a run in progress.
pub struct FetchLoop {
    ticker: String,
    from_date: String,
    to_date: String,
    url: Option<String>,
    page: u64,
    retry_delay: u64,
    stopped: Option<u16>,
}

impl View for FetchLoop {
    type V = LoopView;

    closed spec fn view(&self) -> LoopView {
        LoopView {
            ticker: self.ticker@,
            from_date: self.from_date@,
            to_date: self.to_date@,
            url: opt_view(self.url),
            page: self.page as nat,
            retry_delay: self.retry_delay as nat,
            stopped: self.stopped,
        }
    }
}

/// Pages are numbered from one; the wait is between its initial value and its
/// cap; a run that stopped early has nothing left to request.
pub open spec fn loop_wf(v: LoopView) -> bool {
    &&& v.page >= 1
    &&& INITIAL_RETRY_DELAY <= v.retry_delay <= MAX_RETRY_DELAY
    &&& (v.stopped is Some ==> v.url is None)
}

/// The wait after one more rate-limited response: doubled, up to the cap.
pub open spec fn backoff(delay: nat) -> nat {
    if 2 * delay < MAX_RETRY_DELAY {
        2 * delay
    } else {
        MAX_RETRY_DELAY as nat
    }
}

/// The state after the response `e` to the pending request.
pub open spec fn next_state(v: LoopView, e: PageEvent) -> LoopView {
    match e {
        PageEvent::Success { body, next_url } => LoopView {
            url: next_url,
            page: v.page + 1,
            retry_delay: INITIAL_RETRY_DELAY as nat,
            ..v
        },
        PageEvent::RateLimited => LoopView { retry_delay: backoff(v.retry_delay), ..v },
        PageEvent::TerminalFailure { status } => LoopView { url: None, stopped: Some(status), ..v },
    }
}

/// What the caller is told to do after the response `e` in state `v`.
pub open spec fn action_for(v: LoopView, e: PageEvent) -> ActionView {
    match e {
        PageEvent::Success { body, next_url } => ActionView::Save {
            filename: page_file_text(v.ticker, v.from_date, v.to_date, v.page),
            body,
        },
        PageEvent::RateLimited => ActionView::Wait { seconds: v.retry_delay },
        PageEvent::TerminalFailure { status } => ActionView::Stop { status },
    }
}

/// Two to the power `n`.
pub open spec fn two_pow(n: nat) -> nat
    decreases n,
{
    if n == 0 {
        1
    } else {
        2 * two_pow((n - 1) as nat)
    }
}

/// The state after `n` consecutive rate-limited responses.
pub open spec fn after_rate_limits(v: LoopView, n: nat) -> LoopView
    decreases n,
{
    if n == 0 {
        v
    } else {
        next_state(after_rate_limits(v, (n - 1) as nat), PageEvent::RateLimited)
    }
}

/// A served page whose body holds a non-empty string `next_url` is saved, and
/// the run goes on with exactly one pending request, to that URL, on the next
/// page number.
pub proof fn lemma_cursor_is_followed(v: LoopView, body: Seq<char>, next: Seq<char>)
    requires
        loop_wf(v),
        v.url is Some,
        next_url_of(body) == Some(next),
        next.len() > 0,
    ensures
        next_state(v, served(body)).url == Some(next),
        next_state(v, served(body)).stopped is None,
        next_state(v, served(body)).page == v.page + 1,
        action_for(v, served(body)) == (ActionView::Save {
            filename: page_file_text(v.ticker, v.from_date, v.to_date, v.page),
            body,
        }),
{
}

/// A served page whose body has no usable `next_url` (not JSON, no such field,
/// or not a string) is saved, and then nothing is left to request.
pub proof fn lemma_run_ends_without_cursor(v: LoopView, body: Seq<char>)
    requires
        loop_wf(v),
        v.url is Some,
        next_url_of(body) is None,
    ensures
        next_state(v, served(body)).url is None,
        next_state(v, served(body)).stopped is None,
        action_for(v, served(body)) == (ActionView::Save {
            filename: page_file_text(v.ticker, v.from_date, v.to_date, v.page),
            body,
        }),
{
}

/// From the initial wait (at the start, or after any saved page), `n`
/// consecutive rate-limited responses leave a wait of `min(2 * 2^n, 10)`
/// seconds, and the same URL and page number still pending.
pub proof fn lemma_backoff_after_rate_limits(v: LoopView, n: nat)
    requires
        loop_wf(v),
        v.retry_delay == INITIAL_RETRY_DELAY,
    ensures
        after_rate_limits(v, n).retry_delay == (if 2 * two_pow(n) < MAX_RETRY_DELAY {
            2 * two_pow(n)
        } else {
            MAX_RETRY_DELAY as nat
        }),
        after_rate_limits(v, n).url == v.url,
        after_rate_limits(v, n).page == v.page,
        after_rate_limits(v, n).stopped == v.stopped,
        loop_wf(after_rate_limits(v, n)),
    decreases n,
{
    if n > 0 {
        lemma_backoff_after_rate_limits(v, (n - 1) as nat);
        assert(two_pow(n) == 2 * two_pow((n - 1) as nat));
    }
}

/// A status other than `200` and `429` ends the run: nothing more is
/// requested, and the run records that status as an early, error-free stop.
pub proof fn lemma_other_status_stops(v: LoopView, status: u16)
    requires
        loop_wf(v),
        v.url is Some,
        status != STATUS_OK,
        status != STATUS_TOO_MANY_REQUESTS,
    ensures
        status_class(status) == (StatusClass::TerminalFailure { status }),
        next_state(v, PageEvent::TerminalFailure { status }).url is None,
        next_state(v, PageEvent::TerminalFailure { status }).stopped == Some(status),
        action_for(v, PageEvent::TerminalFailure { status }) == (ActionView::Stop { status }),
{
}

impl FetchLoop {
    /// A run that starts at `initial_url`, on page one, with the initial wait.
    pub fn new(ticker: String, from_date: String, to_date: String, initial_url: String) -> (r: FetchLoop)
        ensures
            r@ == (LoopView {
                ticker: ticker@,
                from_date: from_date@,
                to_date: to_date@,
                url: Some(initial_url@),
                page: 1,
                retry_delay: INITIAL_RETRY_DELAY as nat,
                stopped: None,
            }),
            loop_wf(r@),
    {
        FetchLoop {
            ticker,
            from_date,
            to_date,
            url: Some(initial_url),
            page: 1,
            retry_delay: INITIAL_RETRY_DELAY,
            stopped: None,
        }
    }

    /// The URL to request next; `None` once the run is over.
    pub fn pending_url(&self) -> (r: Option<&str>)
        ensures
            r is Some <==> self@.url is Some,
            r matches Some(u) ==> self@.url == Some(u@),
    {
        match &self.url {
            Some(u) => Some(u.as_str()),
            None => None,
        }
    }

    /// The number of the next page to be saved.
    pub fn page(&self) -> (r: u64)
        ensures
            r == self@.page,
    {
        self.page
    }

    /// The wait, in seconds, before retrying the next rate-limited request.
    pub fn retry_delay(&self) -> (r: u64)
        ensures
            r == self@.retry_delay,
    {
        self.retry_delay
    }

    /// The status that ended the run early, if one did.
    pub fn stopped_status(&self) -> (r: Option<u16>)
        ensures
            r == self@.stopped,
    {
        self.stopped
    }

    /// Takes the response to the pending request and returns what to do:
    /// a served page is saved under the current page number and the run moves
    /// on to its cursor, or ends when it has none; a rate limit leaves the
    /// request and page as they are and doubles the wait, up to its cap; any
    /// other status ends the run.
    pub fn step(&mut self, result: PageResult) -> (a: Action)
        requires
            loop_wf(old(self)@),
            old(self)@.url is Some,
            old(self)@.page < u64::MAX,
        ensures
            final(self)@ == next_state(old(self)@, result@),
            a@ == action_for(old(self)@, result@),
            loop_wf(final(self)@),
    {
        match result {
            PageResult::Success { body, next_url } => {
                let filename = page_filename(
                    self.ticker.as_str(),
                    self.from_date.as_str(),
                    self.to_date.as_str(),
                    self.page,
                );
                self.url = next_url;
                self.page = self.page + 1;
                self.retry_delay = INITIAL_RETRY_DELAY;
                Action::Save { filename, body }
            },
            PageResult::RateLimited => {
                let seconds = self.retry_delay;
                self.retry_delay = if 2 * seconds < MAX_RETRY_DELAY {
                    2 * seconds
                } else {
                    MAX_RETRY_DELAY
                };
                Action::Wait { seconds }
            },
            PageResult::TerminalFailure { status } => {
                self.url = None;
                self.stopped = Some(status);
                Action::Stop { status }
            },
        }
    }
}

} // verus!
