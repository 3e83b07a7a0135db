//! Paginated retrieval of market-data aggregates: request construction,
//! default date range, continuation cursors and the retry/pagination state
//! machine that drives the fetch loop.

pub mod text;
pub mod request;
pub mod dates;
pub mod cursor;
pub mod pagination;
