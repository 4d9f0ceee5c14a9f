//! Table-name templating, SQL statement building and row formatting for
//! K-line (candlestick) records stored in per-instrument MySQL tables.

pub mod datetime;
pub mod decimal;
pub mod item;
pub mod query;
pub mod registry;
pub mod text;
pub mod util;
