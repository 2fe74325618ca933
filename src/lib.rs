//! A terminal ticker of cryptocurrency prices: the records, the symbol filter,
//! the table that is drawn, and the decisions of the event loop.
pub mod decimal;
pub mod ticker;
pub mod table;
pub mod event_loop;
