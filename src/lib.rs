//! A cell holding a current value and the value it held just before the
//! most recent update, if any.

mod cell;
pub mod laws;

pub use cell::{CellView, MemoryCell};
