//! The data grid: a table of cells with a cursor that moves as in a modal
//! editor, edits that wait to be saved, and a cache of column widths.

pub mod filter;
pub mod hash;
pub mod state;
