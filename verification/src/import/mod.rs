//! Importing SQL, CSV and JSON files: the dialog's state and the reader that
//! splits an SQL file into statements.

pub mod parser;
pub mod state;
pub mod types;
