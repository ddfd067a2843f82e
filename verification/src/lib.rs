//! The logic of a database workbench: the tabs of its query window, the
//! cursor and pending edits of its data grid, the text helpers of its SQL
//! editor, and the reader that splits an SQL file into statements for
//! import.

pub mod er_diagram;
pub mod focus;
pub mod grid;
pub mod import;
pub mod query_tabs;
pub mod result;
pub mod shell;
pub mod sidebar;
pub mod sql_editor;
pub mod statements;
pub mod tab_bar;
pub mod text;
pub mod toolbar;
