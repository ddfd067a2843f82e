//! Query tabs: each tab has its own SQL text and result, one of them is
//! active, and the manager opens, closes and switches them.

pub mod manager;
pub mod tab;

pub use manager::QueryTabManager;
pub use tab::QueryTab;
