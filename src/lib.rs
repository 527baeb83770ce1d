//! Viewport and navigation engine of a terminal viewer for options chains.

pub mod laws;
pub mod layout;
pub mod nav;
pub mod table;
