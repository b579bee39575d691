//! Browsing multi-dimensional tables as pivoted two-dimensional grids.
//!
//! The library holds the verified core of the viewer: table metadata,
//! the catalog scan state machine, the projection of a table onto a pair of
//! free axes with margin totals, the cursor state of the pivot view and the
//! per-dimension selection marks.
pub mod catalog;
pub mod grid;
pub mod help;
pub mod picker;
pub mod select;
pub mod session;
pub mod summary;
pub mod table;
pub mod text;
pub mod viewer;
