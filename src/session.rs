//! Which view the interactive session shows.
use vstd::prelude::*;

verus! {

/// The view on screen: the catalog, the pivot view of a named table, a pause,
/// or the help overlay.
#[derive(Debug, Clone)]
pub enum Mode {
    Picker,
    Viewer(String),
    Waiting,
    Help,
}

} // verus!
