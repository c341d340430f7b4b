//! Outcomes of the animation panel.

use vstd::prelude::*;

verus! {

/// What the animation panel asks the application to do after a frame.
#[derive(Debug, Clone, Copy, PartialEq, Eq, Structural)]
pub enum AnimationAction {
    NoAction,
    Start,
    Cancel,
}

} // verus!
