//! Camera movement directions.
use vstd::prelude::*;

verus! {

/// A direction the camera can be moved in, relative to where it looks.
#[derive(Debug, PartialEq, Eq, Clone, Copy)]
pub enum MovementDirection {
    FORWARD,
    BACKWARD,
    LEFT,
    RIGHT,
}

} // verus!
