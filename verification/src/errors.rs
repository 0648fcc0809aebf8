//! Engine-level error taxonomy: both kinds mark programming errors, not
//! conditions a player can cause or recover from.

use vstd::prelude::*;

verus! {

/// A fatal engine error.
#[derive(Clone, Copy, Debug, PartialEq, Eq, Structural)]
pub enum EngineError {
    /// A query was made before the prime table was extended far enough.
    Precondition,
    /// An input was applied in a state that does not accept it.
    InvalidTransition,
}

} // verus!
