//! Error types.

use vstd::prelude::*;

verus! {

/// Failure raised when text does not name any territory identifier.
///
/// This is the only failure in the country subsystem.  It carries no
/// payload: a caller that needs the rejected text must keep it itself.
#[derive(Copy, Clone, PartialEq, Eq, Structural, Debug)]
pub enum Parse {
    /// The text is not the canonical code of any territory identifier.
    InvalidCountryCode,
}

} // verus!
