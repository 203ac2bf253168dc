//! Work sent to the reactors.

use vstd::prelude::*;

verus! {

/// Why work could not be sent.
#[derive(Clone, Copy, Debug, PartialEq, Eq, Structural)]
pub enum Error {
    /// the work was sent from a thread that is not a reactor's
    InvalidThread,
}

} // verus!
