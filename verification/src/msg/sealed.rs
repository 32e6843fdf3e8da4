//! Keeps [`FromIrc`](super::FromIrc) to the message types of this library.
use vstd::prelude::*;

verus! {

/// Implemented only by the message types of this library.
pub trait Sealed {
}

} // verus!
