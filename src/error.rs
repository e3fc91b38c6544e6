//! The errors of cross-link registration and traversal.

use vstd::prelude::*;

use crate::protein::CrossLink;
use crate::residue::AminoAcid;

verus! {

/// A generic error type for this crate.
#[derive(Clone, Copy, Debug, PartialEq, Eq, Structural)]
pub enum Error {
    /// A cross-link is registered on a position whose residue cannot take
    /// part in it: the position, its residue and the cross-link.
    InvalidCrossLink(u16, AminoAcid, CrossLink),
    /// A position already owns a cross-link.
    DuplicateCrossLink(u16),
    /// The ring-closure digits of the notation are exhausted.
    TooManyCrossLinks,
}

} // verus!
