//! Amino-acid sequences, cross-links and cyclization turned into a SMILES
//! molecular graph.

pub mod catalog;
pub mod error;
pub mod laws;
pub mod notation;
pub mod protein;
pub mod residue;
pub mod smiles;
pub mod text;
pub mod walk;

pub use error::Error;
pub use protein::{visit, CrossLink, Cyclization, Protein};
pub use residue::AminoAcid;
pub use residue::UnknownResidue;
pub use smiles::{render, smiles};
pub use walk::{Atom, Bond, Chirality, Organic, Step};
