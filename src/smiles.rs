//! SMILES text for a walk, and for a peptide.

use vstd::prelude::*;

use purr::feature::AtomKind;

use crate::error::Error;
use crate::notation::{
    aliphatic_kind, atom_kind_text, aromatic_kind, bond_kind, chiral_carbon_kind, path_of, ring_digit,
    selenium_kind, writer_extend, writer_join, writer_new, writer_pop, writer_root, writer_write,
};
use crate::protein::{walk, Cyclization, Protein};
use crate::residue::AminoAcid;
use crate::text::{atom_text, path_after, smiles_text};
use crate::walk::{depth, lemma_prefix_well_formed, well_formed, Atom, Step};

verus! {

fn atom_kind(a: Atom) -> (r: AtomKind)
    ensures
        atom_kind_text(r) == atom_text(a),
{
    match a {
        Atom::Aliphatic(o) => aliphatic_kind(o),
        Atom::Aromatic(o) => aromatic_kind(o),
        Atom::ChiralCarbon(c) => chiral_carbon_kind(c),
        Atom::Selenium => selenium_kind(),
    }
}

/// Writes a well-formed walk as SMILES text with purr's writer.
pub fn render(steps: &Vec<Step>) -> (r: String)
    requires
        well_formed(steps@),
    ensures
        r@ == smiles_text(steps@),
        steps@.len() == 0 ==> r@.len() == 0,
{
    let mut w = writer_new();
    let mut i: usize = 0;
    assert(steps@.take(0) =~= Seq::<Step>::empty());
    while i < steps.len()
        invariant
            well_formed(steps@),
            i <= steps@.len(),
            path_of(w) == path_after(steps@.take(i as int)),
            path_of(w).len() == depth(steps@.take(i as int)),
        decreases steps@.len() - i,
    {
        proof {
            lemma_prefix_well_formed(steps@, i as int);
            assert(steps@.take(i + 1).drop_last() =~= steps@.take(i as int));
            assert(steps@.take(i + 1).last() == steps@[i as int]);
        }
        match steps[i] {
            Step::Root(a) => writer_root(&mut w, atom_kind(a)),
            Step::Extend(b, a) => writer_extend(&mut w, bond_kind(b), atom_kind(a)),
            Step::Join(b, m) => {
                if let Some(rnum) = ring_digit(m) {
                    writer_join(&mut w, bond_kind(b), rnum);
                }
            },
            Step::Pop(n) => writer_pop(&mut w, n),
        }
        i = i + 1;
    }
    assert(steps@.take(i as int) =~= steps@);
    writer_write(w)
}

/// Create a SMILES string for the given amino-acid sequence, as a linear
/// peptide with no cross-link. The empty sequence gives the empty string.
pub fn smiles(sequence: Vec<AminoAcid>) -> (r: Result<String, Error>)
    requires
        sequence@.len() <= u16::MAX,
    ensures
        match walk(sequence@, Map::empty(), Cyclization::Linear) {
            Ok(steps) => r matches Ok(s) && s@ == smiles_text(steps),
            Err(e) => r == Err::<String, Error>(e),
        },
        sequence@.len() == 0 ==> (r matches Ok(s) && s@.len() == 0),
{
    let steps = Protein::new(sequence).visit()?;
    Ok(render(&steps))
}

} // verus!
