//! A molecular graph as a stream of walk steps, in the shape that a SMILES
//! follower consumes: a root atom, bonds to new atoms, ring-closure digits,
//! and retreats along the current path.

use vstd::prelude::*;

verus! {

/// The bond that leads to an atom or to a ring-closure digit.
#[derive(Clone, Copy, Debug, PartialEq, Eq, Structural)]
pub enum Bond {
    /// A bond left implicit in the notation (single, or aromatic).
    Elided,
    /// An explicit single bond (`-`).
    Single,
    /// A double bond (`=`).
    Double,
    /// A directional single bond (`/`).
    Up,
    /// A directional single bond (`\`).
    Down,
}

/// An element of the organic subset, written without brackets.
#[derive(Clone, Copy, Debug, PartialEq, Eq, Structural)]
pub enum Organic {
    C,
    N,
    O,
    S,
}

/// The tetrahedral configuration of a chiral centre (`@` or `@@`).
#[derive(Clone, Copy, Debug, PartialEq, Eq, Structural)]
pub enum Chirality {
    Th1,
    Th2,
}

/// An atom of the graph.
#[derive(Clone, Copy, Debug, PartialEq, Eq, Structural)]
pub enum Atom {
    /// An aliphatic organic-subset atom (`C`, `N`, `O`, `S`).
    Aliphatic(Organic),
    /// An aromatic organic-subset atom (`c`, `n`, `o`, `s`).
    Aromatic(Organic),
    /// A carbon bearing one hydrogen with the given configuration
    /// (`[C@H]`, `[C@@H]`).
    ChiralCarbon(Chirality),
    /// A selenium atom (`[Se]`).
    Selenium,
}

/// One step of a walk over the graph.
#[derive(Clone, Copy, Debug, PartialEq, Eq, Structural)]
pub enum Step {
    /// Start a new connected component at this atom.
    Root(Atom),
    /// Bond the head of the path to a new atom, which becomes the head.
    Extend(Bond, Atom),
    /// Open or close the ring-closure digit on the head of the path.
    Join(Bond, u16),
    /// Retreat along the path by this many atoms.
    Pop(usize),
}

/// The largest ring-closure digit of the notation.
pub const MAX_RNUM: u16 = 99;

/// The change that a step makes to the length of the current path.
pub open spec fn effect(s: Step) -> int {
    match s {
        Step::Root(_) => 1,
        Step::Extend(_, _) => 1,
        Step::Join(_, _) => 0,
        Step::Pop(n) => -n,
    }
}

/// The length of the current path after the steps, from an empty start.
pub open spec fn depth(steps: Seq<Step>) -> int
    decreases steps.len(),
{
    if steps.len() == 0 {
        0
    } else {
        depth(steps.drop_last()) + effect(steps.last())
    }
}

/// Whether a step can be taken on a path of the given length: a bond or a
/// ring-closure digit needs a head atom, a retreat must leave one atom, and
/// a digit must exist in the notation.
pub open spec fn allowed(d: int, s: Step) -> bool {
    match s {
        Step::Root(_) => true,
        Step::Extend(_, _) => d >= 1,
        Step::Join(_, m) => d >= 1 && m <= MAX_RNUM,
        Step::Pop(n) => n < d,
    }
}

/// Whether every step of the walk can be taken where it stands.
pub open spec fn well_formed(steps: Seq<Step>) -> bool
    decreases steps.len(),
{
    steps.len() == 0 || (well_formed(steps.drop_last()) && allowed(
        depth(steps.drop_last()),
        steps.last(),
    ))
}

/// The prefixes of a well-formed walk are well formed, and each step is
/// allowed after the prefix before it.
pub proof fn lemma_prefix_well_formed(steps: Seq<Step>, i: int)
    requires
        well_formed(steps),
        0 <= i < steps.len(),
    ensures
        well_formed(steps.take(i)),
        allowed(depth(steps.take(i)), steps[i]),
        depth(steps.take(i + 1)) == depth(steps.take(i)) + effect(steps[i]),
    decreases steps.len(),
{
    if i == steps.len() - 1 {
        assert(steps.take(i) =~= steps.drop_last());
        assert(steps.take(i + 1) =~= steps);
    } else {
        lemma_prefix_well_formed(steps.drop_last(), i);
        assert(steps.drop_last().take(i) =~= steps.take(i));
        assert(steps.drop_last().take(i + 1) =~= steps.take(i + 1));
    }
}

/// Appends one step to the walk, keeping it well formed.
pub fn emit(out: &mut Vec<Step>, s: Step)
    requires
        well_formed(old(out)@),
        allowed(depth(old(out)@), s),
    ensures
        final(out)@ == old(out)@.push(s),
        well_formed(final(out)@),
        depth(final(out)@) == depth(old(out)@) + effect(s),
{
    out.push(s);
    assert(out@.drop_last() =~= old(out)@);
}

} // verus!
