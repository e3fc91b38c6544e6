//! Cross-links, cyclization, and the peptide built from them.

use std::collections::HashMap;

use vstd::prelude::*;

use crate::catalog::{bare, double, recipe, ring, visit_residue};
use crate::error::Error;
use crate::notation::ring_digit;
use crate::residue::AminoAcid;
use crate::walk::{depth, emit, well_formed, Atom, Bond, Organic, Step, MAX_RNUM};

verus! {

broadcast use vstd::std_specs::hash::group_hash_axioms;

/// A covalent bond between the side chains of two residues, given by their
/// 1-based positions.
#[derive(Clone, Copy, Debug, PartialEq, Eq, Structural)]
pub enum CrossLink {
    /// L-cystine: a disulfide bridge between two cysteines.
    Cystine(u16, u16),
    /// meso-lanthionine: a cysteine at the first position gives the sulfur,
    /// which a threonine at the second bonds in place of its hydroxyl.
    Lan(u16, u16),
    /// β-methyllanthionine: drawn as a lanthionine, the threonine keeping
    /// its methyl carbon.
    MeLan(u16, u16),
}

impl CrossLink {
    /// The first position of the cross-link.
    pub open spec fn first(self) -> u16 {
        match self {
            CrossLink::Cystine(i, _) => i,
            CrossLink::Lan(i, _) => i,
            CrossLink::MeLan(i, _) => i,
        }
    }

    /// The two positions of the cross-link.
    pub fn positions(&self) -> (r: (u16, u16))
        ensures
            r == (self.first(), self.second()),
    {
        match *self {
            CrossLink::Cystine(i, j) => (i, j),
            CrossLink::Lan(i, j) => (i, j),
            CrossLink::MeLan(i, j) => (i, j),
        }
    }

    /// The second position of the cross-link.
    pub open spec fn second(self) -> u16 {
        match self {
            CrossLink::Cystine(_, j) => j,
            CrossLink::Lan(_, j) => j,
            CrossLink::MeLan(_, j) => j,
        }
    }
}

/// A peptide cyclization mechanism.
#[derive(Clone, Copy, Debug, PartialEq, Eq, Structural)]
pub enum Cyclization {
    /// No cyclization, resulting in a linear peptide.
    Linear,
    /// Head-to-tail cyclization, resulting in an homodetic cyclic peptide.
    HeadToTail,
}

impl Default for Cyclization {
    fn default() -> (r: Self)
        ensures
            r == Cyclization::Linear,
    {
        Cyclization::Linear
    }
}

/// The ring-closure digit that closes a head-to-tail cyclization.
pub const RING_CYCLE: u16 = 0;

/// The first ring-closure digit given to a cross-link; the digits below it
/// belong to the cyclization and to the rings inside residues.
pub const FIRST_LINK_DIGIT: u16 = 3;

/// The cross-link registry as a map, its digit counter, and the outcome
/// after registering `l`. A registration that finds its first position
/// taken changes nothing; one that finds its second position taken keeps
/// the first position it mapped.
pub open spec fn register(links: Map<u16, (u16, CrossLink)>, num: u16, l: CrossLink) -> (
    Map<u16, (u16, CrossLink)>,
    u16,
    Result<(), Error>,
) {
    let (i, j) = (l.first(), l.second());
    if num > MAX_RNUM {
        (links, num, Err(Error::TooManyCrossLinks))
    } else if links.contains_key(i) {
        (links, num, Err(Error::DuplicateCrossLink(i)))
    } else if links.insert(i, (num, l)).contains_key(j) {
        (links.insert(i, (num, l)), num, Err(Error::DuplicateCrossLink(j)))
    } else {
        (links.insert(i, (num, l)).insert(j, (num, l)), (num + 1) as u16, Ok(()))
    }
}

/// The cross-link registered at a position, with its digit.
pub open spec fn link_at(links: Map<u16, (u16, CrossLink)>, p: u16) -> Option<(u16, CrossLink)> {
    if links.contains_key(p) {
        Some(links[p])
    } else {
        None
    }
}

/// The steps of the residue at 0-based position `k`: the nitrogen that
/// bonds it to the one before (none for the first), the residue, and its
/// carbonyl oxygen.
pub open spec fn unit(seq: Seq<AminoAcid>, links: Map<u16, (u16, CrossLink)>, k: int) -> Result<
    Seq<Step>,
    Error,
> {
    let p = (k + 1) as u16;
    match recipe(seq[k], p, link_at(links, p)) {
        Ok(s) => Ok(
            (if k == 0 {
                seq![]
            } else {
                seq![bare(Organic::N)]
            }) + s + seq![double(Organic::O), Step::Pop(1)],
        ),
        Err(e) => Err(e),
    }
}

/// The steps of the first `n` residues, or the error of the first residue
/// that fails among them.
pub open spec fn units(seq: Seq<AminoAcid>, links: Map<u16, (u16, CrossLink)>, n: nat) -> Result<
    Seq<Step>,
    Error,
>
    decreases n,
{
    if n == 0 {
        Ok(seq![])
    } else {
        match units(seq, links, (n - 1) as nat) {
            Ok(s) => match unit(seq, links, n - 1) {
                Ok(u) => Ok(s + u),
                Err(e) => Err(e),
            },
            Err(e) => Err(e),
        }
    }
}

/// The N-terminus: the amine nitrogen, which opens the cyclization digit
/// when the peptide is cyclized.
pub open spec fn head(cyclization: Cyclization) -> Seq<Step> {
    match cyclization {
        Cyclization::Linear => seq![Step::Root(Atom::Aliphatic(Organic::N))],
        Cyclization::HeadToTail => seq![Step::Root(Atom::Aliphatic(Organic::N)), ring(RING_CYCLE)],
    }
}

/// The C-terminus: the hydroxyl oxygen of the free acid, or the closing of
/// the cyclization digit.
pub open spec fn tail(cyclization: Cyclization) -> Seq<Step> {
    match cyclization {
        Cyclization::Linear => seq![Step::Extend(Bond::Single, Atom::Aliphatic(Organic::O))],
        Cyclization::HeadToTail => seq![ring(RING_CYCLE)],
    }
}

/// The walk over a whole peptide: nothing for an empty sequence, else the
/// N-terminus, each residue in order and the C-terminus; or the error of
/// the first residue that cannot take its cross-link.
pub open spec fn walk(
    seq: Seq<AminoAcid>,
    links: Map<u16, (u16, CrossLink)>,
    cyclization: Cyclization,
) -> Result<Seq<Step>, Error> {
    if seq.len() == 0 {
        Ok(seq![])
    } else {
        match units(seq, links, seq.len()) {
            Ok(s) => Ok(head(cyclization) + s + tail(cyclization)),
            Err(e) => Err(e),
        }
    }
}

/// Once the first `a` residues hold an error, every longer prefix holds it.
pub proof fn lemma_units_error_persists(
    seq: Seq<AminoAcid>,
    links: Map<u16, (u16, CrossLink)>,
    a: nat,
    b: nat,
)
    requires
        a <= b,
        units(seq, links, a) is Err,
    ensures
        units(seq, links, b) == units(seq, links, a),
    decreases b,
{
    if a < b {
        lemma_units_error_persists(seq, links, a, (b - 1) as nat);
    }
}

/// A protein abstracted as a modified peptide.
#[derive(Clone, Debug, PartialEq)]
pub struct Protein {
    cyclization: Cyclization,
    cross_links: HashMap<u16, (u16, CrossLink)>,
    cross_link_num: u16,
    sequence: Vec<AminoAcid>,
}

impl Protein {
    /// The residues, in order.
    pub closed spec fn residues(&self) -> Seq<AminoAcid> {
        self.sequence@
    }

    /// The registered positions, each with its ring-closure digit and its
    /// cross-link.
    pub closed spec fn links(&self) -> Map<u16, (u16, CrossLink)> {
        self.cross_links@
    }

    /// The digit that the next cross-link will get.
    pub closed spec fn next_digit(&self) -> u16 {
        self.cross_link_num
    }

    /// The cyclization mode.
    pub closed spec fn cyclized(&self) -> Cyclization {
        self.cyclization
    }

    /// The digits of the registry stay within those that cross-links get.
    /// Every protein built by `new` and changed by `cyclization` and
    /// `cross_link` keeps this.
    pub open spec fn wf(&self) -> bool {
        &&& FIRST_LINK_DIGIT <= self.next_digit() <= MAX_RNUM + 1
        &&& forall|p: u16| #[trigger]
            self.links().contains_key(p) ==> FIRST_LINK_DIGIT <= self.links()[p].0 <= MAX_RNUM
            && self.links()[p].0 <= self.next_digit()
    }

    /// A linear peptide over the residues, with no cross-link.
    pub fn new(sequence: Vec<AminoAcid>) -> (r: Protein)
        ensures
            r.wf(),
            r.residues() == sequence@,
            r.links() == Map::<u16, (u16, CrossLink)>::empty(),
            r.next_digit() == FIRST_LINK_DIGIT,
            r.cyclized() == Cyclization::Linear,
    {
        Protein {
            sequence,
            cyclization: Cyclization::default(),
            cross_links: HashMap::new(),
            cross_link_num: FIRST_LINK_DIGIT,
        }
    }

    /// Mark whether the peptide is cyclized through a known cyclization
    /// mechanism.
    pub fn cyclization(&mut self, cyclization: Cyclization)
        ensures
            final(self).cyclized() == cyclization,
            final(self).residues() == old(self).residues(),
            final(self).links() == old(self).links(),
            final(self).next_digit() == old(self).next_digit(),
            old(self).wf() ==> final(self).wf(),
    {
        self.cyclization = cyclization;
    }

    /// Add a cross-link between residues of the peptide.
    ///
    /// The cross-link gets the next ring-closure digit, which is spent only
    /// when both of its positions were free.
    pub fn cross_link(&mut self, cross_link: CrossLink) -> (r: Result<(), Error>)
        requires
            old(self).wf(),
        ensures
            (final(self).links(), final(self).next_digit(), r) == register(
                old(self).links(),
                old(self).next_digit(),
                cross_link,
            ),
            final(self).residues() == old(self).residues(),
            final(self).cyclized() == old(self).cyclized(),
            final(self).wf(),
    {
        let num = self.cross_link_num;
        if ring_digit(num).is_none() {
            return Err(Error::TooManyCrossLinks);
        }
        let (i, j) = cross_link.positions();
        if self.cross_links.contains_key(&i) {
            return Err(Error::DuplicateCrossLink(i));
        }
        self.cross_links.insert(i, (num, cross_link));
        if self.cross_links.contains_key(&j) {
            return Err(Error::DuplicateCrossLink(j));
        }
        self.cross_links.insert(j, (num, cross_link));
        self.cross_link_num = num + 1;
        Ok(())
    }

    /// The number of residues.
    pub fn residue_count(&self) -> (r: usize)
        ensures
            r == self.residues().len(),
    {
        self.sequence.len()
    }

    /// The cross-link registered at a 1-based position, with its
    /// ring-closure digit.
    pub fn cross_link_at(&self, position: u16) -> (r: Option<(u16, CrossLink)>)
        ensures
            r == link_at(self.links(), position),
    {
        match self.cross_links.get(&position) {
            Some(v) => Some(*v),
            None => None,
        }
    }

    /// Appends the steps of the residue at 0-based position `k`.
    fn visit_unit(&self, k: usize, out: &mut Vec<Step>) -> (r: Result<(), Error>)
        requires
            self.wf(),
            k < self.residues().len() <= u16::MAX,
            well_formed(old(out)@),
            depth(old(out)@) >= 1,
        ensures
            match unit(self.residues(), self.links(), k as int) {
                Ok(u) => {
                    &&& r is Ok
                    &&& final(out)@ == old(out)@ + u
                    &&& well_formed(final(out)@)
                    &&& depth(final(out)@) >= 1
                },
                Err(e) => r == Err::<(), Error>(e),
            },
    {
        let ghost before = out@;
        if k > 0 {
            // the nitrogen of the peptide bond
            emit(out, bare(Organic::N));
        }
        let p = (k + 1) as u16;
        let link = self.cross_link_at(p);
        match visit_residue(self.sequence[k], p, link, out) {
            Ok(()) => {},
            Err(e) => {
                return Err(e);
            },
        }
        // the carbonyl oxygen, then back to the carbonyl carbon
        emit(out, double(Organic::O));
        emit(out, Step::Pop(1));
        assert(out@ =~= before + unit(self.residues(), self.links(), k as int)->Ok_0);
        Ok(())
    }

    /// Perform a walk on the atoms and bonds of the peptide.
    pub fn visit(self) -> (r: Result<Vec<Step>, Error>)
        requires
            self.wf(),
            self.residues().len() <= u16::MAX,
        ensures
            match walk(self.residues(), self.links(), self.cyclized()) {
                Ok(s) => r matches Ok(v) && v@ == s && well_formed(s),
                Err(e) => r == Err::<Vec<Step>, Error>(e),
            },
    {
        let mut out: Vec<Step> = Vec::new();
        let n = self.sequence.len();
        if n == 0 {
            return Ok(out);
        }
        let ghost seq = self.residues();
        let ghost links = self.links();
        // N-terminus: the nitrogen of the primary amine.
        emit(&mut out, Step::Root(Atom::Aliphatic(Organic::N)));
        if self.cyclization == Cyclization::HeadToTail {
            emit(&mut out, ring(RING_CYCLE));
        }
        assert(out@ =~= head(self.cyclization) + seq![]);
        let mut k: usize = 0;
        while k < n
            invariant
                n == seq.len(),
                seq == self.sequence@,
                links == self.cross_links@,
                self.wf(),
                n <= u16::MAX,
                k <= n,
                units(seq, links, k as nat) is Ok,
                out@ == head(self.cyclization) + units(seq, links, k as nat)->Ok_0,
                well_formed(out@),
                depth(out@) >= 1,
            decreases n - k,
        {
            match self.visit_unit(k, &mut out) {
                Ok(()) => {},
                Err(e) => {
                    proof {
                        lemma_units_error_persists(seq, links, (k + 1) as nat, n as nat);
                    }
                    return Err(e);
                },
            }
            k = k + 1;
            assert(out@ =~= head(self.cyclization) + units(seq, links, k as nat)->Ok_0);
        }
        // C-terminus: the hydroxyl oxygen, or the closing of the cycle.
        if self.cyclization == Cyclization::HeadToTail {
            emit(&mut out, ring(RING_CYCLE));
        } else {
            emit(&mut out, Step::Extend(Bond::Single, Atom::Aliphatic(Organic::O)));
        }
        assert(out@ =~= head(self.cyclization) + units(seq, links, n as nat)->Ok_0 + tail(
            self.cyclization,
        ));
        Ok(out)
    }
}

/// Perform a walk on the atoms and bonds of a linear peptide with no
/// cross-link.
pub fn visit(sequence: Vec<AminoAcid>) -> (r: Result<Vec<Step>, Error>)
    requires
        sequence@.len() <= u16::MAX,
    ensures
        match walk(sequence@, Map::empty(), Cyclization::Linear) {
            Ok(s) => r matches Ok(v) && v@ == s && well_formed(s),
            Err(e) => r == Err::<Vec<Step>, Error>(e),
        },
{
    Protein::new(sequence).visit()
}

} // verus!
