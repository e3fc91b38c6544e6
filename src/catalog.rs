//! The residue catalog: the steps that draw each residue, from its α carbon
//! to the carbonyl carbon that the backbone continues from.

use vstd::prelude::*;

use crate::error::Error;
use crate::protein::CrossLink;
use crate::residue::AminoAcid;
use crate::walk::{
    depth, emit, well_formed, Atom, Bond, Chirality, Organic, Step, MAX_RNUM,
};

verus! {

/// The ring-closure digit that rings inside one residue open first.
pub const RING_A: u16 = 1;

/// The ring-closure digit that rings inside one residue open second.
pub const RING_B: u16 = 2;

/// An aliphatic atom on an elided bond.
pub open spec fn spec_bare(o: Organic) -> Step {
    Step::Extend(Bond::Elided, Atom::Aliphatic(o))
}

/// An aromatic atom on an elided bond.
pub open spec fn spec_arom(o: Organic) -> Step {
    Step::Extend(Bond::Elided, Atom::Aromatic(o))
}

/// A chiral carbon on an elided bond.
pub open spec fn spec_chiral(c: Chirality) -> Step {
    Step::Extend(Bond::Elided, Atom::ChiralCarbon(c))
}

/// An aliphatic atom on a double bond.
pub open spec fn spec_double(o: Organic) -> Step {
    Step::Extend(Bond::Double, Atom::Aliphatic(o))
}

/// A ring-closure digit on an elided bond.
pub open spec fn spec_ring(m: u16) -> Step {
    Step::Join(Bond::Elided, m)
}

/// An aliphatic atom on an elided bond.
#[verifier::when_used_as_spec(spec_bare)]
pub fn bare(o: Organic) -> (r: Step)
    ensures
        r == spec_bare(o),
{
    Step::Extend(Bond::Elided, Atom::Aliphatic(o))
}

/// An aromatic atom on an elided bond.
#[verifier::when_used_as_spec(spec_arom)]
pub fn arom(o: Organic) -> (r: Step)
    ensures
        r == spec_arom(o),
{
    Step::Extend(Bond::Elided, Atom::Aromatic(o))
}

/// A chiral carbon on an elided bond.
#[verifier::when_used_as_spec(spec_chiral)]
pub fn chiral(c: Chirality) -> (r: Step)
    ensures
        r == spec_chiral(c),
{
    Step::Extend(Bond::Elided, Atom::ChiralCarbon(c))
}

/// An aliphatic atom on a double bond.
#[verifier::when_used_as_spec(spec_double)]
pub fn double(o: Organic) -> (r: Step)
    ensures
        r == spec_double(o),
{
    Step::Extend(Bond::Double, Atom::Aliphatic(o))
}

/// A ring-closure digit on an elided bond.
#[verifier::when_used_as_spec(spec_ring)]
pub fn ring(m: u16) -> (r: Step)
    ensures
        r == spec_ring(m),
{
    Step::Join(Bond::Elided, m)
}

/// Whether a residue has a recipe that can take part in a cross-link.
pub open spec fn links_allowed(aa: AminoAcid) -> bool {
    aa == AminoAcid::Thr || aa == AminoAcid::Cys
}

/// The steps of a residue that takes part in no cross-link, from its α
/// carbon back to it; empty for cysteine and threonine, whose steps depend
/// on their cross-link.
pub open spec fn fixed_body(aa: AminoAcid) -> Seq<Step> {
    let ch2 = chiral(Chirality::Th2);
    let c = bare(Organic::C);
    match aa {
        AminoAcid::Dhb => seq![
            Step::Extend(Bond::Up, Atom::Aliphatic(Organic::C)),
            double(Organic::C),
            Step::Extend(Bond::Down, Atom::Aliphatic(Organic::C)),
            Step::Pop(2),
        ],
        AminoAcid::Dha => seq![c, double(Organic::C), Step::Pop(1)],
        AminoAcid::Pyl => seq![
            ch2, c, c, c, c, bare(Organic::N), c, double(Organic::O), Step::Pop(1),
            chiral(Chirality::Th1), ring(RING_A), chiral(Chirality::Th1), c, Step::Pop(1),
            c, c, double(Organic::N), ring(RING_A), Step::Pop(11),
        ],
        AminoAcid::Gly => seq![c],
        AminoAcid::Ala => seq![ch2, c, Step::Pop(1)],
        AminoAcid::Pro => seq![ring(RING_A), c, c, c, chiral(Chirality::Th1), ring(RING_A)],
        AminoAcid::Val => seq![ch2, c, c, Step::Pop(1), c, Step::Pop(2)],
        AminoAcid::Leu => seq![ch2, c, c, c, Step::Pop(1), c, Step::Pop(3)],
        AminoAcid::Met => seq![ch2, c, c, bare(Organic::S), c, Step::Pop(4)],
        AminoAcid::Phe => seq![
            ch2, c, arom(Organic::C), ring(RING_A), arom(Organic::C), arom(Organic::C),
            arom(Organic::C), arom(Organic::C), arom(Organic::C), ring(RING_A), Step::Pop(7),
        ],
        AminoAcid::Tyr => seq![
            ch2, c, arom(Organic::C), ring(RING_A), arom(Organic::C), arom(Organic::C),
            arom(Organic::C), bare(Organic::O), Step::Pop(1), arom(Organic::C),
            arom(Organic::C), ring(RING_A), Step::Pop(7),
        ],
        AminoAcid::Ser => seq![ch2, c, bare(Organic::O), Step::Pop(2)],
        AminoAcid::Sec => seq![
            ch2, c, Step::Extend(Bond::Elided, Atom::Selenium), Step::Pop(2),
        ],
        AminoAcid::Asn => seq![
            ch2, c, c, double(Organic::O), Step::Pop(1), bare(Organic::N), Step::Pop(3),
        ],
        AminoAcid::Gln => seq![
            ch2, c, c, c, double(Organic::O), Step::Pop(1), bare(Organic::N), Step::Pop(4),
        ],
        AminoAcid::Arg => seq![
            ch2, c, c, c, bare(Organic::N), c, double(Organic::N), Step::Pop(1),
            bare(Organic::N), Step::Pop(6),
        ],
        AminoAcid::Lys => seq![ch2, c, c, c, c, bare(Organic::N), Step::Pop(5)],
        AminoAcid::His => seq![
            ch2, c, arom(Organic::C), ring(RING_A), arom(Organic::C), arom(Organic::N),
            arom(Organic::C), bare(Organic::N), ring(RING_A), Step::Pop(6),
        ],
        AminoAcid::Asp => seq![
            ch2, c, c, double(Organic::O), Step::Pop(1), bare(Organic::O), Step::Pop(3),
        ],
        AminoAcid::Glu => seq![
            ch2, c, c, c, double(Organic::O), Step::Pop(1), bare(Organic::O), Step::Pop(4),
        ],
        AminoAcid::Ile => seq![ch2, ch2, c, Step::Pop(1), c, c, Step::Pop(3)],
        AminoAcid::Trp => seq![
            ch2, c, arom(Organic::C), ring(RING_A), arom(Organic::C), arom(Organic::N),
            arom(Organic::C), ring(RING_B), arom(Organic::C), ring(RING_A), arom(Organic::C),
            arom(Organic::C), arom(Organic::C), arom(Organic::C), ring(RING_B), Step::Pop(10),
        ],
        AminoAcid::Cys => seq![],
        AminoAcid::Thr => seq![],
    }
}

/// Whether a cysteine at 1-based position `index` can take part in
/// cross-link `l`: either position of a cystine, or the first position of a
/// lanthionine or methyllanthionine, which gives the sulfur.
pub open spec fn cys_accepts(index: u16, l: CrossLink) -> bool {
    l is Cystine || l.first() == index
}

/// Whether a threonine at 1-based position `index` can take part in
/// cross-link `l`: the second position of a lanthionine or
/// methyllanthionine, which bonds the sulfur in place of its hydroxyl.
pub open spec fn thr_accepts(index: u16, l: CrossLink) -> bool {
    !(l is Cystine) && l.second() == index
}

/// The steps of a cysteine, from its α carbon back to it: its sulfur,
/// which closes the digit of its cross-link if it has one.
pub open spec fn cys_body(link: Option<(u16, CrossLink)>) -> Seq<Step> {
    let head = seq![chiral(Chirality::Th2), bare(Organic::C)];
    match link {
        None => head + seq![bare(Organic::S), Step::Pop(2)],
        Some((m, _)) => head + seq![bare(Organic::S), ring(m), Step::Pop(2)],
    }
}

/// The steps of a threonine with no cross-link, from its α carbon back to it.
pub open spec fn thr_body() -> Seq<Step> {
    seq![
        chiral(Chirality::Th2), chiral(Chirality::Th2), bare(Organic::C), Step::Pop(1),
        bare(Organic::O), Step::Pop(2),
    ]
}

/// The steps of a threonine that closes digit `m` on its β carbon in place
/// of its hydroxyl, keeping its methyl carbon.
pub open spec fn thr_linked_body(m: u16) -> Seq<Step> {
    seq![
        chiral(Chirality::Th2), chiral(Chirality::Th2), ring(m), bare(Organic::C), Step::Pop(2),
    ]
}

/// The steps that draw residue `aa` at 1-based position `index`, given the
/// cross-link registered there with its digit, ending on the carbonyl
/// carbon; or the error when the residue cannot take part in that
/// cross-link.
#[verifier::opaque]
pub open spec fn recipe(aa: AminoAcid, index: u16, link: Option<(u16, CrossLink)>) -> Result<
    Seq<Step>,
    Error,
> {
    let tail = seq![bare(Organic::C)];
    match link {
        None => if aa == AminoAcid::Cys {
            Ok(cys_body(link) + tail)
        } else if aa == AminoAcid::Thr {
            Ok(thr_body() + tail)
        } else {
            Ok(fixed_body(aa) + tail)
        },
        Some((m, l)) => if aa == AminoAcid::Cys && cys_accepts(index, l) {
            Ok(cys_body(link) + tail)
        } else if aa == AminoAcid::Thr && thr_accepts(index, l) {
            Ok(thr_linked_body(m) + tail)
        } else {
            Err(Error::InvalidCrossLink(index, aa, l))
        },
    }
}

/// Appends the fixed steps of an aliphatic residue.
#[verifier::rlimit(40)]
fn emit_aliphatic(aa: AminoAcid, out: &mut Vec<Step>)
    requires
        aa == AminoAcid::Gly || aa == AminoAcid::Ala || aa == AminoAcid::Val || aa == AminoAcid::Leu || aa == AminoAcid::Ile || aa == AminoAcid::Met || aa == AminoAcid::Pro,
        well_formed(old(out)@),
        depth(old(out)@) >= 1,
    ensures
        final(out)@ == old(out)@ + fixed_body(aa),
        well_formed(final(out)@),
        depth(final(out)@) >= depth(old(out)@),
{
    let ghost start = out@;
    let c = bare(Organic::C);
    let ch2 = chiral(Chirality::Th2);
    match aa {
        AminoAcid::Gly => {
            emit(out, c);
            proof {
                assert(out@ =~= start + fixed_body(aa));
            }
        },
        AminoAcid::Ala => {
            emit(out, ch2);
            emit(out, c);
            emit(out, Step::Pop(1));
            proof {
                assert(out@ =~= start + fixed_body(aa));
            }
        },
        AminoAcid::Val => {
            emit(out, ch2);
            emit(out, c);
            emit(out, c);
            emit(out, Step::Pop(1));
            emit(out, c);
            emit(out, Step::Pop(2));
            proof {
                assert(out@ =~= start + fixed_body(aa));
            }
        },
        AminoAcid::Leu => {
            emit(out, ch2);
            emit(out, c);
            emit(out, c);
            emit(out, c);
            emit(out, Step::Pop(1));
            emit(out, c);
            emit(out, Step::Pop(3));
            proof {
                assert(out@ =~= start + fixed_body(aa));
            }
        },
        AminoAcid::Ile => {
            emit(out, ch2);
            emit(out, ch2);
            emit(out, c);
            emit(out, Step::Pop(1));
            emit(out, c);
            emit(out, c);
            emit(out, Step::Pop(3));
            proof {
                assert(out@ =~= start + fixed_body(aa));
            }
        },
        AminoAcid::Met => {
            emit(out, ch2);
            emit(out, c);
            emit(out, c);
            emit(out, bare(Organic::S));
            emit(out, c);
            emit(out, Step::Pop(4));
            proof {
                assert(out@ =~= start + fixed_body(aa));
            }
        },
        AminoAcid::Pro => {
            emit(out, ring(RING_A));
            emit(out, c);
            emit(out, c);
            emit(out, c);
            emit(out, chiral(Chirality::Th1));
            emit(out, ring(RING_A));
            proof {
                assert(out@ =~= start + fixed_body(aa));
            }
        },
        _ => {},
    }
}

/// Appends the fixed steps of a polar or acidic residue.
#[verifier::rlimit(40)]
fn emit_polar(aa: AminoAcid, out: &mut Vec<Step>)
    requires
        aa == AminoAcid::Ser || aa == AminoAcid::Sec || aa == AminoAcid::Asn || aa == AminoAcid::Gln || aa == AminoAcid::Asp || aa == AminoAcid::Glu,
        well_formed(old(out)@),
        depth(old(out)@) >= 1,
    ensures
        final(out)@ == old(out)@ + fixed_body(aa),
        well_formed(final(out)@),
        depth(final(out)@) >= depth(old(out)@),
{
    let ghost start = out@;
    let c = bare(Organic::C);
    let ch2 = chiral(Chirality::Th2);
    match aa {
        AminoAcid::Ser => {
            emit(out, ch2);
            emit(out, c);
            emit(out, bare(Organic::O));
            emit(out, Step::Pop(2));
            proof {
                assert(out@ =~= start + fixed_body(aa));
            }
        },
        AminoAcid::Sec => {
            emit(out, ch2);
            emit(out, c);
            emit(out, Step::Extend(Bond::Elided, Atom::Selenium));
            emit(out, Step::Pop(2));
            proof {
                assert(out@ =~= start + fixed_body(aa));
            }
        },
        AminoAcid::Asn => {
            emit(out, ch2);
            emit(out, c);
            emit(out, c);
            emit(out, double(Organic::O));
            emit(out, Step::Pop(1));
            emit(out, bare(Organic::N));
            emit(out, Step::Pop(3));
            proof {
                assert(out@ =~= start + fixed_body(aa));
            }
        },
        AminoAcid::Gln => {
            emit(out, ch2);
            emit(out, c);
            emit(out, c);
            emit(out, c);
            emit(out, double(Organic::O));
            emit(out, Step::Pop(1));
            emit(out, bare(Organic::N));
            emit(out, Step::Pop(4));
            proof {
                assert(out@ =~= start + fixed_body(aa));
            }
        },
        AminoAcid::Asp => {
            emit(out, ch2);
            emit(out, c);
            emit(out, c);
            emit(out, double(Organic::O));
            emit(out, Step::Pop(1));
            emit(out, bare(Organic::O));
            emit(out, Step::Pop(3));
            proof {
                assert(out@ =~= start + fixed_body(aa));
            }
        },
        AminoAcid::Glu => {
            emit(out, ch2);
            emit(out, c);
            emit(out, c);
            emit(out, c);
            emit(out, double(Organic::O));
            emit(out, Step::Pop(1));
            emit(out, bare(Organic::O));
            emit(out, Step::Pop(4));
            proof {
                assert(out@ =~= start + fixed_body(aa));
            }
        },
        _ => {},
    }
}

/// Appends the fixed steps of a basic residue.
#[verifier::rlimit(40)]
fn emit_basic(aa: AminoAcid, out: &mut Vec<Step>)
    requires
        aa == AminoAcid::Arg || aa == AminoAcid::Lys || aa == AminoAcid::His || aa == AminoAcid::Pyl,
        well_formed(old(out)@),
        depth(old(out)@) >= 1,
    ensures
        final(out)@ == old(out)@ + fixed_body(aa),
        well_formed(final(out)@),
        depth(final(out)@) >= depth(old(out)@),
{
    let ghost start = out@;
    let c = bare(Organic::C);
    let ch2 = chiral(Chirality::Th2);
    match aa {
        AminoAcid::Arg => {
            emit(out, ch2);
            emit(out, c);
            emit(out, c);
            emit(out, c);
            emit(out, bare(Organic::N));
            emit(out, c);
            emit(out, double(Organic::N));
            emit(out, Step::Pop(1));
            emit(out, bare(Organic::N));
            emit(out, Step::Pop(6));
            proof {
                assert(out@ =~= start + fixed_body(aa));
            }
        },
        AminoAcid::Lys => {
            emit(out, ch2);
            emit(out, c);
            emit(out, c);
            emit(out, c);
            emit(out, c);
            emit(out, bare(Organic::N));
            emit(out, Step::Pop(5));
            proof {
                assert(out@ =~= start + fixed_body(aa));
            }
        },
        AminoAcid::His => {
            emit(out, ch2);
            emit(out, c);
            emit(out, arom(Organic::C));
            emit(out, ring(RING_A));
            emit(out, arom(Organic::C));
            emit(out, arom(Organic::N));
            emit(out, arom(Organic::C));
            emit(out, bare(Organic::N));
            emit(out, ring(RING_A));
            emit(out, Step::Pop(6));
            proof {
                assert(out@ =~= start + fixed_body(aa));
            }
        },
        AminoAcid::Pyl => {
            emit(out, ch2);
            emit(out, c);
            emit(out, c);
            emit(out, c);
            emit(out, c);
            emit(out, bare(Organic::N));
            emit(out, c);
            emit(out, double(Organic::O));
            emit(out, Step::Pop(1));
            emit(out, chiral(Chirality::Th1));
            emit(out, ring(RING_A));
            emit(out, chiral(Chirality::Th1));
            emit(out, c);
            emit(out, Step::Pop(1));
            emit(out, c);
            emit(out, c);
            emit(out, double(Organic::N));
            emit(out, ring(RING_A));
            emit(out, Step::Pop(11));
            proof {
                assert(out@ =~= start + fixed_body(aa));
            }
        },
        _ => {},
    }
}

/// Appends the fixed steps of an aromatic residue.
#[verifier::rlimit(40)]
fn emit_aromatic(aa: AminoAcid, out: &mut Vec<Step>)
    requires
        aa == AminoAcid::Phe || aa == AminoAcid::Tyr || aa == AminoAcid::Trp,
        well_formed(old(out)@),
        depth(old(out)@) >= 1,
    ensures
        final(out)@ == old(out)@ + fixed_body(aa),
        well_formed(final(out)@),
        depth(final(out)@) >= depth(old(out)@),
{
    let ghost start = out@;
    let c = bare(Organic::C);
    let ch2 = chiral(Chirality::Th2);
    match aa {
        AminoAcid::Phe => {
            emit(out, ch2);
            emit(out, c);
            emit(out, arom(Organic::C));
            emit(out, ring(RING_A));
            emit(out, arom(Organic::C));
            emit(out, arom(Organic::C));
            emit(out, arom(Organic::C));
            emit(out, arom(Organic::C));
            emit(out, arom(Organic::C));
            emit(out, ring(RING_A));
            emit(out, Step::Pop(7));
            proof {
                assert(out@ =~= start + fixed_body(aa));
            }
        },
        AminoAcid::Tyr => {
            emit(out, ch2);
            emit(out, c);
            emit(out, arom(Organic::C));
            emit(out, ring(RING_A));
            emit(out, arom(Organic::C));
            emit(out, arom(Organic::C));
            emit(out, arom(Organic::C));
            emit(out, bare(Organic::O));
            emit(out, Step::Pop(1));
            emit(out, arom(Organic::C));
            emit(out, arom(Organic::C));
            emit(out, ring(RING_A));
            emit(out, Step::Pop(7));
            proof {
                assert(out@ =~= start + fixed_body(aa));
            }
        },
        AminoAcid::Trp => {
            emit(out, ch2);
            emit(out, c);
            emit(out, arom(Organic::C));
            emit(out, ring(RING_A));
            emit(out, arom(Organic::C));
            emit(out, arom(Organic::N));
            emit(out, arom(Organic::C));
            emit(out, ring(RING_B));
            emit(out, arom(Organic::C));
            emit(out, ring(RING_A));
            emit(out, arom(Organic::C));
            emit(out, arom(Organic::C));
            emit(out, arom(Organic::C));
            emit(out, arom(Organic::C));
            emit(out, ring(RING_B));
            emit(out, Step::Pop(10));
            proof {
                assert(out@ =~= start + fixed_body(aa));
            }
        },
        _ => {},
    }
}

/// Appends the fixed steps of a dehydro-residue.
#[verifier::rlimit(40)]
fn emit_dehydro(aa: AminoAcid, out: &mut Vec<Step>)
    requires
        aa == AminoAcid::Dha || aa == AminoAcid::Dhb,
        well_formed(old(out)@),
        depth(old(out)@) >= 1,
    ensures
        final(out)@ == old(out)@ + fixed_body(aa),
        well_formed(final(out)@),
        depth(final(out)@) >= depth(old(out)@),
{
    let ghost start = out@;
    let c = bare(Organic::C);
    match aa {
        AminoAcid::Dha => {
            emit(out, c);
            emit(out, double(Organic::C));
            emit(out, Step::Pop(1));
            proof {
                assert(out@ =~= start + fixed_body(aa));
            }
        },
        AminoAcid::Dhb => {
            emit(out, Step::Extend(Bond::Up, Atom::Aliphatic(Organic::C)));
            emit(out, double(Organic::C));
            emit(out, Step::Extend(Bond::Down, Atom::Aliphatic(Organic::C)));
            emit(out, Step::Pop(2));
            proof {
                assert(out@ =~= start + fixed_body(aa));
            }
        },
        _ => {},
    }
}

/// Appends the steps of a residue that takes part in no cross-link, from
/// its α carbon back to it.
fn emit_fixed(aa: AminoAcid, out: &mut Vec<Step>)
    requires
        !links_allowed(aa),
        well_formed(old(out)@),
        depth(old(out)@) >= 1,
    ensures
        final(out)@ == old(out)@ + fixed_body(aa),
        well_formed(final(out)@),
        depth(final(out)@) >= depth(old(out)@),
{
    match aa {
        AminoAcid::Gly | AminoAcid::Ala | AminoAcid::Val | AminoAcid::Leu | AminoAcid::Ile | AminoAcid::Met | AminoAcid::Pro => emit_aliphatic(aa, out),
        AminoAcid::Ser | AminoAcid::Sec | AminoAcid::Asn | AminoAcid::Gln | AminoAcid::Asp | AminoAcid::Glu => emit_polar(aa, out),
        AminoAcid::Arg | AminoAcid::Lys | AminoAcid::His | AminoAcid::Pyl => emit_basic(aa, out),
        AminoAcid::Phe | AminoAcid::Tyr | AminoAcid::Trp => emit_aromatic(aa, out),
        AminoAcid::Dha | AminoAcid::Dhb => emit_dehydro(aa, out),
        AminoAcid::Cys | AminoAcid::Thr => {},
    }
}

/// Appends the steps of a cysteine with its cross-link.
fn emit_cys(link: Option<(u16, CrossLink)>, out: &mut Vec<Step>)
    requires
        well_formed(old(out)@),
        depth(old(out)@) >= 1,
        link matches Some((m, _)) ==> m <= MAX_RNUM,
    ensures
        final(out)@ == old(out)@ + cys_body(link),
        well_formed(final(out)@),
        depth(final(out)@) >= depth(old(out)@),
{
    let ghost start = out@;
    emit(out, chiral(Chirality::Th2));
    emit(out, bare(Organic::C));
    emit(out, bare(Organic::S));
    if let Some((m, _)) = link {
        emit(out, ring(m));
    }
    emit(out, Step::Pop(2));
    assert(out@ =~= start + cys_body(link));
}

/// Appends the steps of a threonine, closing digit `m` in place of its
/// hydroxyl when one is given.
fn emit_thr(digit: Option<u16>, out: &mut Vec<Step>)
    requires
        well_formed(old(out)@),
        depth(old(out)@) >= 1,
        digit matches Some(m) ==> m <= MAX_RNUM,
    ensures
        final(out)@ == old(out)@ + match digit {
            None => thr_body(),
            Some(m) => thr_linked_body(m),
        },
        well_formed(final(out)@),
        depth(final(out)@) >= depth(old(out)@),
{
    let ghost start = out@;
    let c = bare(Organic::C);
    let ch2 = chiral(Chirality::Th2);
    emit(out, ch2);
    emit(out, ch2);
    match digit {
        Some(m) => {
            emit(out, ring(m));
            emit(out, c);
            emit(out, Step::Pop(2));
        },
        None => {
            emit(out, c);
            emit(out, Step::Pop(1));
            emit(out, bare(Organic::O));
            emit(out, Step::Pop(2));
        },
    }
    assert(out@ =~= start + match digit {
        None => thr_body(),
        Some(m) => thr_linked_body(m),
    });
}

/// Appends the steps of residue `aa` at 1-based position `index` to the
/// walk, given the cross-link registered there with its digit. On an error
/// the walk is left as it was.
pub fn visit_residue(
    aa: AminoAcid,
    index: u16,
    link: Option<(u16, CrossLink)>,
    out: &mut Vec<Step>,
) -> (r: Result<(), Error>)
    requires
        well_formed(old(out)@),
        depth(old(out)@) >= 1,
        link matches Some((m, _)) ==> m <= MAX_RNUM,
    ensures
        match recipe(aa, index, link) {
            Ok(s) => {
                &&& r is Ok
                &&& final(out)@ == old(out)@ + s
                &&& well_formed(final(out)@)
                &&& depth(final(out)@) > depth(old(out)@)
            },
            Err(e) => r == Err::<(), Error>(e) && final(out)@ == old(out)@,
        },
{
    reveal(recipe);
    let ghost start = out@;
    match link {
        None => {
            if aa == AminoAcid::Cys {
                emit_cys(link, out);
            } else if aa == AminoAcid::Thr {
                emit_thr(None, out);
            } else {
                emit_fixed(aa, out);
            }
        },
        Some((m, l)) => {
            let (first, second) = l.positions();
            let is_cystine = matches!(l, CrossLink::Cystine(_, _));
            if aa == AminoAcid::Cys && (is_cystine || first == index) {
                emit_cys(link, out);
            } else if aa == AminoAcid::Thr && !is_cystine && second == index {
                emit_thr(Some(m), out);
            } else {
                return Err(Error::InvalidCrossLink(index, aa, l));
            }
        },
    }
    // the carbonyl carbon, which the backbone continues from
    emit(out, bare(Organic::C));
    assert(out@ =~= start + recipe(aa, index, link)->Ok_0);
    Ok(())
}

} // verus!
