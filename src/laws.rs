//! Properties that relate registration, traversal and the residue codes.

use vstd::prelude::*;

use crate::catalog::{
    bare, chiral, cys_body, double, fixed_body, recipe, ring, thr_body, thr_linked_body,
};
use crate::error::Error;
use crate::protein::{
    head, lemma_units_error_persists, link_at, register, tail, unit, units, walk, CrossLink,
    Cyclization, FIRST_LINK_DIGIT, RING_CYCLE,
};
use crate::residue::AminoAcid;
use crate::walk::{Atom, Bond, Chirality, Organic, Step};

verus! {

/// An empty sequence walks to nothing, whatever the registry and the
/// cyclization.
pub proof fn lemma_empty_sequence(links: Map<u16, (u16, CrossLink)>, cyclization: Cyclization)
    ensures
        walk(Seq::empty(), links, cyclization) == Ok::<Seq<Step>, Error>(Seq::empty()),
{
}

/// Every residue has a recipe when no cross-link is registered on it.
pub proof fn lemma_unlinked_recipe(aa: AminoAcid, index: u16)
    ensures
        recipe(aa, index, None) is Ok,
{
    reveal(recipe);
}

/// A residue named by a one-letter code has a recipe when no cross-link is
/// registered on it.
pub proof fn lemma_code1_residue_emits(code: char, index: u16)
    ensures
        forall|aa: AminoAcid| #[trigger] aa.code1() == Some(code) ==> recipe(aa, index, None) is Ok,
{
    reveal(recipe);
}

/// The first `n` residues walk without error when none of their positions
/// is registered.
pub proof fn lemma_units_unlinked(seq: Seq<AminoAcid>, links: Map<u16, (u16, CrossLink)>, n: nat)
    requires
        n <= seq.len() <= u16::MAX,
        forall|k: int| 0 <= k < n ==> !#[trigger] links.contains_key((k + 1) as u16),
    ensures
        units(seq, links, n) is Ok,
    decreases n,
{
    if n > 0 {
        lemma_units_unlinked(seq, links, (n - 1) as nat);
        let k = n - 1;
        assert(!links.contains_key((k + 1) as u16));
        lemma_unlinked_recipe(seq[k], (k + 1) as u16);
    }
}

/// A sequence with no registered cross-link always walks without error.
pub proof fn lemma_unlinked_walk(seq: Seq<AminoAcid>, cyclization: Cyclization)
    requires
        seq.len() <= u16::MAX,
    ensures
        walk(seq, Map::empty(), cyclization) is Ok,
{
    lemma_units_unlinked(seq, Map::empty(), seq.len());
}

/// A cystine registered between two residues that are not cysteines makes
/// the walk fail on the lower of the two positions.
pub proof fn lemma_cystine_needs_cysteines(
    seq: Seq<AminoAcid>,
    i: u16,
    j: u16,
    cyclization: Cyclization,
)
    requires
        seq.len() <= u16::MAX,
        1 <= i <= seq.len(),
        1 <= j <= seq.len(),
        i != j,
        seq[i - 1] != AminoAcid::Cys,
        seq[j - 1] != AminoAcid::Cys,
    ensures
        ({
            let l = CrossLink::Cystine(i, j);
            let (links, _, r) = register(Map::empty(), FIRST_LINK_DIGIT, l);
            let lo = if i < j {
                i
            } else {
                j
            };
            &&& r is Ok
            &&& walk(seq, links, cyclization) == Err::<Seq<Step>, Error>(
                Error::InvalidCrossLink(lo, seq[lo - 1], l),
            )
        }),
{
    let l = CrossLink::Cystine(i, j);
    let links = register(Map::empty(), FIRST_LINK_DIGIT, l).0;
    let lo: u16 = if i < j {
        i
    } else {
        j
    };
    assert(links.contains_key(i) && links.contains_key(j));
    assert forall|k: int| 0 <= k < lo - 1 implies !#[trigger] links.contains_key((k + 1) as u16) by {}
    lemma_units_unlinked(seq, links, (lo - 1) as nat);
    assert(link_at(links, lo) == Some((FIRST_LINK_DIGIT, l)));
    reveal(recipe);
    assert(units(seq, links, lo as nat) == Err::<Seq<Step>, Error>(
        Error::InvalidCrossLink(lo, seq[lo - 1], l),
    ));
    lemma_units_error_persists(seq, links, lo as nat, seq.len());
}

/// Whether position `p` is one of the two of the cross-link.
pub open spec fn involves(l: CrossLink, p: u16) -> bool {
    l.first() == p || l.second() == p
}

/// After a first cross-link is registered on a fresh registry, a second one
/// that shares its position `k` fails with `DuplicateCrossLink(k)`, spends
/// no digit, and leaves both positions of the first as they were; a first
/// position of the second that was free stays mapped to it.
pub proof fn lemma_duplicate_position(l1: CrossLink, l2: CrossLink, k: u16)
    requires
        l1.first() != l1.second(),
        involves(l1, k),
        involves(l2, k),
        l2.first() == k || !involves(l1, l2.first()),
    ensures
        ({
            let (links1, num1, r1) = register(Map::empty(), FIRST_LINK_DIGIT, l1);
            let (links2, num2, r2) = register(links1, num1, l2);
            &&& r1 is Ok
            &&& r2 == Err::<(), Error>(Error::DuplicateCrossLink(k))
            &&& num2 == num1
            &&& links2[l1.first()] == (FIRST_LINK_DIGIT, l1)
            &&& links2[l1.second()] == (FIRST_LINK_DIGIT, l1)
            &&& l2.first() != k ==> links2.contains_key(l2.first()) && links2[l2.first()] == (
                num1,
                l2,
            )
        }),
{
}

/// Whether a step opens or closes ring-closure digit `m`.
pub open spec fn uses_digit(s: Step, m: u16) -> bool {
    s matches Step::Join(_, d) && d == m
}

/// How many steps of the walk, from index `i` on, satisfy `f`.
pub open spec fn count_from(s: Seq<Step>, f: spec_fn(Step) -> bool, i: int) -> nat
    decreases s.len() - i,
{
    if i < 0 || i >= s.len() {
        0
    } else {
        (if f(s[i]) {
            1nat
        } else {
            0nat
        }) + count_from(s, f, i + 1)
    }
}

/// How many steps of the walk satisfy `f`.
pub open spec fn count_steps(s: Seq<Step>, f: spec_fn(Step) -> bool) -> nat {
    count_from(s, f, 0)
}

/// How many times the walk opens or closes ring-closure digit `m`.
pub open spec fn digit_uses(s: Seq<Step>, m: u16) -> nat {
    count_steps(s, |x: Step| uses_digit(x, m))
}

/// Whether a step bonds the hydroxyl oxygen of a free acid.
pub open spec fn is_hydroxyl(s: Step) -> bool {
    s == Step::Extend(Bond::Single, Atom::Aliphatic(Organic::O))
}

/// How many free hydroxyl oxygens the walk bonds.
pub open spec fn hydroxyls(s: Seq<Step>) -> nat {
    count_steps(s, |x: Step| is_hydroxyl(x))
}

proof fn lemma_count_from_concat(a: Seq<Step>, b: Seq<Step>, f: spec_fn(Step) -> bool, i: int)
    requires
        0 <= i <= a.len() + b.len(),
    ensures
        count_from(a + b, f, i) == if i <= a.len() {
            count_from(a, f, i) + count_from(b, f, 0)
        } else {
            count_from(b, f, i - a.len())
        },
    decreases a.len() + b.len() - i,
{
    if i < a.len() + b.len() {
        lemma_count_from_concat(a, b, f, i + 1);
    }
    if i == a.len() {
        assert(count_from(a, f, i) == 0);
    }
}

/// The counts of steps in two walks put end to end add up.
pub proof fn lemma_count_concat(a: Seq<Step>, b: Seq<Step>, f: spec_fn(Step) -> bool)
    ensures
        count_steps(a + b, f) == count_steps(a, f) + count_steps(b, f),
{
    lemma_count_from_concat(a, b, f, 0);
}

/// The uses of a digit in two walks put end to end add up.
pub proof fn lemma_digit_uses_concat(a: Seq<Step>, b: Seq<Step>, m: u16)
    ensures
        digit_uses(a + b, m) == digit_uses(a, m) + digit_uses(b, m),
{
    lemma_count_concat(a, b, |x: Step| uses_digit(x, m));
}

/// The free hydroxyl oxygens of two walks put end to end add up.
pub proof fn lemma_hydroxyls_concat(a: Seq<Step>, b: Seq<Step>)
    ensures
        hydroxyls(a + b) == hydroxyls(a) + hydroxyls(b),
{
    lemma_count_concat(a, b, |x: Step| is_hydroxyl(x));
}

/// The steps of a residue without cross-link use no digit given to
/// cross-links.
proof fn lemma_fixed_body_uses(aa: AminoAcid, m: u16)
    requires
        m >= FIRST_LINK_DIGIT,
    ensures
        digit_uses(fixed_body(aa), m) == 0,
{
    reveal_with_fuel(count_from, 20);
}

/// A residue that walks uses a digit given to cross-links once when its
/// cross-link holds that digit, and otherwise not at all.
pub proof fn lemma_recipe_uses(aa: AminoAcid, index: u16, link: Option<(u16, CrossLink)>, m: u16)
    requires
        m >= FIRST_LINK_DIGIT,
        recipe(aa, index, link) is Ok,
    ensures
        digit_uses(recipe(aa, index, link)->Ok_0, m) == if link matches Some((d, _)) && d == m {
            1nat
        } else {
            0nat
        },
{
    reveal(recipe);
    reveal_with_fuel(count_from, 8);
    let tail = seq![bare(Organic::C)];
    let h = seq![chiral(Chirality::Th2), bare(Organic::C)];
    if aa == AminoAcid::Cys {
        lemma_digit_uses_concat(cys_body(link), tail, m);
        match link {
            None => lemma_digit_uses_concat(h, seq![bare(Organic::S), Step::Pop(2)], m),
            Some((d, _)) => lemma_digit_uses_concat(h, seq![bare(Organic::S), ring(d), Step::Pop(2)], m),
        }
    } else if aa == AminoAcid::Thr {
        match link {
            None => lemma_digit_uses_concat(thr_body(), tail, m),
            Some((d, _)) => lemma_digit_uses_concat(thr_linked_body(d), tail, m),
        }
    } else {
        lemma_fixed_body_uses(aa, m);
        lemma_digit_uses_concat(fixed_body(aa), tail, m);
    }
}

/// How many of the positions 1 to `n` hold a cross-link with digit `m`.
pub open spec fn linked_positions(links: Map<u16, (u16, CrossLink)>, m: u16, n: nat) -> nat
    decreases n,
{
    if n == 0 {
        0
    } else {
        linked_positions(links, m, (n - 1) as nat) + if link_at(links, n as u16) matches Some(
            (d, _),
        ) && d == m {
            1nat
        } else {
            0nat
        }
    }
}

/// The first `n` residues use a digit given to cross-links once for each of
/// their positions that holds it.
proof fn lemma_units_uses(seq: Seq<AminoAcid>, links: Map<u16, (u16, CrossLink)>, n: nat, m: u16)
    requires
        m >= FIRST_LINK_DIGIT,
        n <= seq.len() <= u16::MAX,
        units(seq, links, n) is Ok,
    ensures
        digit_uses(units(seq, links, n)->Ok_0, m) == linked_positions(links, m, n),
    decreases n,
{
    if n > 0 {
        let k = n - 1;
        let p = (k + 1) as u16;
        lemma_units_uses(seq, links, k as nat, m);
        let r = recipe(seq[k], p, link_at(links, p))->Ok_0;
        lemma_recipe_uses(seq[k], p, link_at(links, p), m);
        let pre: Seq<Step> = if k == 0 {
            seq![]
        } else {
            seq![bare(Organic::N)]
        };
        let post = seq![double(Organic::O), Step::Pop(1)];
        reveal_with_fuel(count_from, 3);
        lemma_digit_uses_concat(pre, r, m);
        lemma_digit_uses_concat(pre + r, post, m);
        lemma_digit_uses_concat(units(seq, links, k as nat)->Ok_0, unit(seq, links, k)->Ok_0, m);
    }
}

/// Counts the positions 1 to `n` that hold digit `m` when exactly two
/// positions do.
proof fn lemma_two_positions(links: Map<u16, (u16, CrossLink)>, m: u16, n: nat, a: u16, b: u16)
    requires
        n <= u16::MAX,
        a != b,
        forall|p: u16|
            (#[trigger] link_at(links, p) matches Some((d, _)) && d == m) <==> (p == a || p == b),
    ensures
        linked_positions(links, m, n) == (if 1 <= a <= n {
            1nat
        } else {
            0nat
        }) + (if 1 <= b <= n {
            1nat
        } else {
            0nat
        }),
    decreases n,
{
    if n > 0 {
        lemma_two_positions(links, m, (n - 1) as nat, a, b);
        let _ = link_at(links, n as u16);
    }
}

/// No position counts when none holds digit `m`.
proof fn lemma_no_positions(links: Map<u16, (u16, CrossLink)>, m: u16, n: nat)
    requires
        n <= u16::MAX,
        forall|p: u16| !(#[trigger] link_at(links, p) matches Some((d, _)) && d == m),
    ensures
        linked_positions(links, m, n) == 0,
    decreases n,
{
    if n > 0 {
        lemma_no_positions(links, m, (n - 1) as nat);
        let _ = link_at(links, n as u16);
    }
}

/// The registry, the digit counter and the outcome after registering the
/// cross-links in turn on a fresh registry, stopping at the first that fails.
pub open spec fn register_all(ls: Seq<CrossLink>) -> (Map<u16, (u16, CrossLink)>, u16, Result<(), Error>)
    decreases ls.len(),
{
    if ls.len() == 0 {
        (Map::empty(), FIRST_LINK_DIGIT, Ok(()))
    } else {
        let (links, num, r) = register_all(ls.drop_last());
        if r is Err {
            (links, num, r)
        } else {
            register(links, num, ls.last())
        }
    }
}

/// When every registration succeeds, the cross-link registered `t`-th holds
/// digit `FIRST_LINK_DIGIT + t` at both of its positions, which differ, and
/// every registered position belongs to the cross-link its digit names.
proof fn lemma_register_all(ls: Seq<CrossLink>)
    requires
        register_all(ls).2 is Ok,
    ensures
        ({
            let (links, num, _) = register_all(ls);
            &&& num == FIRST_LINK_DIGIT + ls.len()
            &&& forall|t: int|
                0 <= t < ls.len() ==> {
                    &&& (#[trigger] ls[t]).first() != ls[t].second()
                    &&& links.contains_key(ls[t].first())
                    &&& links.contains_key(ls[t].second())
                    &&& links[ls[t].first()] == ((FIRST_LINK_DIGIT + t) as u16, ls[t])
                    &&& links[ls[t].second()] == ((FIRST_LINK_DIGIT + t) as u16, ls[t])
                }
            &&& forall|p: u16| #[trigger]
                links.contains_key(p) ==> {
                    let (d, l) = links[p];
                    &&& FIRST_LINK_DIGIT <= d < num
                    &&& l == ls[d - FIRST_LINK_DIGIT]
                    &&& involves(l, p)
                }
        }),
    decreases ls.len(),
{
    if ls.len() > 0 {
        let prev = ls.drop_last();
        lemma_register_all(prev);
        let (links, num, _) = register_all(prev);
        assert forall|t: int| 0 <= t < ls.len() - 1 implies #[trigger] ls[t] == prev[t] by {}
    }
}

/// Cross-links registered in turn on a fresh registry, all with success,
/// get the digits counting up from `FIRST_LINK_DIGIT`, one each; and when
/// all their positions lie in the sequence, a walk that succeeds uses each
/// of these digits exactly twice and no digit above them.
pub proof fn lemma_link_digits(seq: Seq<AminoAcid>, ls: Seq<CrossLink>, cyclization: Cyclization)
    requires
        seq.len() <= u16::MAX,
        register_all(ls).2 is Ok,
        forall|t: int|
            0 <= t < ls.len() ==> 1 <= (#[trigger] ls[t]).first() <= seq.len() && 1 <= ls[t].second()
                <= seq.len(),
        walk(seq, register_all(ls).0, cyclization) is Ok,
    ensures
        ({
            let (links, num, _) = register_all(ls);
            &&& num == FIRST_LINK_DIGIT + ls.len()
            &&& forall|t: int|
                0 <= t < ls.len() ==> links[(#[trigger] ls[t]).first()] == (
                    (FIRST_LINK_DIGIT + t) as u16,
                    ls[t],
                ) && links[ls[t].second()] == ((FIRST_LINK_DIGIT + t) as u16, ls[t])
            &&& forall|m: u16|
                FIRST_LINK_DIGIT <= m < num ==> #[trigger] digit_uses(
                    walk(seq, links, cyclization)->Ok_0,
                    m,
                ) == 2
            &&& forall|m: u16|
                m >= num ==> #[trigger] digit_uses(walk(seq, links, cyclization)->Ok_0, m) == 0
        }),
{
    lemma_register_all(ls);
    let (links, num, _) = register_all(ls);
    assert forall|m: u16| FIRST_LINK_DIGIT <= m < num implies #[trigger] digit_uses(
        walk(seq, links, cyclization)->Ok_0,
        m,
    ) == 2 by {
        let t = m - FIRST_LINK_DIGIT;
        let l = ls[t];
        assert forall|p: u16|
            (#[trigger] link_at(links, p) matches Some((d, _)) && d == m) <==> (p == l.first()
                || p == l.second()) by {}
        lemma_two_positions(links, m, seq.len(), l.first(), l.second());
        lemma_units_uses(seq, links, seq.len(), m);
        let u = units(seq, links, seq.len())->Ok_0;
        reveal_with_fuel(count_from, 3);
        lemma_digit_uses_concat(head(cyclization), u, m);
        lemma_digit_uses_concat(head(cyclization) + u, tail(cyclization), m);
    }
    assert forall|m: u16| m >= num implies #[trigger] digit_uses(
        walk(seq, links, cyclization)->Ok_0,
        m,
    ) == 0 by {
        assert forall|p: u16| !(#[trigger] link_at(links, p) matches Some((d, _)) && d == m) by {}
        lemma_no_positions(links, m, seq.len());
        lemma_units_uses(seq, links, seq.len(), m);
        let u = units(seq, links, seq.len())->Ok_0;
        reveal_with_fuel(count_from, 3);
        lemma_digit_uses_concat(head(cyclization), u, m);
        lemma_digit_uses_concat(head(cyclization) + u, tail(cyclization), m);
    }
}

/// The steps of a residue without cross-link bond no free hydroxyl.
proof fn lemma_fixed_body_hydroxyls(aa: AminoAcid)
    ensures
        hydroxyls(fixed_body(aa)) == 0,
{
    reveal_with_fuel(count_from, 20);
}

/// No residue bonds a free hydroxyl: every bond of the catalog to an oxygen
/// is elided or double.
proof fn lemma_recipe_hydroxyls(aa: AminoAcid, index: u16, link: Option<(u16, CrossLink)>)
    requires
        recipe(aa, index, link) is Ok,
    ensures
        hydroxyls(recipe(aa, index, link)->Ok_0) == 0,
{
    reveal(recipe);
    reveal_with_fuel(count_from, 8);
    let tail = seq![bare(Organic::C)];
    let h = seq![chiral(Chirality::Th2), bare(Organic::C)];
    if aa == AminoAcid::Cys {
        lemma_hydroxyls_concat(cys_body(link), tail);
        match link {
            None => lemma_hydroxyls_concat(h, seq![bare(Organic::S), Step::Pop(2)]),
            Some((d, _)) => lemma_hydroxyls_concat(h, seq![bare(Organic::S), ring(d), Step::Pop(2)]),
        }
    } else if aa == AminoAcid::Thr {
        match link {
            None => lemma_hydroxyls_concat(thr_body(), tail),
            Some((d, _)) => lemma_hydroxyls_concat(thr_linked_body(d), tail),
        }
    } else {
        lemma_fixed_body_hydroxyls(aa);
        lemma_hydroxyls_concat(fixed_body(aa), tail);
    }
}

/// The residues of a walk bond no free hydroxyl.
proof fn lemma_units_hydroxyls(seq: Seq<AminoAcid>, links: Map<u16, (u16, CrossLink)>, n: nat)
    requires
        n <= seq.len() <= u16::MAX,
        units(seq, links, n) is Ok,
    ensures
        hydroxyls(units(seq, links, n)->Ok_0) == 0,
    decreases n,
{
    if n > 0 {
        let k = n - 1;
        let p = (k + 1) as u16;
        lemma_units_hydroxyls(seq, links, k as nat);
        let r = recipe(seq[k], p, link_at(links, p))->Ok_0;
        lemma_recipe_hydroxyls(seq[k], p, link_at(links, p));
        let pre: Seq<Step> = if k == 0 {
            seq![]
        } else {
            seq![bare(Organic::N)]
        };
        let post = seq![double(Organic::O), Step::Pop(1)];
        reveal_with_fuel(count_from, 3);
        lemma_hydroxyls_concat(pre, r);
        lemma_hydroxyls_concat(pre + r, post);
        lemma_hydroxyls_concat(units(seq, links, k as nat)->Ok_0, unit(seq, links, k)->Ok_0);
    }
}

/// A head-to-tail cyclized walk of a non-empty sequence bonds no free
/// hydroxyl oxygen and ends on the closing of the cycle; a linear one bonds
/// exactly one, as its last step.
pub proof fn lemma_terminus(
    seq: Seq<AminoAcid>,
    links: Map<u16, (u16, CrossLink)>,
    cyclization: Cyclization,
)
    requires
        seq.len() <= u16::MAX,
        seq.len() > 0,
        walk(seq, links, cyclization) is Ok,
    ensures
        ({
            let s = walk(seq, links, cyclization)->Ok_0;
            &&& cyclization == Cyclization::HeadToTail ==> hydroxyls(s) == 0 && s.last() == ring(
                RING_CYCLE,
            )
            &&& cyclization == Cyclization::Linear ==> hydroxyls(s) == 1 && is_hydroxyl(s.last())
        }),
{
    lemma_units_hydroxyls(seq, links, seq.len());
    let u = units(seq, links, seq.len())->Ok_0;
    reveal_with_fuel(count_from, 3);
    lemma_hydroxyls_concat(head(cyclization), u);
    lemma_hydroxyls_concat(head(cyclization) + u, tail(cyclization));
}

} // verus!
