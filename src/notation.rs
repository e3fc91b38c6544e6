//! The SMILES writer of the purr crate, and the values it takes, as this
//! library relies on them.

use vstd::prelude::*;

use purr::feature::{
    Aliphatic, Aromatic, AtomKind, BondKind, BracketSymbol, Configuration, Element, Rnum,
    VirtualHydrogen,
};
use purr::walk::Follower;
use purr::write::Writer;

use crate::text::{
    aliphatic_text, aromatic_text, bond_text, chiral_carbon_text, digit_text, selenium_text,
};
use crate::walk::{Bond, Chirality, Organic};

verus! {

#[verifier::external_type_specification]
#[verifier::external_body]
pub struct ExRnum(Rnum);

#[verifier::external_type_specification]
#[verifier::external_body]
pub struct ExAtomKind(AtomKind);

#[verifier::external_type_specification]
#[verifier::external_body]
pub struct ExBondKind(BondKind);

#[verifier::external_type_specification]
#[verifier::external_body]
pub struct ExWriter(Writer);

/// The pieces of text that a writer holds along its current path, one per
/// atom of the path.
pub uninterp spec fn path_of(w: Writer) -> Seq<Seq<char>>;

/// The text that purr's `Display` gives an atom kind.
pub uninterp spec fn atom_kind_text(k: AtomKind) -> Seq<char>;

/// The text that purr's `Display` gives a bond kind.
pub uninterp spec fn bond_kind_text(k: BondKind) -> Seq<char>;

/// The text that purr's `Display` gives a ring-closure digit.
pub uninterp spec fn rnum_text(r: Rnum) -> Seq<char>;

/// Relies on purr's `TryFrom<u16>` for `Rnum`: a ring-closure digit exists
/// for 0 to 99 and for nothing above; its text is the number, with `%`
/// before two digits, except that 73 gives the digit 74.
#[verifier::external_body]
pub(crate) fn ring_digit(n: u16) -> (r: Option<Rnum>)
    ensures
        r is Some <==> n <= 99,
        r matches Some(d) ==> rnum_text(d) == digit_text(n),
{
    Rnum::try_from(n).ok()
}

/// Relies on purr's `Writer::new`: a writer with an empty path.
#[verifier::external_body]
pub(crate) fn writer_new() -> (r: Writer)
    ensures
        path_of(r) == Seq::<Seq<char>>::empty(),
{
    Writer::new()
}

/// Relies on purr's `Follower::root` for `Writer`: it pushes the atom's
/// text, after `.` unless the path is empty.
#[verifier::external_body]
pub(crate) fn writer_root(w: &mut Writer, atom: AtomKind)
    ensures
        path_of(*final(w)) == path_of(*old(w)).push(
            if path_of(*old(w)).len() == 0 {
                atom_kind_text(atom)
            } else {
                seq!['.'] + atom_kind_text(atom)
            },
        ),
{
    w.root(atom)
}

/// Relies on purr's `Follower::extend` for `Writer`: it pushes the bond's
/// text followed by the atom's.
#[verifier::external_body]
pub(crate) fn writer_extend(w: &mut Writer, bond: BondKind, atom: AtomKind)
    ensures
        path_of(*final(w)) == path_of(*old(w)).push(bond_kind_text(bond) + atom_kind_text(atom)),
{
    w.extend(bond, atom)
}

/// Relies on purr's `Follower::join` for `Writer`: it adds the bond's and
/// the digit's text to the last piece, and panics on an empty path.
#[verifier::external_body]
pub(crate) fn writer_join(w: &mut Writer, bond: BondKind, rnum: Rnum)
    requires
        path_of(*old(w)).len() >= 1,
    ensures
        path_of(*final(w)) == path_of(*old(w)).update(
            path_of(*old(w)).len() - 1,
            path_of(*old(w)).last() + bond_kind_text(bond) + rnum_text(rnum),
        ),
{
    w.join(bond, rnum)
}

/// Relies on purr's `Follower::pop` for `Writer`: it folds the last `depth`
/// pieces, joined and in parentheses, into the piece before them, and
/// panics unless one is left.
#[verifier::external_body]
pub(crate) fn writer_pop(w: &mut Writer, depth: usize)
    requires
        depth < path_of(*old(w)).len(),
    ensures
        ({
            let p = path_of(*old(w));
            let k = p.len() - depth;
            path_of(*final(w)) == p.take(k - 1).push(
                p[k - 1] + seq!['('] + p.skip(k).flatten() + seq![')'],
            )
        }),
{
    w.pop(depth)
}

/// Relies on purr's `Writer::write`: the pieces of the path, joined.
#[verifier::external_body]
pub(crate) fn writer_write(w: Writer) -> (r: String)
    ensures
        r@ == path_of(w).flatten(),
{
    w.write()
}

/// Relies on purr's `BondKind`: its text is the bond's symbol.
#[verifier::external_body]
pub(crate) fn bond_kind(b: Bond) -> (r: BondKind)
    ensures
        bond_kind_text(r) == bond_text(b),
{
    match b {
        Bond::Elided => BondKind::Elided,
        Bond::Single => BondKind::Single,
        Bond::Double => BondKind::Double,
        Bond::Up => BondKind::Up,
        Bond::Down => BondKind::Down,
    }
}

/// Relies on purr's `Aliphatic` atom kind: its text is the element symbol.
#[verifier::external_body]
pub(crate) fn aliphatic_kind(o: Organic) -> (r: AtomKind)
    ensures
        atom_kind_text(r) == aliphatic_text(o),
{
    AtomKind::Aliphatic(
        match o {
            Organic::C => Aliphatic::C,
            Organic::N => Aliphatic::N,
            Organic::O => Aliphatic::O,
            Organic::S => Aliphatic::S,
        },
    )
}

/// Relies on purr's `Aromatic` atom kind: its text is the lower-case
/// element symbol.
#[verifier::external_body]
pub(crate) fn aromatic_kind(o: Organic) -> (r: AtomKind)
    ensures
        atom_kind_text(r) == aromatic_text(o),
{
    AtomKind::Aromatic(
        match o {
            Organic::C => Aromatic::C,
            Organic::N => Aromatic::N,
            Organic::O => Aromatic::O,
            Organic::S => Aromatic::S,
        },
    )
}

/// Relies on purr's bracket atom kind: a carbon with its configuration
/// and one hydrogen is written `[C@H]` or `[C@@H]`.
#[verifier::external_body]
pub(crate) fn chiral_carbon_kind(c: Chirality) -> (r: AtomKind)
    ensures
        atom_kind_text(r) == chiral_carbon_text(c),
{
    let configuration = match c {
        Chirality::Th1 => Configuration::TH1,
        Chirality::Th2 => Configuration::TH2,
    };
    AtomKind::Bracket {
        symbol: BracketSymbol::Element(Element::C),
        configuration: Some(configuration),
        hcount: Some(VirtualHydrogen::H1),
        isotope: None,
        charge: None,
        map: None,
    }
}

/// Relies on purr's bracket atom kind: a bare selenium is written `[Se]`.
#[verifier::external_body]
pub(crate) fn selenium_kind() -> (r: AtomKind)
    ensures
        atom_kind_text(r) == selenium_text(),
{
    AtomKind::Bracket {
        symbol: BracketSymbol::Element(Element::Se),
        configuration: None,
        hcount: None,
        isotope: None,
        charge: None,
        map: None,
    }
}

} // verus!
