//! The SMILES text of a walk, as a writer builds it: a stack of pieces, one
//! per atom of the current path, that a retreat folds into a branch.

use vstd::prelude::*;

use crate::walk::{Atom, Bond, Chirality, Organic, Step};

verus! {

/// The symbol of a bond; an elided bond is written as nothing.
pub open spec fn bond_text(b: Bond) -> Seq<char> {
    match b {
        Bond::Elided => seq![],
        Bond::Single => seq!['-'],
        Bond::Double => seq!['='],
        Bond::Up => seq!['/'],
        Bond::Down => seq!['\\'],
    }
}

/// The symbol of an aliphatic organic-subset atom.
pub open spec fn aliphatic_text(o: Organic) -> Seq<char> {
    match o {
        Organic::C => seq!['C'],
        Organic::N => seq!['N'],
        Organic::O => seq!['O'],
        Organic::S => seq!['S'],
    }
}

/// The symbol of an aromatic organic-subset atom.
pub open spec fn aromatic_text(o: Organic) -> Seq<char> {
    match o {
        Organic::C => seq!['c'],
        Organic::N => seq!['n'],
        Organic::O => seq!['o'],
        Organic::S => seq!['s'],
    }
}

/// The bracket atom of a carbon with one hydrogen and a configuration.
pub open spec fn chiral_carbon_text(c: Chirality) -> Seq<char> {
    match c {
        Chirality::Th1 => seq!['[', 'C', '@', 'H', ']'],
        Chirality::Th2 => seq!['[', 'C', '@', '@', 'H', ']'],
    }
}

/// The bracket atom of a bare selenium.
pub open spec fn selenium_text() -> Seq<char> {
    seq!['[', 'S', 'e', ']']
}

/// The text of an atom.
pub open spec fn atom_text(a: Atom) -> Seq<char> {
    match a {
        Atom::Aliphatic(o) => aliphatic_text(o),
        Atom::Aromatic(o) => aromatic_text(o),
        Atom::ChiralCarbon(c) => chiral_carbon_text(c),
        Atom::Selenium => selenium_text(),
    }
}

/// The decimal digit for `d` from 0 to 9.
pub open spec fn decimal(d: int) -> char {
    if d == 0 {
        '0'
    } else if d == 1 {
        '1'
    } else if d == 2 {
        '2'
    } else if d == 3 {
        '3'
    } else if d == 4 {
        '4'
    } else if d == 5 {
        '5'
    } else if d == 6 {
        '6'
    } else if d == 7 {
        '7'
    } else if d == 8 {
        '8'
    } else {
        '9'
    }
}

/// The text of ring-closure digit `n`, from 0 to 99: one decimal digit
/// below 10, else `%` and two digits. The purr writer turns 73 into the
/// digit 74, so 73 is written `%74`.
pub open spec fn digit_text(n: u16) -> Seq<char> {
    if n < 10 {
        seq![decimal(n as int)]
    } else if n == 73 {
        seq!['%', '7', '4']
    } else {
        seq!['%', decimal(n as int / 10), decimal(n as int % 10)]
    }
}

/// The pieces after one more step. A root starts a new component, set off
/// by `.` unless it is the first; a bond adds a piece; a ring-closure digit
/// is added to the last piece; a retreat by `n` folds the last `n` pieces,
/// in parentheses, into the piece before them.
pub open spec fn step_path(p: Seq<Seq<char>>, s: Step) -> Seq<Seq<char>> {
    match s {
        Step::Root(a) => if p.len() == 0 {
            p.push(atom_text(a))
        } else {
            p.push(seq!['.'] + atom_text(a))
        },
        Step::Extend(b, a) => p.push(bond_text(b) + atom_text(a)),
        Step::Join(b, m) => p.update(p.len() - 1, p.last() + bond_text(b) + digit_text(m)),
        Step::Pop(n) => {
            let k = p.len() - n;
            p.take(k - 1).push(p[k - 1] + seq!['('] + p.skip(k).flatten() + seq![')'])
        },
    }
}

/// The pieces after all the steps, from an empty writer.
pub open spec fn path_after(steps: Seq<Step>) -> Seq<Seq<char>>
    decreases steps.len(),
{
    if steps.len() == 0 {
        seq![]
    } else {
        step_path(path_after(steps.drop_last()), steps.last())
    }
}

/// The SMILES text of a walk: its pieces, joined.
pub open spec fn smiles_text(steps: Seq<Step>) -> Seq<char> {
    path_after(steps).flatten()
}

} // verus!
