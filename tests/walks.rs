use proteinogenic::{
    render, smiles, visit, AminoAcid, Atom, Bond, CrossLink, Cyclization, Error, Organic,
    Protein, Step,
};

fn joins_of(steps: &[Step], digit: u16) -> usize {
    steps.iter().filter(|s| matches!(s, Step::Join(_, d) if *d == digit)).count()
}

#[test]
fn empty() {
    let s = smiles(vec![]).unwrap();
    assert_eq!(s, "");
}

#[test]
fn empty_cyclized_walk_is_empty() {
    let mut prot = Protein::new(vec![]);
    prot.cyclization(Cyclization::HeadToTail);
    let steps = prot.visit().unwrap();
    assert!(steps.is_empty());
    assert_eq!(render(&steps), "");
}

#[test]
fn glycine() {
    assert_eq!(smiles(vec![AminoAcid::Gly]).unwrap(), "NCC(=O)-O");
    let steps = visit(vec![AminoAcid::Gly]).unwrap();
    assert_eq!(
        steps,
        vec![
            Step::Root(Atom::Aliphatic(Organic::N)),
            Step::Extend(Bond::Elided, Atom::Aliphatic(Organic::C)),
            Step::Extend(Bond::Elided, Atom::Aliphatic(Organic::C)),
            Step::Extend(Bond::Double, Atom::Aliphatic(Organic::O)),
            Step::Pop(1),
            Step::Extend(Bond::Single, Atom::Aliphatic(Organic::O)),
        ]
    );
}

#[test]
fn alanine() {
    assert_eq!(smiles(vec![AminoAcid::Ala]).unwrap(), "N[C@@H](C)C(=O)-O");
}

#[test]
fn proline() {
    assert_eq!(smiles(vec![AminoAcid::Pro]).unwrap(), "N1CCC[C@H]1C(=O)-O");
}

#[test]
fn selenocysteine() {
    assert_eq!(smiles(vec![AminoAcid::Sec]).unwrap(), "N[C@@H](C[Se])C(=O)-O");
}

#[test]
fn dipeptide() {
    assert_eq!(
        smiles(vec![AminoAcid::Gly, AminoAcid::Ala]).unwrap(),
        "NCC(=O)N[C@@H](C)C(=O)-O"
    );
}

#[test]
fn cystine_on_alanines() {
    let mut prot = Protein::new(vec![AminoAcid::Ala, AminoAcid::Ala]);
    prot.cross_link(CrossLink::Cystine(1, 2)).unwrap();
    assert_eq!(
        prot.visit(),
        Err(Error::InvalidCrossLink(1, AminoAcid::Ala, CrossLink::Cystine(1, 2)))
    );
}

#[test]
fn cystine_names_lower_position() {
    let mut prot = Protein::new(vec![AminoAcid::Gly, AminoAcid::Ser, AminoAcid::Thr]);
    prot.cross_link(CrossLink::Cystine(3, 2)).unwrap();
    assert_eq!(
        prot.visit(),
        Err(Error::InvalidCrossLink(2, AminoAcid::Ser, CrossLink::Cystine(3, 2)))
    );
}

#[test]
fn threonine_takes_lanthionine() {
    let mut prot = Protein::new(vec![AminoAcid::Cys, AminoAcid::Thr]);
    prot.cross_link(CrossLink::Lan(1, 2)).unwrap();
    let steps = prot.visit().unwrap();
    assert_eq!(render(&steps), "N[C@@H](CS3)C(=O)N[C@@H]([C@@H]3C)C(=O)-O");
}

#[test]
fn lanthionine_needs_cysteine_first() {
    let mut prot = Protein::new(vec![AminoAcid::Thr, AminoAcid::Cys]);
    prot.cross_link(CrossLink::Lan(1, 2)).unwrap();
    assert_eq!(
        prot.visit(),
        Err(Error::InvalidCrossLink(1, AminoAcid::Thr, CrossLink::Lan(1, 2)))
    );
}

#[test]
fn threonine_refuses_cystine() {
    let mut prot = Protein::new(vec![AminoAcid::Cys, AminoAcid::Thr]);
    prot.cross_link(CrossLink::Cystine(1, 2)).unwrap();
    assert_eq!(
        prot.visit(),
        Err(Error::InvalidCrossLink(2, AminoAcid::Thr, CrossLink::Cystine(1, 2)))
    );
}

#[test]
fn methyllanthionine_refuses_cysteine_second() {
    let mut prot = Protein::new(vec![AminoAcid::Cys, AminoAcid::Cys]);
    prot.cross_link(CrossLink::MeLan(1, 2)).unwrap();
    assert_eq!(
        prot.visit(),
        Err(Error::InvalidCrossLink(2, AminoAcid::Cys, CrossLink::MeLan(1, 2)))
    );
}

#[test]
fn duplicate_cross_link() {
    let residues = vec![AminoAcid::Cys, AminoAcid::Cys, AminoAcid::Cys];
    let mut prot = Protein::new(residues);
    prot.cross_link(CrossLink::Cystine(1, 2)).unwrap();
    assert_eq!(prot.cross_link(CrossLink::Cystine(1, 3)), Err(Error::DuplicateCrossLink(1)));
    assert_eq!(prot.cross_link_at(1), Some((3, CrossLink::Cystine(1, 2))));
    assert_eq!(prot.cross_link_at(2), Some((3, CrossLink::Cystine(1, 2))));
    assert_eq!(prot.cross_link_at(3), None);
}

#[test]
fn duplicate_on_second_position_keeps_first() {
    let residues = vec![AminoAcid::Cys, AminoAcid::Cys, AminoAcid::Cys];
    let mut prot = Protein::new(residues);
    prot.cross_link(CrossLink::Cystine(1, 2)).unwrap();
    assert_eq!(prot.cross_link(CrossLink::Cystine(3, 2)), Err(Error::DuplicateCrossLink(2)));
    assert_eq!(prot.cross_link_at(2), Some((3, CrossLink::Cystine(1, 2))));
    assert_eq!(prot.cross_link_at(3), Some((4, CrossLink::Cystine(3, 2))));
}

#[test]
fn same_position_twice_in_one_link() {
    let mut prot = Protein::new(vec![AminoAcid::Cys]);
    assert_eq!(prot.cross_link(CrossLink::Cystine(1, 1)), Err(Error::DuplicateCrossLink(1)));
}

#[test]
fn too_many_cross_links() {
    let mut prot = Protein::new(vec![AminoAcid::Cys; 200]);
    for k in 0..97u16 {
        prot.cross_link(CrossLink::Cystine(2 * k + 1, 2 * k + 2)).unwrap();
    }
    assert_eq!(prot.cross_link_at(1), Some((3, CrossLink::Cystine(1, 2))));
    assert_eq!(prot.cross_link_at(194), Some((99, CrossLink::Cystine(193, 194))));
    assert_eq!(
        prot.cross_link(CrossLink::Cystine(195, 196)),
        Err(Error::TooManyCrossLinks)
    );
    assert_eq!(prot.cross_link_at(195), None);
}

#[test]
fn head_to_tail() {
    let mut prot = Protein::new(vec![AminoAcid::Gly]);
    prot.cyclization(Cyclization::HeadToTail);
    let steps = prot.visit().unwrap();
    assert_eq!(steps.last(), Some(&Step::Join(Bond::Elided, 0)));
    assert!(!steps.contains(&Step::Extend(Bond::Single, Atom::Aliphatic(Organic::O))));
    assert_eq!(render(&steps), "N0CC(=O)0");
}

#[test]
fn linear_ends_on_hydroxyl() {
    let steps = visit(vec![AminoAcid::Ser, AminoAcid::Trp, AminoAcid::Lys]).unwrap();
    assert_eq!(
        steps.last(),
        Some(&Step::Extend(Bond::Single, Atom::Aliphatic(Organic::O)))
    );
    assert_eq!(Cyclization::default(), Cyclization::Linear);
}

#[test]
fn cystine_digits_used_twice() {
    let mut prot = Protein::new(vec![AminoAcid::Cys; 4]);
    prot.cross_link(CrossLink::Cystine(1, 3)).unwrap();
    prot.cross_link(CrossLink::Cystine(2, 4)).unwrap();
    let steps = prot.visit().unwrap();
    assert_eq!(joins_of(&steps, 3), 2);
    assert_eq!(joins_of(&steps, 4), 2);
    assert_eq!(joins_of(&steps, 5), 0);
}

#[test]
fn cystine() {
    let mut prot = Protein::new(vec![AminoAcid::Cys, AminoAcid::Cys]);
    prot.cross_link(CrossLink::Cystine(1, 2)).unwrap();
    let steps = prot.visit().unwrap();
    assert_eq!(
        render(&steps),
        "N[C@@H](CS3)C(=O)N[C@@H](CS3)C(=O)-O"
    );
}

#[test]
fn lanthionine_refuses_cysteine_second() {
    let mut prot = Protein::new(vec![AminoAcid::Cys, AminoAcid::Cys]);
    prot.cross_link(CrossLink::Lan(1, 2)).unwrap();
    assert_eq!(
        prot.visit(),
        Err(Error::InvalidCrossLink(2, AminoAcid::Cys, CrossLink::Lan(1, 2)))
    );
}

#[test]
fn high_ring_digits() {
    let mut prot = Protein::new(vec![AminoAcid::Cys; 20]);
    for k in 0..10u16 {
        prot.cross_link(CrossLink::Cystine(2 * k + 1, 2 * k + 2)).unwrap();
    }
    let text = render(&prot.visit().unwrap());
    assert_eq!(text.matches("S%12").count(), 2);
    assert_eq!(text.matches("S9").count(), 2);
    assert!(!text.contains("S%13"));
}

#[test]
fn protein_equality() {
    let a = Protein::new(vec![AminoAcid::Gly]);
    let mut b = Protein::new(vec![AminoAcid::Gly]);
    assert_eq!(a, b.clone());
    b.cyclization(Cyclization::HeadToTail);
    assert_ne!(a, b);
}

#[test]
fn methyllanthionine() {
    let mut prot = Protein::new(vec![AminoAcid::Cys, AminoAcid::Ala, AminoAcid::Thr]);
    prot.cross_link(CrossLink::MeLan(1, 3)).unwrap();
    let steps = prot.visit().unwrap();
    assert_eq!(
        render(&steps),
        "N[C@@H](CS3)C(=O)N[C@@H](C)C(=O)N[C@@H]([C@@H]3C)C(=O)-O"
    );
}

#[test]
fn registration_leaves_unlinked_positions() {
    let mut prot = Protein::new(vec![AminoAcid::Cys, AminoAcid::Gly, AminoAcid::Cys]);
    prot.cross_link(CrossLink::Cystine(1, 3)).unwrap();
    assert_eq!(prot.cross_link_at(2), None);
    assert_eq!(prot.cross_link_at(3), Some((3, CrossLink::Cystine(1, 3))));
}
