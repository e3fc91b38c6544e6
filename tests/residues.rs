use proteinogenic::{smiles, AminoAcid, UnknownResidue};

#[test]
fn from_code1() {
    assert_eq!(AminoAcid::from_code1('Y'), Ok(AminoAcid::Tyr));
    assert_eq!(AminoAcid::from_code1('α'), Err(UnknownResidue));
}

#[test]
fn from_code3() {
    assert_eq!(AminoAcid::from_code3("Thr"), Ok(AminoAcid::Thr));
    assert_eq!(AminoAcid::from_code3("Xyz"), Err(UnknownResidue));
}

#[test]
fn from_code3_dehydro_residues() {
    assert_eq!(AminoAcid::from_code3("Dha"), Ok(AminoAcid::Dha));
    assert_eq!(AminoAcid::from_code3("Dhb"), Ok(AminoAcid::Dhb));
}

#[test]
fn from_code3_rejects_other_lengths() {
    assert_eq!(AminoAcid::from_code3(""), Err(UnknownResidue));
    assert_eq!(AminoAcid::from_code3("Th"), Err(UnknownResidue));
    assert_eq!(AminoAcid::from_code3("Thre"), Err(UnknownResidue));
    assert_eq!(AminoAcid::from_code3("thr"), Err(UnknownResidue));
}

#[test]
fn from_code1_rejects_lowercase_and_b() {
    assert_eq!(AminoAcid::from_code1('a'), Err(UnknownResidue));
    assert_eq!(AminoAcid::from_code1('B'), Err(UnknownResidue));
    assert_eq!(AminoAcid::from_code1('U'), Ok(AminoAcid::Sec));
    assert_eq!(AminoAcid::from_code1('O'), Ok(AminoAcid::Pyl));
}

#[test]
fn every_one_letter_residue_emits() {
    let codes = "ARNDCQEGHILKMFPSTWYVUO";
    let mut count = 0;
    for code in codes.chars() {
        let aa = AminoAcid::from_code1(code).unwrap();
        let s = smiles(vec![aa]).unwrap();
        assert!(s.starts_with('N'));
        assert!(s.ends_with("C(=O)-O"));
        count += 1;
    }
    assert_eq!(count, 22);
}

#[test]
fn every_three_letter_residue_emits() {
    let codes = [
        "Arg", "His", "Lys", "Asp", "Glu", "Ser", "Thr", "Asn", "Gln", "Gly", "Pro", "Cys",
        "Sec", "Ala", "Val", "Ile", "Leu", "Met", "Phe", "Tyr", "Trp", "Pyl", "Dha", "Dhb",
    ];
    for code in codes {
        let aa = AminoAcid::from_code3(code).unwrap();
        assert!(smiles(vec![aa]).is_ok());
    }
}

#[test]
fn unknown_residue_message() {
    assert_eq!(UnknownResidue.message(), "unknown residue found in sequence");
}
