//! The residues and their one-letter and three-letter codes.

use vstd::prelude::*;

verus! {

broadcast use {vstd::string::axiom_spec_iter, vstd::string::next_postcondition};

/// The error returned for a code that names no residue.
#[derive(Clone, Copy, Debug, PartialEq, Eq, Structural)]
pub struct UnknownResidue;

impl UnknownResidue {
    /// A sentence that describes the error.
    pub fn message(&self) -> (r: String)
        ensures
            r@ == "unknown residue found in sequence"@,
    {
        String::from_str("unknown residue found in sequence")
    }
}

/// A single L-α amino-acid, or one of the two dehydro-residues that take
/// part in lanthipeptide cross-links.
#[derive(Clone, Copy, Debug, PartialEq, Eq, Structural)]
pub enum AminoAcid {
    /// L-arginine.
    Arg,
    /// L-histidine.
    His,
    /// L-lysine.
    Lys,
    /// L-aspartic acid.
    Asp,
    /// L-glutamic acid.
    Glu,
    /// L-serine.
    Ser,
    /// L-threonine.
    Thr,
    /// L-asparagine.
    Asn,
    /// L-glutamine.
    Gln,
    /// Glycine.
    Gly,
    /// L-proline.
    Pro,
    /// L-cysteine.
    Cys,
    /// L-selenocysteine.
    Sec,
    /// L-alanine.
    Ala,
    /// L-valine.
    Val,
    /// L-isoleucine.
    Ile,
    /// L-leucine.
    Leu,
    /// L-methionine.
    Met,
    /// L-phenylalanine.
    Phe,
    /// L-tyrosine.
    Tyr,
    /// L-tryptophan.
    Trp,
    /// L-pyrrolysine.
    Pyl,
    /// 2,3-didehydroalanine.
    Dha,
    /// (Z)-dehydrobutyrine.
    Dhb,
}

impl AminoAcid {
    /// The one-letter code of the residue; the dehydro-residues have none.
    pub open spec fn code1(self) -> Option<char> {
        match self {
            AminoAcid::Arg => Some('R'),
            AminoAcid::His => Some('H'),
            AminoAcid::Lys => Some('K'),
            AminoAcid::Asp => Some('D'),
            AminoAcid::Glu => Some('E'),
            AminoAcid::Ser => Some('S'),
            AminoAcid::Thr => Some('T'),
            AminoAcid::Asn => Some('N'),
            AminoAcid::Gln => Some('Q'),
            AminoAcid::Gly => Some('G'),
            AminoAcid::Pro => Some('P'),
            AminoAcid::Cys => Some('C'),
            AminoAcid::Sec => Some('U'),
            AminoAcid::Ala => Some('A'),
            AminoAcid::Val => Some('V'),
            AminoAcid::Ile => Some('I'),
            AminoAcid::Leu => Some('L'),
            AminoAcid::Met => Some('M'),
            AminoAcid::Phe => Some('F'),
            AminoAcid::Tyr => Some('Y'),
            AminoAcid::Trp => Some('W'),
            AminoAcid::Pyl => Some('O'),
            AminoAcid::Dha => None,
            AminoAcid::Dhb => None,
        }
    }

    /// The three-letter code of the residue.
    pub open spec fn code3(self) -> Seq<char> {
        match self {
            AminoAcid::Arg => seq!['A', 'r', 'g'],
            AminoAcid::His => seq!['H', 'i', 's'],
            AminoAcid::Lys => seq!['L', 'y', 's'],
            AminoAcid::Asp => seq!['A', 's', 'p'],
            AminoAcid::Glu => seq!['G', 'l', 'u'],
            AminoAcid::Ser => seq!['S', 'e', 'r'],
            AminoAcid::Thr => seq!['T', 'h', 'r'],
            AminoAcid::Asn => seq!['A', 's', 'n'],
            AminoAcid::Gln => seq!['G', 'l', 'n'],
            AminoAcid::Gly => seq!['G', 'l', 'y'],
            AminoAcid::Pro => seq!['P', 'r', 'o'],
            AminoAcid::Cys => seq!['C', 'y', 's'],
            AminoAcid::Sec => seq!['S', 'e', 'c'],
            AminoAcid::Ala => seq!['A', 'l', 'a'],
            AminoAcid::Val => seq!['V', 'a', 'l'],
            AminoAcid::Ile => seq!['I', 'l', 'e'],
            AminoAcid::Leu => seq!['L', 'e', 'u'],
            AminoAcid::Met => seq!['M', 'e', 't'],
            AminoAcid::Phe => seq!['P', 'h', 'e'],
            AminoAcid::Tyr => seq!['T', 'y', 'r'],
            AminoAcid::Trp => seq!['T', 'r', 'p'],
            AminoAcid::Pyl => seq!['P', 'y', 'l'],
            AminoAcid::Dha => seq!['D', 'h', 'a'],
            AminoAcid::Dhb => seq!['D', 'h', 'b'],
        }
    }

    /// Distinct residues have distinct one-letter codes.
    pub proof fn lemma_code1_injective(a: AminoAcid, b: AminoAcid)
        requires
            a.code1() is Some,
            a.code1() == b.code1(),
        ensures
            a == b,
    {
    }

    /// Distinct residues have distinct three-letter codes.
    pub proof fn lemma_code3_injective(a: AminoAcid, b: AminoAcid)
        requires
            a.code3() == b.code3(),
        ensures
            a == b,
    {
        assert(a.code3()[0] == b.code3()[0] && a.code3()[1] == b.code3()[1] && a.code3()[2]
            == b.code3()[2]);
    }

    /// Create an `AminoAcid` variant from a 1-letter code.
    pub fn from_code1(code: char) -> (r: Result<AminoAcid, UnknownResidue>)
        ensures
            match r {
                Ok(aa) => aa.code1() == Some(code),
                Err(_) => forall|aa: AminoAcid| #[trigger] aa.code1() != Some(code),
            },
    {
        match code {
            'R' => Ok(AminoAcid::Arg),
            'H' => Ok(AminoAcid::His),
            'K' => Ok(AminoAcid::Lys),
            'D' => Ok(AminoAcid::Asp),
            'E' => Ok(AminoAcid::Glu),
            'S' => Ok(AminoAcid::Ser),
            'T' => Ok(AminoAcid::Thr),
            'N' => Ok(AminoAcid::Asn),
            'Q' => Ok(AminoAcid::Gln),
            'G' => Ok(AminoAcid::Gly),
            'P' => Ok(AminoAcid::Pro),
            'C' => Ok(AminoAcid::Cys),
            'U' => Ok(AminoAcid::Sec),
            'A' => Ok(AminoAcid::Ala),
            'V' => Ok(AminoAcid::Val),
            'I' => Ok(AminoAcid::Ile),
            'L' => Ok(AminoAcid::Leu),
            'M' => Ok(AminoAcid::Met),
            'F' => Ok(AminoAcid::Phe),
            'Y' => Ok(AminoAcid::Tyr),
            'W' => Ok(AminoAcid::Trp),
            'O' => Ok(AminoAcid::Pyl),
            _ => Err(UnknownResidue),
        }
    }

    /// Create an `AminoAcid` variant from a 3-letter code.
    pub fn from_code3(code: &str) -> (r: Result<AminoAcid, UnknownResidue>)
        ensures
            match r {
                Ok(aa) => aa.code3() == code@,
                Err(_) => forall|aa: AminoAcid| #[trigger] aa.code3() != code@,
            },
    {
        let mut chars = code.chars();
        let a = chars.next();
        let b = chars.next();
        let c = chars.next();
        let rest = chars.next();
        assert(code@.len() == 3 ==> code@ =~= seq![a->0, b->0, c->0]);
        match (a, b, c, rest) {
            (Some(a), Some(b), Some(c), None) => Self::from_letters(a, b, c),
            _ => Err(UnknownResidue),
        }
    }

    fn from_letters(a: char, b: char, c: char) -> (r: Result<AminoAcid, UnknownResidue>)
        ensures
            match r {
                Ok(aa) => aa.code3() == seq![a, b, c],
                Err(_) => forall|aa: AminoAcid| #[trigger] aa.code3() != seq![a, b, c],
            },
    {
        let r = match (a, b, c) {
            ('A', 'r', 'g') => Ok(AminoAcid::Arg),
            ('H', 'i', 's') => Ok(AminoAcid::His),
            ('L', 'y', 's') => Ok(AminoAcid::Lys),
            ('A', 's', 'p') => Ok(AminoAcid::Asp),
            ('G', 'l', 'u') => Ok(AminoAcid::Glu),
            ('S', 'e', 'r') => Ok(AminoAcid::Ser),
            ('T', 'h', 'r') => Ok(AminoAcid::Thr),
            ('A', 's', 'n') => Ok(AminoAcid::Asn),
            ('G', 'l', 'n') => Ok(AminoAcid::Gln),
            ('G', 'l', 'y') => Ok(AminoAcid::Gly),
            ('P', 'r', 'o') => Ok(AminoAcid::Pro),
            ('C', 'y', 's') => Ok(AminoAcid::Cys),
            ('S', 'e', 'c') => Ok(AminoAcid::Sec),
            ('A', 'l', 'a') => Ok(AminoAcid::Ala),
            ('V', 'a', 'l') => Ok(AminoAcid::Val),
            ('I', 'l', 'e') => Ok(AminoAcid::Ile),
            ('L', 'e', 'u') => Ok(AminoAcid::Leu),
            ('M', 'e', 't') => Ok(AminoAcid::Met),
            ('P', 'h', 'e') => Ok(AminoAcid::Phe),
            ('T', 'y', 'r') => Ok(AminoAcid::Tyr),
            ('T', 'r', 'p') => Ok(AminoAcid::Trp),
            ('P', 'y', 'l') => Ok(AminoAcid::Pyl),
            ('D', 'h', 'a') => Ok(AminoAcid::Dha),
            ('D', 'h', 'b') => Ok(AminoAcid::Dhb),
            _ => Err(UnknownResidue),
        };
        proof {
            assert forall|aa: AminoAcid| #[trigger] aa.code3() == seq![a, b, c] implies
                aa.code3()[0] == a && aa.code3()[1] == b && aa.code3()[2] == c by {}
        }
        r
    }
}

} // verus!
