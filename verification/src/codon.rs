//! The genetic-code table: a total, bijective mapping between every ordered
//! triplet of nucleotides and a tagged codon identity. Twenty-one categories
//! cover all 64 triplets; two of them (Met and Trp) have a single triplet and
//! no sub-variant, the rest carry a sub-variant naming the synonymous
//! triplet that was read.

use vstd::prelude::*;

use crate::nucleotide::Nucleotide;

verus! {

/// The synonymous triplets of the Phe category.
#[derive(Debug, Copy, Clone, PartialEq, Eq, Hash, Structural)]
pub enum CodonPHE {
    TTT,
    TTC,
}

/// The synonymous triplets of the Leu category.
#[derive(Debug, Copy, Clone, PartialEq, Eq, Hash, Structural)]
pub enum CodonLEU {
    TTA,
    TTG,
    CTT,
    CTC,
    CTA,
    CTG,
}

/// The synonymous triplets of the Ile category.
#[derive(Debug, Copy, Clone, PartialEq, Eq, Hash, Structural)]
pub enum CodonILE {
    ATT,
    ATC,
    ATA,
}

/// The synonymous triplets of the Val category.
#[derive(Debug, Copy, Clone, PartialEq, Eq, Hash, Structural)]
pub enum CodonVAL {
    GTT,
    GTC,
    GTA,
    GTG,
}

/// The synonymous triplets of the Ser category.
#[derive(Debug, Copy, Clone, PartialEq, Eq, Hash, Structural)]
pub enum CodonSER {
    TCT,
    TCC,
    TCA,
    TCG,
    AGT,
    AGC,
}

/// The synonymous triplets of the Pro category.
#[derive(Debug, Copy, Clone, PartialEq, Eq, Hash, Structural)]
pub enum CodonPRO {
    CCT,
    CCC,
    CCA,
    CCG,
}

/// The synonymous triplets of the Thr category.
#[derive(Debug, Copy, Clone, PartialEq, Eq, Hash, Structural)]
pub enum CodonTHR {
    ACT,
    ACC,
    ACA,
    ACG,
}

/// The synonymous triplets of the Ala category.
#[derive(Debug, Copy, Clone, PartialEq, Eq, Hash, Structural)]
pub enum CodonALA {
    GCT,
    GCC,
    GCA,
    GCG,
}

/// The synonymous triplets of the Tyr category.
#[derive(Debug, Copy, Clone, PartialEq, Eq, Hash, Structural)]
pub enum CodonTYR {
    TAT,
    TAC,
}

/// The synonymous triplets of the Stop category.
#[derive(Debug, Copy, Clone, PartialEq, Eq, Hash, Structural)]
pub enum CodonSTOP {
    TAA,
    TAG,
    TGA,
}

/// The synonymous triplets of the His category.
#[derive(Debug, Copy, Clone, PartialEq, Eq, Hash, Structural)]
pub enum CodonHIS {
    CAT,
    CAC,
}

/// The synonymous triplets of the Gln category.
#[derive(Debug, Copy, Clone, PartialEq, Eq, Hash, Structural)]
pub enum CodonGLN {
    CAA,
    CAG,
}

/// The synonymous triplets of the Asn category.
#[derive(Debug, Copy, Clone, PartialEq, Eq, Hash, Structural)]
pub enum CodonASN {
    AAT,
    AAC,
}

/// The synonymous triplets of the Lys category.
#[derive(Debug, Copy, Clone, PartialEq, Eq, Hash, Structural)]
pub enum CodonLYS {
    AAA,
    AAG,
}

/// The synonymous triplets of the Asp category.
#[derive(Debug, Copy, Clone, PartialEq, Eq, Hash, Structural)]
pub enum CodonASP {
    GAT,
    GAC,
}

/// The synonymous triplets of the Glu category.
#[derive(Debug, Copy, Clone, PartialEq, Eq, Hash, Structural)]
pub enum CodonGLU {
    GAA,
    GAG,
}

/// The synonymous triplets of the Cys category.
#[derive(Debug, Copy, Clone, PartialEq, Eq, Hash, Structural)]
pub enum CodonCYS {
    TGT,
    TGC,
}

/// The synonymous triplets of the Arg category.
#[derive(Debug, Copy, Clone, PartialEq, Eq, Hash, Structural)]
pub enum CodonARG {
    CGT,
    CGC,
    CGA,
    CGG,
    AGA,
    AGG,
}

/// The synonymous triplets of the Gly category.
#[derive(Debug, Copy, Clone, PartialEq, Eq, Hash, Structural)]
pub enum CodonGLY {
    GGT,
    GGC,
    GGA,
    GGG,
}

/// A codon: one of 21 categories, most carrying the synonymous triplet it
/// was read from.
#[derive(Debug, Copy, Clone, PartialEq, Eq, Hash, Structural)]
pub enum Codon {
    Met,
    Stop(CodonSTOP),
    Ala(CodonALA),
    Arg(CodonARG),
    Asn(CodonASN),
    Asp(CodonASP),
    Cys(CodonCYS),
    Gln(CodonGLN),
    Glu(CodonGLU),
    Gly(CodonGLY),
    His(CodonHIS),
    Ile(CodonILE),
    Leu(CodonLEU),
    Lys(CodonLYS),
    Phe(CodonPHE),
    Pro(CodonPRO),
    Ser(CodonSER),
    Thr(CodonTHR),
    Trp,
    Tyr(CodonTYR),
    Val(CodonVAL),
}

/// The category identity of a codon, independent of which synonymous
/// triplet produced it.
#[derive(Debug, Copy, Clone, PartialEq, Eq, Hash, Structural)]
pub enum CodonType {
    Met,
    Stop,
    Ala,
    Arg,
    Asn,
    Asp,
    Cys,
    Gln,
    Glu,
    Gly,
    His,
    Ile,
    Leu,
    Lys,
    Phe,
    Pro,
    Ser,
    Thr,
    Trp,
    Tyr,
    Val,
}

impl Codon {
    /// The category of this codon.
    pub open spec fn spec_codon_type(self) -> CodonType {
        match self {
            Codon::Met => CodonType::Met,
            Codon::Stop(_) => CodonType::Stop,
            Codon::Ala(_) => CodonType::Ala,
            Codon::Arg(_) => CodonType::Arg,
            Codon::Asn(_) => CodonType::Asn,
            Codon::Asp(_) => CodonType::Asp,
            Codon::Cys(_) => CodonType::Cys,
            Codon::Gln(_) => CodonType::Gln,
            Codon::Glu(_) => CodonType::Glu,
            Codon::Gly(_) => CodonType::Gly,
            Codon::His(_) => CodonType::His,
            Codon::Ile(_) => CodonType::Ile,
            Codon::Leu(_) => CodonType::Leu,
            Codon::Lys(_) => CodonType::Lys,
            Codon::Phe(_) => CodonType::Phe,
            Codon::Pro(_) => CodonType::Pro,
            Codon::Ser(_) => CodonType::Ser,
            Codon::Thr(_) => CodonType::Thr,
            Codon::Trp => CodonType::Trp,
            Codon::Tyr(_) => CodonType::Tyr,
            Codon::Val(_) => CodonType::Val,
        }
    }

    /// The standard genetic-code table: the codon read from an ordered
    /// triplet of nucleotides. Total over all 64 triplets.
    pub open spec fn spec_from_triplet(n1: Nucleotide, n2: Nucleotide, n3: Nucleotide) -> Codon {
        match (n1, n2, n3) {
            (Nucleotide::T, Nucleotide::T, Nucleotide::T) => Codon::Phe(CodonPHE::TTT),
            (Nucleotide::T, Nucleotide::T, Nucleotide::C) => Codon::Phe(CodonPHE::TTC),
            (Nucleotide::T, Nucleotide::T, Nucleotide::A) => Codon::Leu(CodonLEU::TTA),
            (Nucleotide::T, Nucleotide::T, Nucleotide::G) => Codon::Leu(CodonLEU::TTG),
            (Nucleotide::C, Nucleotide::T, Nucleotide::T) => Codon::Leu(CodonLEU::CTT),
            (Nucleotide::C, Nucleotide::T, Nucleotide::C) => Codon::Leu(CodonLEU::CTC),
            (Nucleotide::C, Nucleotide::T, Nucleotide::A) => Codon::Leu(CodonLEU::CTA),
            (Nucleotide::C, Nucleotide::T, Nucleotide::G) => Codon::Leu(CodonLEU::CTG),
            (Nucleotide::A, Nucleotide::T, Nucleotide::T) => Codon::Ile(CodonILE::ATT),
            (Nucleotide::A, Nucleotide::T, Nucleotide::C) => Codon::Ile(CodonILE::ATC),
            (Nucleotide::A, Nucleotide::T, Nucleotide::A) => Codon::Ile(CodonILE::ATA),
            (Nucleotide::A, Nucleotide::T, Nucleotide::G) => Codon::Met,
            (Nucleotide::G, Nucleotide::T, Nucleotide::T) => Codon::Val(CodonVAL::GTT),
            (Nucleotide::G, Nucleotide::T, Nucleotide::C) => Codon::Val(CodonVAL::GTC),
            (Nucleotide::G, Nucleotide::T, Nucleotide::A) => Codon::Val(CodonVAL::GTA),
            (Nucleotide::G, Nucleotide::T, Nucleotide::G) => Codon::Val(CodonVAL::GTG),
            (Nucleotide::T, Nucleotide::C, Nucleotide::T) => Codon::Ser(CodonSER::TCT),
            (Nucleotide::T, Nucleotide::C, Nucleotide::C) => Codon::Ser(CodonSER::TCC),
            (Nucleotide::T, Nucleotide::C, Nucleotide::A) => Codon::Ser(CodonSER::TCA),
            (Nucleotide::T, Nucleotide::C, Nucleotide::G) => Codon::Ser(CodonSER::TCG),
            (Nucleotide::C, Nucleotide::C, Nucleotide::T) => Codon::Pro(CodonPRO::CCT),
            (Nucleotide::C, Nucleotide::C, Nucleotide::C) => Codon::Pro(CodonPRO::CCC),
            (Nucleotide::C, Nucleotide::C, Nucleotide::A) => Codon::Pro(CodonPRO::CCA),
            (Nucleotide::C, Nucleotide::C, Nucleotide::G) => Codon::Pro(CodonPRO::CCG),
            (Nucleotide::A, Nucleotide::C, Nucleotide::T) => Codon::Thr(CodonTHR::ACT),
            (Nucleotide::A, Nucleotide::C, Nucleotide::C) => Codon::Thr(CodonTHR::ACC),
            (Nucleotide::A, Nucleotide::C, Nucleotide::A) => Codon::Thr(CodonTHR::ACA),
            (Nucleotide::A, Nucleotide::C, Nucleotide::G) => Codon::Thr(CodonTHR::ACG),
            (Nucleotide::G, Nucleotide::C, Nucleotide::T) => Codon::Ala(CodonALA::GCT),
            (Nucleotide::G, Nucleotide::C, Nucleotide::C) => Codon::Ala(CodonALA::GCC),
            (Nucleotide::G, Nucleotide::C, Nucleotide::A) => Codon::Ala(CodonALA::GCA),
            (Nucleotide::G, Nucleotide::C, Nucleotide::G) => Codon::Ala(CodonALA::GCG),
            (Nucleotide::T, Nucleotide::A, Nucleotide::T) => Codon::Tyr(CodonTYR::TAT),
            (Nucleotide::T, Nucleotide::A, Nucleotide::C) => Codon::Tyr(CodonTYR::TAC),
            (Nucleotide::T, Nucleotide::A, Nucleotide::A) => Codon::Stop(CodonSTOP::TAA),
            (Nucleotide::T, Nucleotide::A, Nucleotide::G) => Codon::Stop(CodonSTOP::TAG),
            (Nucleotide::C, Nucleotide::A, Nucleotide::T) => Codon::His(CodonHIS::CAT),
            (Nucleotide::C, Nucleotide::A, Nucleotide::C) => Codon::His(CodonHIS::CAC),
            (Nucleotide::C, Nucleotide::A, Nucleotide::A) => Codon::Gln(CodonGLN::CAA),
            (Nucleotide::C, Nucleotide::A, Nucleotide::G) => Codon::Gln(CodonGLN::CAG),
            (Nucleotide::A, Nucleotide::A, Nucleotide::T) => Codon::Asn(CodonASN::AAT),
            (Nucleotide::A, Nucleotide::A, Nucleotide::C) => Codon::Asn(CodonASN::AAC),
            (Nucleotide::A, Nucleotide::A, Nucleotide::A) => Codon::Lys(CodonLYS::AAA),
            (Nucleotide::A, Nucleotide::A, Nucleotide::G) => Codon::Lys(CodonLYS::AAG),
            (Nucleotide::G, Nucleotide::A, Nucleotide::T) => Codon::Asp(CodonASP::GAT),
            (Nucleotide::G, Nucleotide::A, Nucleotide::C) => Codon::Asp(CodonASP::GAC),
            (Nucleotide::G, Nucleotide::A, Nucleotide::A) => Codon::Glu(CodonGLU::GAA),
            (Nucleotide::G, Nucleotide::A, Nucleotide::G) => Codon::Glu(CodonGLU::GAG),
            (Nucleotide::T, Nucleotide::G, Nucleotide::T) => Codon::Cys(CodonCYS::TGT),
            (Nucleotide::T, Nucleotide::G, Nucleotide::C) => Codon::Cys(CodonCYS::TGC),
            (Nucleotide::T, Nucleotide::G, Nucleotide::A) => Codon::Stop(CodonSTOP::TGA),
            (Nucleotide::T, Nucleotide::G, Nucleotide::G) => Codon::Trp,
            (Nucleotide::C, Nucleotide::G, Nucleotide::T) => Codon::Arg(CodonARG::CGT),
            (Nucleotide::C, Nucleotide::G, Nucleotide::C) => Codon::Arg(CodonARG::CGC),
            (Nucleotide::C, Nucleotide::G, Nucleotide::A) => Codon::Arg(CodonARG::CGA),
            (Nucleotide::C, Nucleotide::G, Nucleotide::G) => Codon::Arg(CodonARG::CGG),
            (Nucleotide::A, Nucleotide::G, Nucleotide::T) => Codon::Ser(CodonSER::AGT),
            (Nucleotide::A, Nucleotide::G, Nucleotide::C) => Codon::Ser(CodonSER::AGC),
            (Nucleotide::A, Nucleotide::G, Nucleotide::A) => Codon::Arg(CodonARG::AGA),
            (Nucleotide::A, Nucleotide::G, Nucleotide::G) => Codon::Arg(CodonARG::AGG),
            (Nucleotide::G, Nucleotide::G, Nucleotide::T) => Codon::Gly(CodonGLY::GGT),
            (Nucleotide::G, Nucleotide::G, Nucleotide::C) => Codon::Gly(CodonGLY::GGC),
            (Nucleotide::G, Nucleotide::G, Nucleotide::A) => Codon::Gly(CodonGLY::GGA),
            (Nucleotide::G, Nucleotide::G, Nucleotide::G) => Codon::Gly(CodonGLY::GGG),
        }
    }

    /// The unique triplet that a codon variant stands for: the inverse of
    /// [`Codon::spec_from_triplet`].
    pub open spec fn spec_to_triplet(self) -> (Nucleotide, Nucleotide, Nucleotide) {
        match self {
            Codon::Phe(CodonPHE::TTT) => (Nucleotide::T, Nucleotide::T, Nucleotide::T),
            Codon::Phe(CodonPHE::TTC) => (Nucleotide::T, Nucleotide::T, Nucleotide::C),
            Codon::Leu(CodonLEU::TTA) => (Nucleotide::T, Nucleotide::T, Nucleotide::A),
            Codon::Leu(CodonLEU::TTG) => (Nucleotide::T, Nucleotide::T, Nucleotide::G),
            Codon::Leu(CodonLEU::CTT) => (Nucleotide::C, Nucleotide::T, Nucleotide::T),
            Codon::Leu(CodonLEU::CTC) => (Nucleotide::C, Nucleotide::T, Nucleotide::C),
            Codon::Leu(CodonLEU::CTA) => (Nucleotide::C, Nucleotide::T, Nucleotide::A),
            Codon::Leu(CodonLEU::CTG) => (Nucleotide::C, Nucleotide::T, Nucleotide::G),
            Codon::Ile(CodonILE::ATT) => (Nucleotide::A, Nucleotide::T, Nucleotide::T),
            Codon::Ile(CodonILE::ATC) => (Nucleotide::A, Nucleotide::T, Nucleotide::C),
            Codon::Ile(CodonILE::ATA) => (Nucleotide::A, Nucleotide::T, Nucleotide::A),
            Codon::Met => (Nucleotide::A, Nucleotide::T, Nucleotide::G),
            Codon::Val(CodonVAL::GTT) => (Nucleotide::G, Nucleotide::T, Nucleotide::T),
            Codon::Val(CodonVAL::GTC) => (Nucleotide::G, Nucleotide::T, Nucleotide::C),
            Codon::Val(CodonVAL::GTA) => (Nucleotide::G, Nucleotide::T, Nucleotide::A),
            Codon::Val(CodonVAL::GTG) => (Nucleotide::G, Nucleotide::T, Nucleotide::G),
            Codon::Ser(CodonSER::TCT) => (Nucleotide::T, Nucleotide::C, Nucleotide::T),
            Codon::Ser(CodonSER::TCC) => (Nucleotide::T, Nucleotide::C, Nucleotide::C),
            Codon::Ser(CodonSER::TCA) => (Nucleotide::T, Nucleotide::C, Nucleotide::A),
            Codon::Ser(CodonSER::TCG) => (Nucleotide::T, Nucleotide::C, Nucleotide::G),
            Codon::Ser(CodonSER::AGT) => (Nucleotide::A, Nucleotide::G, Nucleotide::T),
            Codon::Ser(CodonSER::AGC) => (Nucleotide::A, Nucleotide::G, Nucleotide::C),
            Codon::Pro(CodonPRO::CCT) => (Nucleotide::C, Nucleotide::C, Nucleotide::T),
            Codon::Pro(CodonPRO::CCC) => (Nucleotide::C, Nucleotide::C, Nucleotide::C),
            Codon::Pro(CodonPRO::CCA) => (Nucleotide::C, Nucleotide::C, Nucleotide::A),
            Codon::Pro(CodonPRO::CCG) => (Nucleotide::C, Nucleotide::C, Nucleotide::G),
            Codon::Thr(CodonTHR::ACT) => (Nucleotide::A, Nucleotide::C, Nucleotide::T),
            Codon::Thr(CodonTHR::ACC) => (Nucleotide::A, Nucleotide::C, Nucleotide::C),
            Codon::Thr(CodonTHR::ACA) => (Nucleotide::A, Nucleotide::C, Nucleotide::A),
            Codon::Thr(CodonTHR::ACG) => (Nucleotide::A, Nucleotide::C, Nucleotide::G),
            Codon::Ala(CodonALA::GCT) => (Nucleotide::G, Nucleotide::C, Nucleotide::T),
            Codon::Ala(CodonALA::GCC) => (Nucleotide::G, Nucleotide::C, Nucleotide::C),
            Codon::Ala(CodonALA::GCA) => (Nucleotide::G, Nucleotide::C, Nucleotide::A),
            Codon::Ala(CodonALA::GCG) => (Nucleotide::G, Nucleotide::C, Nucleotide::G),
            Codon::Tyr(CodonTYR::TAT) => (Nucleotide::T, Nucleotide::A, Nucleotide::T),
            Codon::Tyr(CodonTYR::TAC) => (Nucleotide::T, Nucleotide::A, Nucleotide::C),
            Codon::Stop(CodonSTOP::TAA) => (Nucleotide::T, Nucleotide::A, Nucleotide::A),
            Codon::Stop(CodonSTOP::TAG) => (Nucleotide::T, Nucleotide::A, Nucleotide::G),
            Codon::Stop(CodonSTOP::TGA) => (Nucleotide::T, Nucleotide::G, Nucleotide::A),
            Codon::His(CodonHIS::CAT) => (Nucleotide::C, Nucleotide::A, Nucleotide::T),
            Codon::His(CodonHIS::CAC) => (Nucleotide::C, Nucleotide::A, Nucleotide::C),
            Codon::Gln(CodonGLN::CAA) => (Nucleotide::C, Nucleotide::A, Nucleotide::A),
            Codon::Gln(CodonGLN::CAG) => (Nucleotide::C, Nucleotide::A, Nucleotide::G),
            Codon::Asn(CodonASN::AAT) => (Nucleotide::A, Nucleotide::A, Nucleotide::T),
            Codon::Asn(CodonASN::AAC) => (Nucleotide::A, Nucleotide::A, Nucleotide::C),
            Codon::Lys(CodonLYS::AAA) => (Nucleotide::A, Nucleotide::A, Nucleotide::A),
            Codon::Lys(CodonLYS::AAG) => (Nucleotide::A, Nucleotide::A, Nucleotide::G),
            Codon::Asp(CodonASP::GAT) => (Nucleotide::G, Nucleotide::A, Nucleotide::T),
            Codon::Asp(CodonASP::GAC) => (Nucleotide::G, Nucleotide::A, Nucleotide::C),
            Codon::Glu(CodonGLU::GAA) => (Nucleotide::G, Nucleotide::A, Nucleotide::A),
            Codon::Glu(CodonGLU::GAG) => (Nucleotide::G, Nucleotide::A, Nucleotide::G),
            Codon::Cys(CodonCYS::TGT) => (Nucleotide::T, Nucleotide::G, Nucleotide::T),
            Codon::Cys(CodonCYS::TGC) => (Nucleotide::T, Nucleotide::G, Nucleotide::C),
            Codon::Trp => (Nucleotide::T, Nucleotide::G, Nucleotide::G),
            Codon::Arg(CodonARG::CGT) => (Nucleotide::C, Nucleotide::G, Nucleotide::T),
            Codon::Arg(CodonARG::CGC) => (Nucleotide::C, Nucleotide::G, Nucleotide::C),
            Codon::Arg(CodonARG::CGA) => (Nucleotide::C, Nucleotide::G, Nucleotide::A),
            Codon::Arg(CodonARG::CGG) => (Nucleotide::C, Nucleotide::G, Nucleotide::G),
            Codon::Arg(CodonARG::AGA) => (Nucleotide::A, Nucleotide::G, Nucleotide::A),
            Codon::Arg(CodonARG::AGG) => (Nucleotide::A, Nucleotide::G, Nucleotide::G),
            Codon::Gly(CodonGLY::GGT) => (Nucleotide::G, Nucleotide::G, Nucleotide::T),
            Codon::Gly(CodonGLY::GGC) => (Nucleotide::G, Nucleotide::G, Nucleotide::C),
            Codon::Gly(CodonGLY::GGA) => (Nucleotide::G, Nucleotide::G, Nucleotide::A),
            Codon::Gly(CodonGLY::GGG) => (Nucleotide::G, Nucleotide::G, Nucleotide::G),
        }
    }

    /// How many synonymous triplets a category has.
    pub open spec fn spec_variant_count(t: CodonType) -> nat {
        match t {
            CodonType::Met => 1,
            CodonType::Stop => 3,
            CodonType::Ala => 4,
            CodonType::Arg => 6,
            CodonType::Asn => 2,
            CodonType::Asp => 2,
            CodonType::Cys => 2,
            CodonType::Gln => 2,
            CodonType::Glu => 2,
            CodonType::Gly => 4,
            CodonType::His => 2,
            CodonType::Ile => 3,
            CodonType::Leu => 6,
            CodonType::Lys => 2,
            CodonType::Phe => 2,
            CodonType::Pro => 4,
            CodonType::Ser => 6,
            CodonType::Thr => 4,
            CodonType::Trp => 1,
            CodonType::Tyr => 2,
            CodonType::Val => 4,
        }
    }

    /// The `i`-th synonymous variant of a category, in a fixed order.
    pub open spec fn spec_nth_variant(t: CodonType, i: int) -> Codon {
        match t {
            CodonType::Met => Codon::Met,
            CodonType::Stop => if i == 0 {
                Codon::Stop(CodonSTOP::TAA)
            } else if i == 1 {
                Codon::Stop(CodonSTOP::TAG)
            } else {
                Codon::Stop(CodonSTOP::TGA)
            },
            CodonType::Ala => if i == 0 {
                Codon::Ala(CodonALA::GCT)
            } else if i == 1 {
                Codon::Ala(CodonALA::GCC)
            } else if i == 2 {
                Codon::Ala(CodonALA::GCA)
            } else {
                Codon::Ala(CodonALA::GCG)
            },
            CodonType::Arg => if i == 0 {
                Codon::Arg(CodonARG::CGT)
            } else if i == 1 {
                Codon::Arg(CodonARG::CGC)
            } else if i == 2 {
                Codon::Arg(CodonARG::CGA)
            } else if i == 3 {
                Codon::Arg(CodonARG::CGG)
            } else if i == 4 {
                Codon::Arg(CodonARG::AGA)
            } else {
                Codon::Arg(CodonARG::AGG)
            },
            CodonType::Asn => if i == 0 {
                Codon::Asn(CodonASN::AAT)
            } else {
                Codon::Asn(CodonASN::AAC)
            },
            CodonType::Asp => if i == 0 {
                Codon::Asp(CodonASP::GAT)
            } else {
                Codon::Asp(CodonASP::GAC)
            },
            CodonType::Cys => if i == 0 {
                Codon::Cys(CodonCYS::TGT)
            } else {
                Codon::Cys(CodonCYS::TGC)
            },
            CodonType::Gln => if i == 0 {
                Codon::Gln(CodonGLN::CAA)
            } else {
                Codon::Gln(CodonGLN::CAG)
            },
            CodonType::Glu => if i == 0 {
                Codon::Glu(CodonGLU::GAA)
            } else {
                Codon::Glu(CodonGLU::GAG)
            },
            CodonType::Gly => if i == 0 {
                Codon::Gly(CodonGLY::GGT)
            } else if i == 1 {
                Codon::Gly(CodonGLY::GGC)
            } else if i == 2 {
                Codon::Gly(CodonGLY::GGA)
            } else {
                Codon::Gly(CodonGLY::GGG)
            },
            CodonType::His => if i == 0 {
                Codon::His(CodonHIS::CAT)
            } else {
                Codon::His(CodonHIS::CAC)
            },
            CodonType::Ile => if i == 0 {
                Codon::Ile(CodonILE::ATT)
            } else if i == 1 {
                Codon::Ile(CodonILE::ATC)
            } else {
                Codon::Ile(CodonILE::ATA)
            },
            CodonType::Leu => if i == 0 {
                Codon::Leu(CodonLEU::TTA)
            } else if i == 1 {
                Codon::Leu(CodonLEU::TTG)
            } else if i == 2 {
                Codon::Leu(CodonLEU::CTT)
            } else if i == 3 {
                Codon::Leu(CodonLEU::CTC)
            } else if i == 4 {
                Codon::Leu(CodonLEU::CTA)
            } else {
                Codon::Leu(CodonLEU::CTG)
            },
            CodonType::Lys => if i == 0 {
                Codon::Lys(CodonLYS::AAA)
            } else {
                Codon::Lys(CodonLYS::AAG)
            },
            CodonType::Phe => if i == 0 {
                Codon::Phe(CodonPHE::TTT)
            } else {
                Codon::Phe(CodonPHE::TTC)
            },
            CodonType::Pro => if i == 0 {
                Codon::Pro(CodonPRO::CCT)
            } else if i == 1 {
                Codon::Pro(CodonPRO::CCC)
            } else if i == 2 {
                Codon::Pro(CodonPRO::CCA)
            } else {
                Codon::Pro(CodonPRO::CCG)
            },
            CodonType::Ser => if i == 0 {
                Codon::Ser(CodonSER::TCT)
            } else if i == 1 {
                Codon::Ser(CodonSER::TCC)
            } else if i == 2 {
                Codon::Ser(CodonSER::TCA)
            } else if i == 3 {
                Codon::Ser(CodonSER::TCG)
            } else if i == 4 {
                Codon::Ser(CodonSER::AGT)
            } else {
                Codon::Ser(CodonSER::AGC)
            },
            CodonType::Thr => if i == 0 {
                Codon::Thr(CodonTHR::ACT)
            } else if i == 1 {
                Codon::Thr(CodonTHR::ACC)
            } else if i == 2 {
                Codon::Thr(CodonTHR::ACA)
            } else {
                Codon::Thr(CodonTHR::ACG)
            },
            CodonType::Trp => Codon::Trp,
            CodonType::Tyr => if i == 0 {
                Codon::Tyr(CodonTYR::TAT)
            } else {
                Codon::Tyr(CodonTYR::TAC)
            },
            CodonType::Val => if i == 0 {
                Codon::Val(CodonVAL::GTT)
            } else if i == 1 {
                Codon::Val(CodonVAL::GTC)
            } else if i == 2 {
                Codon::Val(CodonVAL::GTA)
            } else {
                Codon::Val(CodonVAL::GTG)
            },
        }
    }

    /// The category of this codon.
    pub fn codon_type(&self) -> (t: CodonType)
        ensures
            t == self.spec_codon_type(),
    {
        match self {
            Codon::Met => CodonType::Met,
            Codon::Stop(_) => CodonType::Stop,
            Codon::Ala(_) => CodonType::Ala,
            Codon::Arg(_) => CodonType::Arg,
            Codon::Asn(_) => CodonType::Asn,
            Codon::Asp(_) => CodonType::Asp,
            Codon::Cys(_) => CodonType::Cys,
            Codon::Gln(_) => CodonType::Gln,
            Codon::Glu(_) => CodonType::Glu,
            Codon::Gly(_) => CodonType::Gly,
            Codon::His(_) => CodonType::His,
            Codon::Ile(_) => CodonType::Ile,
            Codon::Leu(_) => CodonType::Leu,
            Codon::Lys(_) => CodonType::Lys,
            Codon::Phe(_) => CodonType::Phe,
            Codon::Pro(_) => CodonType::Pro,
            Codon::Ser(_) => CodonType::Ser,
            Codon::Thr(_) => CodonType::Thr,
            Codon::Trp => CodonType::Trp,
            Codon::Tyr(_) => CodonType::Tyr,
            Codon::Val(_) => CodonType::Val,
        }
    }

    /// Reads a codon from an ordered triplet of nucleotides.
    pub fn from_triplet(n1: Nucleotide, n2: Nucleotide, n3: Nucleotide) -> (c: Codon)
        ensures
            c == Codon::spec_from_triplet(n1, n2, n3),
    {
        match (n1, n2, n3) {
            (Nucleotide::T, Nucleotide::T, Nucleotide::T) => Codon::Phe(CodonPHE::TTT),
            (Nucleotide::T, Nucleotide::T, Nucleotide::C) => Codon::Phe(CodonPHE::TTC),
            (Nucleotide::T, Nucleotide::T, Nucleotide::A) => Codon::Leu(CodonLEU::TTA),
            (Nucleotide::T, Nucleotide::T, Nucleotide::G) => Codon::Leu(CodonLEU::TTG),
            (Nucleotide::C, Nucleotide::T, Nucleotide::T) => Codon::Leu(CodonLEU::CTT),
            (Nucleotide::C, Nucleotide::T, Nucleotide::C) => Codon::Leu(CodonLEU::CTC),
            (Nucleotide::C, Nucleotide::T, Nucleotide::A) => Codon::Leu(CodonLEU::CTA),
            (Nucleotide::C, Nucleotide::T, Nucleotide::G) => Codon::Leu(CodonLEU::CTG),
            (Nucleotide::A, Nucleotide::T, Nucleotide::T) => Codon::Ile(CodonILE::ATT),
            (Nucleotide::A, Nucleotide::T, Nucleotide::C) => Codon::Ile(CodonILE::ATC),
            (Nucleotide::A, Nucleotide::T, Nucleotide::A) => Codon::Ile(CodonILE::ATA),
            (Nucleotide::A, Nucleotide::T, Nucleotide::G) => Codon::Met,
            (Nucleotide::G, Nucleotide::T, Nucleotide::T) => Codon::Val(CodonVAL::GTT),
            (Nucleotide::G, Nucleotide::T, Nucleotide::C) => Codon::Val(CodonVAL::GTC),
            (Nucleotide::G, Nucleotide::T, Nucleotide::A) => Codon::Val(CodonVAL::GTA),
            (Nucleotide::G, Nucleotide::T, Nucleotide::G) => Codon::Val(CodonVAL::GTG),
            (Nucleotide::T, Nucleotide::C, Nucleotide::T) => Codon::Ser(CodonSER::TCT),
            (Nucleotide::T, Nucleotide::C, Nucleotide::C) => Codon::Ser(CodonSER::TCC),
            (Nucleotide::T, Nucleotide::C, Nucleotide::A) => Codon::Ser(CodonSER::TCA),
            (Nucleotide::T, Nucleotide::C, Nucleotide::G) => Codon::Ser(CodonSER::TCG),
            (Nucleotide::C, Nucleotide::C, Nucleotide::T) => Codon::Pro(CodonPRO::CCT),
            (Nucleotide::C, Nucleotide::C, Nucleotide::C) => Codon::Pro(CodonPRO::CCC),
            (Nucleotide::C, Nucleotide::C, Nucleotide::A) => Codon::Pro(CodonPRO::CCA),
            (Nucleotide::C, Nucleotide::C, Nucleotide::G) => Codon::Pro(CodonPRO::CCG),
            (Nucleotide::A, Nucleotide::C, Nucleotide::T) => Codon::Thr(CodonTHR::ACT),
            (Nucleotide::A, Nucleotide::C, Nucleotide::C) => Codon::Thr(CodonTHR::ACC),
            (Nucleotide::A, Nucleotide::C, Nucleotide::A) => Codon::Thr(CodonTHR::ACA),
            (Nucleotide::A, Nucleotide::C, Nucleotide::G) => Codon::Thr(CodonTHR::ACG),
            (Nucleotide::G, Nucleotide::C, Nucleotide::T) => Codon::Ala(CodonALA::GCT),
            (Nucleotide::G, Nucleotide::C, Nucleotide::C) => Codon::Ala(CodonALA::GCC),
            (Nucleotide::G, Nucleotide::C, Nucleotide::A) => Codon::Ala(CodonALA::GCA),
            (Nucleotide::G, Nucleotide::C, Nucleotide::G) => Codon::Ala(CodonALA::GCG),
            (Nucleotide::T, Nucleotide::A, Nucleotide::T) => Codon::Tyr(CodonTYR::TAT),
            (Nucleotide::T, Nucleotide::A, Nucleotide::C) => Codon::Tyr(CodonTYR::TAC),
            (Nucleotide::T, Nucleotide::A, Nucleotide::A) => Codon::Stop(CodonSTOP::TAA),
            (Nucleotide::T, Nucleotide::A, Nucleotide::G) => Codon::Stop(CodonSTOP::TAG),
            (Nucleotide::C, Nucleotide::A, Nucleotide::T) => Codon::His(CodonHIS::CAT),
            (Nucleotide::C, Nucleotide::A, Nucleotide::C) => Codon::His(CodonHIS::CAC),
            (Nucleotide::C, Nucleotide::A, Nucleotide::A) => Codon::Gln(CodonGLN::CAA),
            (Nucleotide::C, Nucleotide::A, Nucleotide::G) => Codon::Gln(CodonGLN::CAG),
            (Nucleotide::A, Nucleotide::A, Nucleotide::T) => Codon::Asn(CodonASN::AAT),
            (Nucleotide::A, Nucleotide::A, Nucleotide::C) => Codon::Asn(CodonASN::AAC),
            (Nucleotide::A, Nucleotide::A, Nucleotide::A) => Codon::Lys(CodonLYS::AAA),
            (Nucleotide::A, Nucleotide::A, Nucleotide::G) => Codon::Lys(CodonLYS::AAG),
            (Nucleotide::G, Nucleotide::A, Nucleotide::T) => Codon::Asp(CodonASP::GAT),
            (Nucleotide::G, Nucleotide::A, Nucleotide::C) => Codon::Asp(CodonASP::GAC),
            (Nucleotide::G, Nucleotide::A, Nucleotide::A) => Codon::Glu(CodonGLU::GAA),
            (Nucleotide::G, Nucleotide::A, Nucleotide::G) => Codon::Glu(CodonGLU::GAG),
            (Nucleotide::T, Nucleotide::G, Nucleotide::T) => Codon::Cys(CodonCYS::TGT),
            (Nucleotide::T, Nucleotide::G, Nucleotide::C) => Codon::Cys(CodonCYS::TGC),
            (Nucleotide::T, Nucleotide::G, Nucleotide::A) => Codon::Stop(CodonSTOP::TGA),
            (Nucleotide::T, Nucleotide::G, Nucleotide::G) => Codon::Trp,
            (Nucleotide::C, Nucleotide::G, Nucleotide::T) => Codon::Arg(CodonARG::CGT),
            (Nucleotide::C, Nucleotide::G, Nucleotide::C) => Codon::Arg(CodonARG::CGC),
            (Nucleotide::C, Nucleotide::G, Nucleotide::A) => Codon::Arg(CodonARG::CGA),
            (Nucleotide::C, Nucleotide::G, Nucleotide::G) => Codon::Arg(CodonARG::CGG),
            (Nucleotide::A, Nucleotide::G, Nucleotide::T) => Codon::Ser(CodonSER::AGT),
            (Nucleotide::A, Nucleotide::G, Nucleotide::C) => Codon::Ser(CodonSER::AGC),
            (Nucleotide::A, Nucleotide::G, Nucleotide::A) => Codon::Arg(CodonARG::AGA),
            (Nucleotide::A, Nucleotide::G, Nucleotide::G) => Codon::Arg(CodonARG::AGG),
            (Nucleotide::G, Nucleotide::G, Nucleotide::T) => Codon::Gly(CodonGLY::GGT),
            (Nucleotide::G, Nucleotide::G, Nucleotide::C) => Codon::Gly(CodonGLY::GGC),
            (Nucleotide::G, Nucleotide::G, Nucleotide::A) => Codon::Gly(CodonGLY::GGA),
            (Nucleotide::G, Nucleotide::G, Nucleotide::G) => Codon::Gly(CodonGLY::GGG),
        }
    }

    /// Reads a codon from the first three nucleotides of a slice, or
    /// nothing when fewer than three are there.
    pub fn from_nucleotides(sequence: &[Nucleotide]) -> (r: Option<Codon>)
        ensures
            sequence@.len() < 3 ==> r is None,
            sequence@.len() >= 3 ==> r == Some(
                Codon::spec_from_triplet(sequence@[0], sequence@[1], sequence@[2]),
            ),
    {
        if sequence.len() < 3 {
            None
        } else {
            Some(Self::from_triplet(sequence[0], sequence[1], sequence[2]))
        }
    }

    /// Expands this codon back to the triplet it stands for.
    pub fn to_nucleotides(&self) -> (r: [Nucleotide; 3])
        ensures
            r@ == spec_triplet_seq(self.spec_to_triplet()),
    {
        match self {
            Codon::Phe(CodonPHE::TTT) => [Nucleotide::T, Nucleotide::T, Nucleotide::T],
            Codon::Phe(CodonPHE::TTC) => [Nucleotide::T, Nucleotide::T, Nucleotide::C],
            Codon::Leu(CodonLEU::TTA) => [Nucleotide::T, Nucleotide::T, Nucleotide::A],
            Codon::Leu(CodonLEU::TTG) => [Nucleotide::T, Nucleotide::T, Nucleotide::G],
            Codon::Leu(CodonLEU::CTT) => [Nucleotide::C, Nucleotide::T, Nucleotide::T],
            Codon::Leu(CodonLEU::CTC) => [Nucleotide::C, Nucleotide::T, Nucleotide::C],
            Codon::Leu(CodonLEU::CTA) => [Nucleotide::C, Nucleotide::T, Nucleotide::A],
            Codon::Leu(CodonLEU::CTG) => [Nucleotide::C, Nucleotide::T, Nucleotide::G],
            Codon::Ile(CodonILE::ATT) => [Nucleotide::A, Nucleotide::T, Nucleotide::T],
            Codon::Ile(CodonILE::ATC) => [Nucleotide::A, Nucleotide::T, Nucleotide::C],
            Codon::Ile(CodonILE::ATA) => [Nucleotide::A, Nucleotide::T, Nucleotide::A],
            Codon::Met => [Nucleotide::A, Nucleotide::T, Nucleotide::G],
            Codon::Val(CodonVAL::GTT) => [Nucleotide::G, Nucleotide::T, Nucleotide::T],
            Codon::Val(CodonVAL::GTC) => [Nucleotide::G, Nucleotide::T, Nucleotide::C],
            Codon::Val(CodonVAL::GTA) => [Nucleotide::G, Nucleotide::T, Nucleotide::A],
            Codon::Val(CodonVAL::GTG) => [Nucleotide::G, Nucleotide::T, Nucleotide::G],
            Codon::Ser(CodonSER::TCT) => [Nucleotide::T, Nucleotide::C, Nucleotide::T],
            Codon::Ser(CodonSER::TCC) => [Nucleotide::T, Nucleotide::C, Nucleotide::C],
            Codon::Ser(CodonSER::TCA) => [Nucleotide::T, Nucleotide::C, Nucleotide::A],
            Codon::Ser(CodonSER::TCG) => [Nucleotide::T, Nucleotide::C, Nucleotide::G],
            Codon::Ser(CodonSER::AGT) => [Nucleotide::A, Nucleotide::G, Nucleotide::T],
            Codon::Ser(CodonSER::AGC) => [Nucleotide::A, Nucleotide::G, Nucleotide::C],
            Codon::Pro(CodonPRO::CCT) => [Nucleotide::C, Nucleotide::C, Nucleotide::T],
            Codon::Pro(CodonPRO::CCC) => [Nucleotide::C, Nucleotide::C, Nucleotide::C],
            Codon::Pro(CodonPRO::CCA) => [Nucleotide::C, Nucleotide::C, Nucleotide::A],
            Codon::Pro(CodonPRO::CCG) => [Nucleotide::C, Nucleotide::C, Nucleotide::G],
            Codon::Thr(CodonTHR::ACT) => [Nucleotide::A, Nucleotide::C, Nucleotide::T],
            Codon::Thr(CodonTHR::ACC) => [Nucleotide::A, Nucleotide::C, Nucleotide::C],
            Codon::Thr(CodonTHR::ACA) => [Nucleotide::A, Nucleotide::C, Nucleotide::A],
            Codon::Thr(CodonTHR::ACG) => [Nucleotide::A, Nucleotide::C, Nucleotide::G],
            Codon::Ala(CodonALA::GCT) => [Nucleotide::G, Nucleotide::C, Nucleotide::T],
            Codon::Ala(CodonALA::GCC) => [Nucleotide::G, Nucleotide::C, Nucleotide::C],
            Codon::Ala(CodonALA::GCA) => [Nucleotide::G, Nucleotide::C, Nucleotide::A],
            Codon::Ala(CodonALA::GCG) => [Nucleotide::G, Nucleotide::C, Nucleotide::G],
            Codon::Tyr(CodonTYR::TAT) => [Nucleotide::T, Nucleotide::A, Nucleotide::T],
            Codon::Tyr(CodonTYR::TAC) => [Nucleotide::T, Nucleotide::A, Nucleotide::C],
            Codon::Stop(CodonSTOP::TAA) => [Nucleotide::T, Nucleotide::A, Nucleotide::A],
            Codon::Stop(CodonSTOP::TAG) => [Nucleotide::T, Nucleotide::A, Nucleotide::G],
            Codon::Stop(CodonSTOP::TGA) => [Nucleotide::T, Nucleotide::G, Nucleotide::A],
            Codon::His(CodonHIS::CAT) => [Nucleotide::C, Nucleotide::A, Nucleotide::T],
            Codon::His(CodonHIS::CAC) => [Nucleotide::C, Nucleotide::A, Nucleotide::C],
            Codon::Gln(CodonGLN::CAA) => [Nucleotide::C, Nucleotide::A, Nucleotide::A],
            Codon::Gln(CodonGLN::CAG) => [Nucleotide::C, Nucleotide::A, Nucleotide::G],
            Codon::Asn(CodonASN::AAT) => [Nucleotide::A, Nucleotide::A, Nucleotide::T],
            Codon::Asn(CodonASN::AAC) => [Nucleotide::A, Nucleotide::A, Nucleotide::C],
            Codon::Lys(CodonLYS::AAA) => [Nucleotide::A, Nucleotide::A, Nucleotide::A],
            Codon::Lys(CodonLYS::AAG) => [Nucleotide::A, Nucleotide::A, Nucleotide::G],
            Codon::Asp(CodonASP::GAT) => [Nucleotide::G, Nucleotide::A, Nucleotide::T],
            Codon::Asp(CodonASP::GAC) => [Nucleotide::G, Nucleotide::A, Nucleotide::C],
            Codon::Glu(CodonGLU::GAA) => [Nucleotide::G, Nucleotide::A, Nucleotide::A],
            Codon::Glu(CodonGLU::GAG) => [Nucleotide::G, Nucleotide::A, Nucleotide::G],
            Codon::Cys(CodonCYS::TGT) => [Nucleotide::T, Nucleotide::G, Nucleotide::T],
            Codon::Cys(CodonCYS::TGC) => [Nucleotide::T, Nucleotide::G, Nucleotide::C],
            Codon::Trp => [Nucleotide::T, Nucleotide::G, Nucleotide::G],
            Codon::Arg(CodonARG::CGT) => [Nucleotide::C, Nucleotide::G, Nucleotide::T],
            Codon::Arg(CodonARG::CGC) => [Nucleotide::C, Nucleotide::G, Nucleotide::C],
            Codon::Arg(CodonARG::CGA) => [Nucleotide::C, Nucleotide::G, Nucleotide::A],
            Codon::Arg(CodonARG::CGG) => [Nucleotide::C, Nucleotide::G, Nucleotide::G],
            Codon::Arg(CodonARG::AGA) => [Nucleotide::A, Nucleotide::G, Nucleotide::A],
            Codon::Arg(CodonARG::AGG) => [Nucleotide::A, Nucleotide::G, Nucleotide::G],
            Codon::Gly(CodonGLY::GGT) => [Nucleotide::G, Nucleotide::G, Nucleotide::T],
            Codon::Gly(CodonGLY::GGC) => [Nucleotide::G, Nucleotide::G, Nucleotide::C],
            Codon::Gly(CodonGLY::GGA) => [Nucleotide::G, Nucleotide::G, Nucleotide::A],
            Codon::Gly(CodonGLY::GGG) => [Nucleotide::G, Nucleotide::G, Nucleotide::G],
        }
    }

    /// How many synonymous triplets a category has: between one and six.
    pub fn variant_count(codon_type: CodonType) -> (n: usize)
        ensures
            n == Self::spec_variant_count(codon_type),
            1 <= n <= 6,
    {
        match codon_type {
            CodonType::Met => 1,
            CodonType::Stop => 3,
            CodonType::Ala => 4,
            CodonType::Arg => 6,
            CodonType::Asn => 2,
            CodonType::Asp => 2,
            CodonType::Cys => 2,
            CodonType::Gln => 2,
            CodonType::Glu => 2,
            CodonType::Gly => 4,
            CodonType::His => 2,
            CodonType::Ile => 3,
            CodonType::Leu => 6,
            CodonType::Lys => 2,
            CodonType::Phe => 2,
            CodonType::Pro => 4,
            CodonType::Ser => 6,
            CodonType::Thr => 4,
            CodonType::Trp => 1,
            CodonType::Tyr => 2,
            CodonType::Val => 4,
        }
    }

    /// The `i`-th synonymous variant of a category, in a fixed order.
    pub fn nth_variant(codon_type: CodonType, i: usize) -> (c: Codon)
        requires
            i < Self::spec_variant_count(codon_type),
        ensures
            c == Self::spec_nth_variant(codon_type, i as int),
            c.spec_codon_type() == codon_type,
    {
        match codon_type {
            CodonType::Met => Codon::Met,
            CodonType::Stop => match i {
                0 => Codon::Stop(CodonSTOP::TAA),
                1 => Codon::Stop(CodonSTOP::TAG),
                _ => Codon::Stop(CodonSTOP::TGA),
            },
            CodonType::Ala => match i {
                0 => Codon::Ala(CodonALA::GCT),
                1 => Codon::Ala(CodonALA::GCC),
                2 => Codon::Ala(CodonALA::GCA),
                _ => Codon::Ala(CodonALA::GCG),
            },
            CodonType::Arg => match i {
                0 => Codon::Arg(CodonARG::CGT),
                1 => Codon::Arg(CodonARG::CGC),
                2 => Codon::Arg(CodonARG::CGA),
                3 => Codon::Arg(CodonARG::CGG),
                4 => Codon::Arg(CodonARG::AGA),
                _ => Codon::Arg(CodonARG::AGG),
            },
            CodonType::Asn => match i {
                0 => Codon::Asn(CodonASN::AAT),
                _ => Codon::Asn(CodonASN::AAC),
            },
            CodonType::Asp => match i {
                0 => Codon::Asp(CodonASP::GAT),
                _ => Codon::Asp(CodonASP::GAC),
            },
            CodonType::Cys => match i {
                0 => Codon::Cys(CodonCYS::TGT),
                _ => Codon::Cys(CodonCYS::TGC),
            },
            CodonType::Gln => match i {
                0 => Codon::Gln(CodonGLN::CAA),
                _ => Codon::Gln(CodonGLN::CAG),
            },
            CodonType::Glu => match i {
                0 => Codon::Glu(CodonGLU::GAA),
                _ => Codon::Glu(CodonGLU::GAG),
            },
            CodonType::Gly => match i {
                0 => Codon::Gly(CodonGLY::GGT),
                1 => Codon::Gly(CodonGLY::GGC),
                2 => Codon::Gly(CodonGLY::GGA),
                _ => Codon::Gly(CodonGLY::GGG),
            },
            CodonType::His => match i {
                0 => Codon::His(CodonHIS::CAT),
                _ => Codon::His(CodonHIS::CAC),
            },
            CodonType::Ile => match i {
                0 => Codon::Ile(CodonILE::ATT),
                1 => Codon::Ile(CodonILE::ATC),
                _ => Codon::Ile(CodonILE::ATA),
            },
            CodonType::Leu => match i {
                0 => Codon::Leu(CodonLEU::TTA),
                1 => Codon::Leu(CodonLEU::TTG),
                2 => Codon::Leu(CodonLEU::CTT),
                3 => Codon::Leu(CodonLEU::CTC),
                4 => Codon::Leu(CodonLEU::CTA),
                _ => Codon::Leu(CodonLEU::CTG),
            },
            CodonType::Lys => match i {
                0 => Codon::Lys(CodonLYS::AAA),
                _ => Codon::Lys(CodonLYS::AAG),
            },
            CodonType::Phe => match i {
                0 => Codon::Phe(CodonPHE::TTT),
                _ => Codon::Phe(CodonPHE::TTC),
            },
            CodonType::Pro => match i {
                0 => Codon::Pro(CodonPRO::CCT),
                1 => Codon::Pro(CodonPRO::CCC),
                2 => Codon::Pro(CodonPRO::CCA),
                _ => Codon::Pro(CodonPRO::CCG),
            },
            CodonType::Ser => match i {
                0 => Codon::Ser(CodonSER::TCT),
                1 => Codon::Ser(CodonSER::TCC),
                2 => Codon::Ser(CodonSER::TCA),
                3 => Codon::Ser(CodonSER::TCG),
                4 => Codon::Ser(CodonSER::AGT),
                _ => Codon::Ser(CodonSER::AGC),
            },
            CodonType::Thr => match i {
                0 => Codon::Thr(CodonTHR::ACT),
                1 => Codon::Thr(CodonTHR::ACC),
                2 => Codon::Thr(CodonTHR::ACA),
                _ => Codon::Thr(CodonTHR::ACG),
            },
            CodonType::Trp => Codon::Trp,
            CodonType::Tyr => match i {
                0 => Codon::Tyr(CodonTYR::TAT),
                _ => Codon::Tyr(CodonTYR::TAC),
            },
            CodonType::Val => match i {
                0 => Codon::Val(CodonVAL::GTT),
                1 => Codon::Val(CodonVAL::GTC),
                2 => Codon::Val(CodonVAL::GTA),
                _ => Codon::Val(CodonVAL::GTG),
            },
        }
    }

    /// A codon of the given category, its synonymous variant drawn
    /// uniformly from the process-wide random number generator; categories
    /// with a single variant always return that variant.
    pub fn random_from_type(codon_type: CodonType) -> (c: Codon)
        ensures
            c.spec_codon_type() == codon_type,
            Self::spec_variant_count(codon_type) == 1 ==> c == Self::spec_nth_variant(
                codon_type,
                0,
            ),
    {
        let n = Self::variant_count(codon_type);
        let i = crate::entropy::random_below(n as u32);
        Self::nth_variant(codon_type, i as usize)
    }
}

/// The triplet of a codon as a sequence of three nucleotides.
pub open spec fn spec_triplet_seq(t: (Nucleotide, Nucleotide, Nucleotide)) -> Seq<Nucleotide> {
    seq![t.0, t.1, t.2]
}

/// Reading a codon from any triplet and expanding it back gives the
/// original triplet.
pub proof fn lemma_triplet_round_trip(n1: Nucleotide, n2: Nucleotide, n3: Nucleotide)
    ensures
        Codon::spec_from_triplet(n1, n2, n3).spec_to_triplet() == (n1, n2, n3),
{
}

/// Expanding any codon variant and reading it back gives the original
/// codon: together with [`lemma_triplet_round_trip`] the table is a
/// bijection over all 64 triplets.
proof fn lemma_round_trip_phe(v: CodonPHE)
    ensures
        Codon::spec_from_triplet(
            Codon::Phe(v).spec_to_triplet().0,
            Codon::Phe(v).spec_to_triplet().1,
            Codon::Phe(v).spec_to_triplet().2,
        ) == Codon::Phe(v),
{
}

proof fn lemma_round_trip_leu(v: CodonLEU)
    ensures
        Codon::spec_from_triplet(
            Codon::Leu(v).spec_to_triplet().0,
            Codon::Leu(v).spec_to_triplet().1,
            Codon::Leu(v).spec_to_triplet().2,
        ) == Codon::Leu(v),
{
}

proof fn lemma_round_trip_ile(v: CodonILE)
    ensures
        Codon::spec_from_triplet(
            Codon::Ile(v).spec_to_triplet().0,
            Codon::Ile(v).spec_to_triplet().1,
            Codon::Ile(v).spec_to_triplet().2,
        ) == Codon::Ile(v),
{
}

proof fn lemma_round_trip_val(v: CodonVAL)
    ensures
        Codon::spec_from_triplet(
            Codon::Val(v).spec_to_triplet().0,
            Codon::Val(v).spec_to_triplet().1,
            Codon::Val(v).spec_to_triplet().2,
        ) == Codon::Val(v),
{
}

proof fn lemma_round_trip_ser(v: CodonSER)
    ensures
        Codon::spec_from_triplet(
            Codon::Ser(v).spec_to_triplet().0,
            Codon::Ser(v).spec_to_triplet().1,
            Codon::Ser(v).spec_to_triplet().2,
        ) == Codon::Ser(v),
{
}

proof fn lemma_round_trip_pro(v: CodonPRO)
    ensures
        Codon::spec_from_triplet(
            Codon::Pro(v).spec_to_triplet().0,
            Codon::Pro(v).spec_to_triplet().1,
            Codon::Pro(v).spec_to_triplet().2,
        ) == Codon::Pro(v),
{
}

proof fn lemma_round_trip_thr(v: CodonTHR)
    ensures
        Codon::spec_from_triplet(
            Codon::Thr(v).spec_to_triplet().0,
            Codon::Thr(v).spec_to_triplet().1,
            Codon::Thr(v).spec_to_triplet().2,
        ) == Codon::Thr(v),
{
}

proof fn lemma_round_trip_ala(v: CodonALA)
    ensures
        Codon::spec_from_triplet(
            Codon::Ala(v).spec_to_triplet().0,
            Codon::Ala(v).spec_to_triplet().1,
            Codon::Ala(v).spec_to_triplet().2,
        ) == Codon::Ala(v),
{
}

proof fn lemma_round_trip_tyr(v: CodonTYR)
    ensures
        Codon::spec_from_triplet(
            Codon::Tyr(v).spec_to_triplet().0,
            Codon::Tyr(v).spec_to_triplet().1,
            Codon::Tyr(v).spec_to_triplet().2,
        ) == Codon::Tyr(v),
{
}

proof fn lemma_round_trip_stop(v: CodonSTOP)
    ensures
        Codon::spec_from_triplet(
            Codon::Stop(v).spec_to_triplet().0,
            Codon::Stop(v).spec_to_triplet().1,
            Codon::Stop(v).spec_to_triplet().2,
        ) == Codon::Stop(v),
{
}

proof fn lemma_round_trip_his(v: CodonHIS)
    ensures
        Codon::spec_from_triplet(
            Codon::His(v).spec_to_triplet().0,
            Codon::His(v).spec_to_triplet().1,
            Codon::His(v).spec_to_triplet().2,
        ) == Codon::His(v),
{
}

proof fn lemma_round_trip_gln(v: CodonGLN)
    ensures
        Codon::spec_from_triplet(
            Codon::Gln(v).spec_to_triplet().0,
            Codon::Gln(v).spec_to_triplet().1,
            Codon::Gln(v).spec_to_triplet().2,
        ) == Codon::Gln(v),
{
}

proof fn lemma_round_trip_asn(v: CodonASN)
    ensures
        Codon::spec_from_triplet(
            Codon::Asn(v).spec_to_triplet().0,
            Codon::Asn(v).spec_to_triplet().1,
            Codon::Asn(v).spec_to_triplet().2,
        ) == Codon::Asn(v),
{
}

proof fn lemma_round_trip_lys(v: CodonLYS)
    ensures
        Codon::spec_from_triplet(
            Codon::Lys(v).spec_to_triplet().0,
            Codon::Lys(v).spec_to_triplet().1,
            Codon::Lys(v).spec_to_triplet().2,
        ) == Codon::Lys(v),
{
}

proof fn lemma_round_trip_asp(v: CodonASP)
    ensures
        Codon::spec_from_triplet(
            Codon::Asp(v).spec_to_triplet().0,
            Codon::Asp(v).spec_to_triplet().1,
            Codon::Asp(v).spec_to_triplet().2,
        ) == Codon::Asp(v),
{
}

proof fn lemma_round_trip_glu(v: CodonGLU)
    ensures
        Codon::spec_from_triplet(
            Codon::Glu(v).spec_to_triplet().0,
            Codon::Glu(v).spec_to_triplet().1,
            Codon::Glu(v).spec_to_triplet().2,
        ) == Codon::Glu(v),
{
}

proof fn lemma_round_trip_cys(v: CodonCYS)
    ensures
        Codon::spec_from_triplet(
            Codon::Cys(v).spec_to_triplet().0,
            Codon::Cys(v).spec_to_triplet().1,
            Codon::Cys(v).spec_to_triplet().2,
        ) == Codon::Cys(v),
{
}

proof fn lemma_round_trip_arg(v: CodonARG)
    ensures
        Codon::spec_from_triplet(
            Codon::Arg(v).spec_to_triplet().0,
            Codon::Arg(v).spec_to_triplet().1,
            Codon::Arg(v).spec_to_triplet().2,
        ) == Codon::Arg(v),
{
}

proof fn lemma_round_trip_gly(v: CodonGLY)
    ensures
        Codon::spec_from_triplet(
            Codon::Gly(v).spec_to_triplet().0,
            Codon::Gly(v).spec_to_triplet().1,
            Codon::Gly(v).spec_to_triplet().2,
        ) == Codon::Gly(v),
{
}

/// Expanding any codon variant and reading it back gives the original
/// codon: together with [`lemma_triplet_round_trip`] the table is a
/// bijection over all 64 triplets.
pub proof fn lemma_codon_round_trip(c: Codon)
    ensures
        Codon::spec_from_triplet(
            c.spec_to_triplet().0,
            c.spec_to_triplet().1,
            c.spec_to_triplet().2,
        ) == c,
{
    match c {
        Codon::Phe(v) => lemma_round_trip_phe(v),
        Codon::Leu(v) => lemma_round_trip_leu(v),
        Codon::Ile(v) => lemma_round_trip_ile(v),
        Codon::Met => {
            assert(Codon::spec_from_triplet(
            Codon::Met.spec_to_triplet().0,
            Codon::Met.spec_to_triplet().1,
            Codon::Met.spec_to_triplet().2,
        ) == Codon::Met);
        },
        Codon::Val(v) => lemma_round_trip_val(v),
        Codon::Ser(v) => lemma_round_trip_ser(v),
        Codon::Pro(v) => lemma_round_trip_pro(v),
        Codon::Thr(v) => lemma_round_trip_thr(v),
        Codon::Ala(v) => lemma_round_trip_ala(v),
        Codon::Tyr(v) => lemma_round_trip_tyr(v),
        Codon::Stop(v) => lemma_round_trip_stop(v),
        Codon::His(v) => lemma_round_trip_his(v),
        Codon::Gln(v) => lemma_round_trip_gln(v),
        Codon::Asn(v) => lemma_round_trip_asn(v),
        Codon::Lys(v) => lemma_round_trip_lys(v),
        Codon::Asp(v) => lemma_round_trip_asp(v),
        Codon::Glu(v) => lemma_round_trip_glu(v),
        Codon::Cys(v) => lemma_round_trip_cys(v),
        Codon::Trp => {
            assert(Codon::spec_from_triplet(
            Codon::Trp.spec_to_triplet().0,
            Codon::Trp.spec_to_triplet().1,
            Codon::Trp.spec_to_triplet().2,
        ) == Codon::Trp);
        },
        Codon::Arg(v) => lemma_round_trip_arg(v),
        Codon::Gly(v) => lemma_round_trip_gly(v),
    }
}

/// No two distinct triplets map to the same codon variant.
pub proof fn lemma_table_injective(
    a1: Nucleotide,
    a2: Nucleotide,
    a3: Nucleotide,
    b1: Nucleotide,
    b2: Nucleotide,
    b3: Nucleotide,
)
    ensures
        Codon::spec_from_triplet(a1, a2, a3) == Codon::spec_from_triplet(b1, b2, b3) ==> (a1, a2,
        a3) == (b1, b2, b3),
{
    if Codon::spec_from_triplet(a1, a2, a3) == Codon::spec_from_triplet(b1, b2, b3) {
        lemma_triplet_round_trip(a1, a2, a3);
        lemma_triplet_round_trip(b1, b2, b3);
    }
}

/// Every variant of a category belongs to that category.
pub proof fn lemma_nth_variant_category(t: CodonType, i: int)
    requires
        0 <= i < Codon::spec_variant_count(t),
    ensures
        Codon::spec_nth_variant(t, i).spec_codon_type() == t,
{
}

impl CodonType {
    /// The categories that identify a gene type, in a fixed order: the 19
    /// categories that carry a sub-variant slot in the table ordering used
    /// here (all but Met and Stop).
    pub open spec fn spec_identifying_type(digit: int) -> CodonType {
        if digit == 0 {
            CodonType::Ala
        } else if digit == 1 {
            CodonType::Arg
        } else if digit == 2 {
            CodonType::Asn
        } else if digit == 3 {
            CodonType::Asp
        } else if digit == 4 {
            CodonType::Cys
        } else if digit == 5 {
            CodonType::Gln
        } else if digit == 6 {
            CodonType::Glu
        } else if digit == 7 {
            CodonType::Gly
        } else if digit == 8 {
            CodonType::His
        } else if digit == 9 {
            CodonType::Ile
        } else if digit == 10 {
            CodonType::Leu
        } else if digit == 11 {
            CodonType::Lys
        } else if digit == 12 {
            CodonType::Phe
        } else if digit == 13 {
            CodonType::Pro
        } else if digit == 14 {
            CodonType::Ser
        } else if digit == 15 {
            CodonType::Thr
        } else if digit == 16 {
            CodonType::Trp
        } else if digit == 17 {
            CodonType::Tyr
        } else {
            CodonType::Val
        }
    }

    /// The mixed-radix decomposition of `value` into `length` digits base
    /// 19, most significant digit first, each digit naming an identifying
    /// category.
    pub open spec fn spec_gene_type_id(value: int, length: nat) -> Seq<CodonType>
        decreases length,
    {
        if length == 0 {
            Seq::empty()
        } else {
            CodonType::spec_gene_type_id(value / 19, (length - 1) as nat).push(
                CodonType::spec_identifying_type(value % 19),
            )
        }
    }

    /// The identifying category named by a digit in `[0, 19)`.
    pub fn identifying_type(digit: u32) -> (t: CodonType)
        requires
            digit < 19,
        ensures
            t == CodonType::spec_identifying_type(digit as int),
    {
        match digit {
            0 => CodonType::Ala,
            1 => CodonType::Arg,
            2 => CodonType::Asn,
            3 => CodonType::Asp,
            4 => CodonType::Cys,
            5 => CodonType::Gln,
            6 => CodonType::Glu,
            7 => CodonType::Gly,
            8 => CodonType::His,
            9 => CodonType::Ile,
            10 => CodonType::Leu,
            11 => CodonType::Lys,
            12 => CodonType::Phe,
            13 => CodonType::Pro,
            14 => CodonType::Ser,
            15 => CodonType::Thr,
            16 => CodonType::Trp,
            17 => CodonType::Tyr,
            _ => CodonType::Val,
        }
    }

    /// Derives a stable category sequence from a numeric id: `length`
    /// digits base 19, most significant first.
    pub fn gene_type_id(value: u32, length: u8) -> (r: Vec<CodonType>)
        ensures
            r@ == CodonType::spec_gene_type_id(value as int, length as nat),
            r@.len() == length,
        decreases length,
    {
        if length == 0 {
            Vec::new()
        } else {
            let mut r = Self::gene_type_id(value / 19, length - 1);
            r.push(Self::identifying_type(value % 19));
            r
        }
    }
}

} // verus!
