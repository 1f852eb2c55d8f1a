//! A configuration table holding one value per codon category, looked up
//! by the category of a codon: the 21 weights a simulation assigns to the
//! categories.

use vstd::prelude::*;

use crate::codon::{Codon, CodonType};

verus! {

/// One value per codon category.
#[derive(Debug, Clone)]
pub struct CodonValueConfig<V: Copy> {
    pub met: V,
    pub stop: V,
    pub ala: V,
    pub arg: V,
    pub asn: V,
    pub asp: V,
    pub cys: V,
    pub gln: V,
    pub glu: V,
    pub gly: V,
    pub his: V,
    pub ile: V,
    pub leu: V,
    pub lys: V,
    pub phe: V,
    pub pro: V,
    pub ser: V,
    pub thr: V,
    pub trp: V,
    pub tyr: V,
    pub val: V,
}

impl<V: Copy> CodonValueConfig<V> {
    /// The value assigned to a category.
    pub open spec fn spec_value_of(self, t: CodonType) -> V {
        match t {
            CodonType::Met => self.met,
            CodonType::Stop => self.stop,
            CodonType::Ala => self.ala,
            CodonType::Arg => self.arg,
            CodonType::Asn => self.asn,
            CodonType::Asp => self.asp,
            CodonType::Cys => self.cys,
            CodonType::Gln => self.gln,
            CodonType::Glu => self.glu,
            CodonType::Gly => self.gly,
            CodonType::His => self.his,
            CodonType::Ile => self.ile,
            CodonType::Leu => self.leu,
            CodonType::Lys => self.lys,
            CodonType::Phe => self.phe,
            CodonType::Pro => self.pro,
            CodonType::Ser => self.ser,
            CodonType::Thr => self.thr,
            CodonType::Trp => self.trp,
            CodonType::Tyr => self.tyr,
            CodonType::Val => self.val,
        }
    }

    /// Looks up the value assigned to a codon's category, whichever
    /// synonymous triplet the codon was read from.
    pub fn get_value(&self, codon: Codon) -> (r: V)
        ensures
            r == self.spec_value_of(codon.spec_codon_type()),
    {
        match codon {
            Codon::Met => self.met,
            Codon::Stop(_) => self.stop,
            Codon::Ala(_) => self.ala,
            Codon::Arg(_) => self.arg,
            Codon::Asn(_) => self.asn,
            Codon::Asp(_) => self.asp,
            Codon::Cys(_) => self.cys,
            Codon::Gln(_) => self.gln,
            Codon::Glu(_) => self.glu,
            Codon::Gly(_) => self.gly,
            Codon::His(_) => self.his,
            Codon::Ile(_) => self.ile,
            Codon::Leu(_) => self.leu,
            Codon::Lys(_) => self.lys,
            Codon::Phe(_) => self.phe,
            Codon::Pro(_) => self.pro,
            Codon::Ser(_) => self.ser,
            Codon::Thr(_) => self.thr,
            Codon::Trp => self.trp,
            Codon::Tyr(_) => self.tyr,
            Codon::Val(_) => self.val,
        }
    }
}

} // verus!
