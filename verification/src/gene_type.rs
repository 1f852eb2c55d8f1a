//! The closed set of gene types known to the simulation, each identified
//! by a stable category sequence derived from a small numeric id.

use vstd::prelude::*;

use crate::codon::CodonType;

verus! {

/// A kind of gene the simulation can carry.
#[derive(Debug, Copy, Clone, PartialEq, Eq, Hash, Structural)]
pub enum GeneType {
    Color,
}

impl GeneType {
    /// The category sequence identifying this gene type.
    pub open spec fn spec_id_sequence(self) -> Seq<CodonType> {
        match self {
            GeneType::Color => CodonType::spec_gene_type_id(0, 1),
        }
    }

    /// Derives the category sequence identifying this gene type.
    pub fn id_sequence(&self) -> (r: Vec<CodonType>)
        ensures
            r@ == self.spec_id_sequence(),
    {
        match self {
            GeneType::Color => CodonType::gene_type_id(0, 1),
        }
    }
}

} // verus!
