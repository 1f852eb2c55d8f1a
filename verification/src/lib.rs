//! A verified codec for nucleotide sequences: a 4-symbol alphabet with a
//! 2-bit wire code, a bit-packed binary encoding of arbitrary-length
//! sequences, the standard genetic-code table mapping symbol triplets to
//! codons, and a codon-sequence layer composed of both, with proved
//! round-trip guarantees.

pub mod codon;
pub mod codon_sequence;
pub mod codon_value_config;
pub mod entropy;
pub mod gene_type;
pub mod nucleotide;
pub mod nucleotide_sequence;
