//! The 4-valued nucleotide alphabet and its fixed 2-bit wire code.

use vstd::prelude::*;

verus! {

/// One symbol of the nucleotide alphabet. The 2-bit wire code assigned by
/// [`Nucleotide::spec_code`] is part of the binary format and must not change.
#[derive(Debug, Copy, Clone, PartialEq, Eq, Hash, Structural)]
pub enum Nucleotide {
    A,
    T,
    G,
    C,
}

impl Nucleotide {
    /// The canonical 2-bit code of each symbol: A is 0, T is 1, G is 2, C is 3.
    pub open spec fn spec_code(self) -> u8 {
        match self {
            Nucleotide::A => 0,
            Nucleotide::T => 1,
            Nucleotide::G => 2,
            Nucleotide::C => 3,
        }
    }

    /// The symbol denoted by the low 2 bits of a byte; higher bits are ignored.
    pub open spec fn spec_from_code(code: u8) -> Nucleotide {
        if code % 4 == 0 {
            Nucleotide::A
        } else if code % 4 == 1 {
            Nucleotide::T
        } else if code % 4 == 2 {
            Nucleotide::G
        } else {
            Nucleotide::C
        }
    }

    /// The complementary symbol: A pairs with T, G pairs with C.
    pub open spec fn spec_complement(self) -> Nucleotide {
        match self {
            Nucleotide::A => Nucleotide::T,
            Nucleotide::T => Nucleotide::A,
            Nucleotide::G => Nucleotide::C,
            Nucleotide::C => Nucleotide::G,
        }
    }

    /// Returns the 2-bit wire code of this symbol.
    pub fn code(self) -> (c: u8)
        ensures
            c == self.spec_code(),
    {
        match self {
            Nucleotide::A => 0,
            Nucleotide::T => 1,
            Nucleotide::G => 2,
            Nucleotide::C => 3,
        }
    }

    /// Returns the complementary symbol.
    pub fn complement(self) -> (r: Self)
        ensures
            r == self.spec_complement(),
    {
        match self {
            Nucleotide::A => Nucleotide::T,
            Nucleotide::T => Nucleotide::A,
            Nucleotide::G => Nucleotide::C,
            Nucleotide::C => Nucleotide::G,
        }
    }
}

impl From<u8> for Nucleotide {
    /// Reads a symbol from the low 2 bits of a byte, ignoring the rest.
    fn from(value: u8) -> (r: Self) {
        match value % 4 {
            0 => Nucleotide::A,
            1 => Nucleotide::T,
            2 => Nucleotide::G,
            _ => Nucleotide::C,
        }
    }
}

impl vstd::std_specs::convert::FromSpecImpl<u8> for Nucleotide {
    open spec fn obeys_from_spec() -> bool {
        true
    }

    open spec fn from_spec(v: u8) -> Nucleotide {
        Nucleotide::spec_from_code(v)
    }
}

/// Taking the complement twice gives back the original symbol, and no symbol
/// is its own complement, so the four symbols fall into two disjoint pairs.
pub proof fn lemma_complement_involution(s: Nucleotide)
    ensures
        s.spec_complement().spec_complement() == s,
        s.spec_complement() != s,
{
}

/// Every symbol is recovered from its own wire code.
pub proof fn lemma_code_round_trip(s: Nucleotide)
    ensures
        Nucleotide::spec_from_code(s.spec_code()) == s,
{
}

} // verus!
