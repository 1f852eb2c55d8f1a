//! The codon-sequence layer: groups a nucleotide sequence into codons via
//! the genetic-code table, keeping the 0 to 2 trailing nucleotides that
//! cannot form a full triplet, and derives its binary form by expanding
//! back to nucleotides and delegating to the sequence codec.

use vstd::arithmetic::div_mod::{lemma_fundamental_div_mod, lemma_fundamental_div_mod_converse};
use vstd::prelude::*;

use crate::codon::{lemma_codon_round_trip, Codon};
use crate::nucleotide::Nucleotide;
use crate::nucleotide_sequence::{
    lemma_sequence_codec_round_trip, nucleotide_slices_equal, spec_bit_string, spec_code_string,
    spec_decode, spec_encode, NucleotideSequence,
};

verus! {

/// The nucleotide at position `k` of a codon's triplet.
pub open spec fn triplet_at(c: Codon, k: int) -> Nucleotide {
    if k == 0 {
        c.spec_to_triplet().0
    } else if k == 1 {
        c.spec_to_triplet().1
    } else {
        c.spec_to_triplet().2
    }
}

/// Every codon of a list expanded back to its triplet, in order.
pub open spec fn spec_expand(codons: Seq<Codon>) -> Seq<Nucleotide> {
    Seq::new(3 * codons.len(), |i: int| triplet_at(codons[i / 3], i % 3))
}

/// The codons read from the consecutive non-overlapping triplets of a
/// sequence, in order.
pub open spec fn spec_codons_of(s: Seq<Nucleotide>) -> Seq<Codon> {
    Seq::new(s.len() / 3, |j: int| Codon::spec_from_triplet(s[3 * j], s[3 * j + 1], s[3 * j + 2]))
}

/// The 0 to 2 trailing nucleotides of a sequence that cannot form another
/// triplet, unchanged and in order.
pub open spec fn spec_remainder_of(s: Seq<Nucleotide>) -> Seq<Nucleotide> {
    s.skip(3 * (s.len() / 3) as int)
}

/// An ordered list of codons plus the trailing nucleotides left over after
/// grouping by three.
#[derive(Debug, Clone)]
pub struct CodonSequence {
    sequence: Vec<Codon>,
    remainder: Vec<Nucleotide>,
}

impl PartialEq for CodonSequence {
    fn eq(&self, other: &Self) -> bool {
        codon_slices_equal(self.sequence.as_slice(), other.sequence.as_slice())
            && nucleotide_slices_equal(self.remainder.as_slice(), other.remainder.as_slice())
    }
}

impl vstd::std_specs::cmp::PartialEqSpecImpl for CodonSequence {
    open spec fn obeys_eq_spec() -> bool {
        true
    }

    open spec fn eq_spec(&self, other: &Self) -> bool {
        self.spec_codons() == other.spec_codons() && self.spec_remainder()
            == other.spec_remainder()
    }
}

/// Whether two codon slices hold the same codons in the same order.
pub fn codon_slices_equal(a: &[Codon], b: &[Codon]) -> (r: bool)
    ensures
        r == (a@ == b@),
{
    if a.len() != b.len() {
        return false;
    }
    let mut i: usize = 0;
    while i < a.len()
        invariant
            a@.len() == b@.len(),
            i <= a@.len(),
            forall|k: int| 0 <= k < i ==> a@[k] == b@[k],
        decreases a@.len() - i,
    {
        if a[i] != b[i] {
            return false;
        }
        i += 1;
    }
    proof {
        assert(a@ =~= b@);
    }
    true
}

impl CodonSequence {
    /// The codons of this sequence, in order.
    pub closed spec fn spec_codons(self) -> Seq<Codon> {
        self.sequence@
    }

    /// The trailing nucleotides that could not form a triplet.
    pub closed spec fn spec_remainder(self) -> Seq<Nucleotide> {
        self.remainder@
    }

    /// The remainder is always shorter than a triplet.
    pub open spec fn well_formed(self) -> bool {
        self.spec_remainder().len() < 3
    }

    /// The full nucleotide sequence this value stands for: every codon's
    /// triplet in order, followed by the remainder.
    pub open spec fn spec_nucleotides(self) -> Seq<Nucleotide> {
        spec_expand(self.spec_codons()) + self.spec_remainder()
    }

    /// Wraps an ordered list of codons and a remainder of at most two
    /// nucleotides.
    pub fn new(sequence: Vec<Codon>, remainder: Vec<Nucleotide>) -> (r: Self)
        requires
            remainder@.len() < 3,
        ensures
            r.spec_codons() == sequence@,
            r.spec_remainder() == remainder@,
            r.well_formed(),
    {
        Self { sequence, remainder }
    }

    /// The codons of this sequence, in order.
    pub fn get_sequence(&self) -> (r: &[Codon])
        ensures
            r@ == self.spec_codons(),
    {
        self.sequence.as_slice()
    }

    /// Groups a nucleotide sequence into consecutive non-overlapping
    /// triplets in original order, converts each via the genetic-code
    /// table, and keeps the 0 to 2 trailing nucleotides as the remainder.
    /// Three times the codon count plus the remainder length always equals
    /// the input length.
    pub fn from_nucleotides(nucleotides: &[Nucleotide]) -> (r: Self)
        ensures
            r.spec_codons() == spec_codons_of(nucleotides@),
            r.spec_remainder() == spec_remainder_of(nucleotides@),
            r.well_formed(),
            3 * r.spec_codons().len() + r.spec_remainder().len() == nucleotides@.len(),
    {
        let len = nucleotides.len();
        let codon_count = len / 3;
        proof {
            lemma_fundamental_div_mod(len as int, 3);
        }
        let mut sequence: Vec<Codon> = Vec::new();
        let mut j: usize = 0;
        while j < codon_count
            invariant
                len == nucleotides@.len(),
                codon_count == len as int / 3,
                3 * codon_count <= len,
                j <= codon_count,
                sequence@.len() == j,
                forall|k: int| 0 <= k < j ==> sequence@[k] == spec_codons_of(nucleotides@)[k],
            decreases codon_count - j,
        {
            let c = Codon::from_triplet(
                nucleotides[3 * j],
                nucleotides[3 * j + 1],
                nucleotides[3 * j + 2],
            );
            sequence.push(c);
            j += 1;
        }
        let mut remainder: Vec<Nucleotide> = Vec::new();
        let mut t: usize = 3 * codon_count;
        while t < len
            invariant
                len == nucleotides@.len(),
                codon_count == len as int / 3,
                3 * codon_count <= t <= len,
                remainder@ == nucleotides@.subrange(3 * codon_count as int, t as int),
            decreases len - t,
        {
            remainder.push(nucleotides[t]);
            t += 1;
        }
        proof {
            assert(sequence@ =~= spec_codons_of(nucleotides@));
            assert(remainder@ =~= spec_remainder_of(nucleotides@));
        }
        Self { sequence, remainder }
    }

    /// Expands every codon back to its triplet, in codon order, and appends
    /// the remainder.
    pub fn to_nucleotides(&self) -> (r: Vec<Nucleotide>)
        ensures
            r@ == self.spec_nucleotides(),
    {
        let codon_count = self.sequence.len();
        let mut nucleotides: Vec<Nucleotide> = Vec::new();
        let mut j: usize = 0;
        while j < codon_count
            invariant
                codon_count == self.spec_codons().len(),
                j <= codon_count,
                nucleotides@ == spec_expand(self.spec_codons()).take(3 * j as int),
            decreases codon_count - j,
        {
            let t = self.sequence[j].to_nucleotides();
            nucleotides.push(t[0]);
            nucleotides.push(t[1]);
            nucleotides.push(t[2]);
            proof {
                lemma_fundamental_div_mod_converse(3 * j as int, 3, j as int, 0);
                lemma_fundamental_div_mod_converse(3 * j as int + 1, 3, j as int, 1);
                lemma_fundamental_div_mod_converse(3 * j as int + 2, 3, j as int, 2);
                assert(nucleotides@ =~= spec_expand(self.spec_codons()).take(3 * (j + 1) as int));
            }
            j += 1;
        }
        let rem_len = self.remainder.len();
        let mut t: usize = 0;
        while t < rem_len
            invariant
                codon_count == self.spec_codons().len(),
                rem_len == self.spec_remainder().len(),
                t <= rem_len,
                nucleotides@ == spec_expand(self.spec_codons()) + self.spec_remainder().take(
                    t as int,
                ),
            decreases rem_len - t,
        {
            nucleotides.push(self.remainder[t]);
            proof {
                assert(spec_expand(self.spec_codons()) + self.spec_remainder().take(t + 1)
                    =~= (spec_expand(self.spec_codons()) + self.spec_remainder().take(
                    t as int,
                )).push(self.spec_remainder()[t as int]));
            }
            t += 1;
        }
        proof {
            assert(nucleotides@ =~= self.spec_nucleotides());
        }
        nucleotides
    }

    /// Encodes this sequence by expanding it to nucleotides and delegating
    /// to the sequence codec; there is no independent bit layout.
    pub fn to_bytes(&self) -> (bytes: Vec<u8>)
        requires
            self.spec_nucleotides().len() + 3 <= usize::MAX,
        ensures
            bytes@ == spec_encode(self.spec_nucleotides()),
    {
        let nucleotides = self.to_nucleotides();
        let ns = NucleotideSequence::new(nucleotides);
        ns.get_bytes()
    }

    /// Decodes a binary buffer through the sequence codec and groups the
    /// result into codons and remainder.
    pub fn from_bytes(bytes: &[u8]) -> (r: Self)
        requires
            bytes@.len() <= 1 || bytes@[0] <= 3,
        ensures
            r.spec_codons() == spec_codons_of(spec_decode(bytes@)),
            r.spec_remainder() == spec_remainder_of(spec_decode(bytes@)),
            r.well_formed(),
    {
        let ns = NucleotideSequence::from_bytes(bytes);
        Self::from_nucleotides(ns.get_sequence())
    }

    /// A sequence of the given codon count built from three times as many
    /// random nucleotides; the remainder of a sequence built this way is
    /// always empty.
    pub fn random(length: u32) -> (r: Self)
        ensures
            r.spec_codons().len() == length,
            r.spec_remainder().len() == 0,
    {
        let ns = NucleotideSequence::random(length as u64 * 3);
        let r = Self::from_nucleotides(ns.get_sequence());
        proof {
            lemma_fundamental_div_mod_converse(3 * length as int, 3, length as int, 0);
        }
        r
    }

    /// The binary rendering of the data bytes of this sequence's encoding.
    pub fn get_bit_string(&self) -> (r: String)
        requires
            self.spec_nucleotides().len() + 3 <= usize::MAX,
        ensures
            r@ == spec_bit_string(self.spec_nucleotides()),
    {
        let nucleotides = self.to_nucleotides();
        let ns = NucleotideSequence::new(nucleotides);
        ns.get_bit_string()
    }

    /// The decimal digits of this sequence's nucleotide codes, in order.
    pub fn get_code_string(&self) -> (r: String)
        ensures
            r@ == spec_code_string(self.spec_nucleotides()),
    {
        let nucleotides = self.to_nucleotides();
        let ns = NucleotideSequence::new(nucleotides);
        ns.get_code_string()
    }
}

/// Grouping the expansion of any codon list plus any remainder shorter
/// than a triplet gives back exactly that list and that remainder.
pub proof fn lemma_grouping_round_trip(codons: Seq<Codon>, remainder: Seq<Nucleotide>)
    requires
        remainder.len() < 3,
    ensures
        spec_codons_of(spec_expand(codons) + remainder) == codons,
        spec_remainder_of(spec_expand(codons) + remainder) == remainder,
{
    let s = spec_expand(codons) + remainder;
    let c = codons.len() as int;
    lemma_fundamental_div_mod_converse(s.len() as int, 3, c, remainder.len() as int);
    assert forall|j: int| 0 <= j < c implies spec_codons_of(s)[j] == codons[j] by {
        lemma_fundamental_div_mod_converse(3 * j, 3, j, 0);
        lemma_fundamental_div_mod_converse(3 * j + 1, 3, j, 1);
        lemma_fundamental_div_mod_converse(3 * j + 2, 3, j, 2);
        assert(s[3 * j] == codons[j].spec_to_triplet().0);
        assert(s[3 * j + 1] == codons[j].spec_to_triplet().1);
        assert(s[3 * j + 2] == codons[j].spec_to_triplet().2);
        lemma_codon_round_trip(codons[j]);
    }
    assert(spec_codons_of(s) =~= codons);
    assert(spec_remainder_of(s) =~= remainder);
}

/// Round-trip law of the codon-sequence layer: encoding any codon sequence
/// and decoding the bytes gives back the same codons and the same
/// remainder, by composition of the codec round trip and the grouping
/// round trip.
pub proof fn lemma_codon_sequence_round_trip(codons: Seq<Codon>, remainder: Seq<Nucleotide>)
    requires
        remainder.len() < 3,
    ensures
        spec_codons_of(spec_decode(spec_encode(spec_expand(codons) + remainder))) == codons,
        spec_remainder_of(spec_decode(spec_encode(spec_expand(codons) + remainder))) == remainder,
{
    lemma_sequence_codec_round_trip(spec_expand(codons) + remainder);
    lemma_grouping_round_trip(codons, remainder);
}

} // verus!
