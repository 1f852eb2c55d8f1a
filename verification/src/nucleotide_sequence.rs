//! The sequence codec: packs an ordered list of nucleotides into a byte
//! buffer and unpacks it back, losslessly.
//!
//! Wire format: one header byte holding the sequence length modulo 4,
//! followed by one data byte per (started) group of four symbols. Each data
//! byte packs up to four 2-bit symbol codes, most significant pair first.
//! A header of zero says that the final data byte is fully occupied; an
//! empty sequence is told apart from a multiple-of-four one by the buffer
//! holding no data bytes at all.

use vstd::arithmetic::div_mod::{lemma_fundamental_div_mod, lemma_fundamental_div_mod_converse};
use vstd::prelude::*;
use vstd::string::StringExecFns;

use crate::nucleotide::Nucleotide;

verus! {

/// The 2-bit code of the symbol at position `i`, or zero past the end
/// (unused positions of a partial final byte are packed as zero).
pub open spec fn code_at(s: Seq<Nucleotide>, i: int) -> u8 {
    if 0 <= i < s.len() {
        s[i].spec_code()
    } else {
        0
    }
}

/// Data byte `j` of the encoding: four 2-bit codes, most significant first.
pub open spec fn pack_byte(s: Seq<Nucleotide>, j: int) -> u8 {
    (code_at(s, 4 * j) * 64 + code_at(s, 4 * j + 1) * 16 + code_at(s, 4 * j + 2) * 4 + code_at(
        s,
        4 * j + 3,
    )) as u8
}

/// The header byte: the sequence length modulo 4.
pub open spec fn spec_header(n: nat) -> u8 {
    (n % 4) as u8
}

/// How many data bytes a sequence of `n` symbols needs.
pub open spec fn spec_data_len(n: nat) -> nat {
    (n + 3) / 4
}

/// The whole encoding: the header byte followed by the data bytes.
pub open spec fn spec_encode(s: Seq<Nucleotide>) -> Seq<u8> {
    seq![spec_header(s.len())] + Seq::new(spec_data_len(s.len()), |j: int| pack_byte(s, j))
}

/// How many symbols the final data byte holds, read from the header:
/// zero is the sentinel for a fully occupied final byte.
pub open spec fn spec_last_count(bytes: Seq<u8>) -> nat {
    if bytes[0] == 0 {
        4
    } else {
        bytes[0] as nat
    }
}

/// How many symbols a buffer decodes to: every data byte but the last
/// holds four, the last holds what the header says. A buffer without
/// data bytes decodes to the empty sequence.
pub open spec fn spec_decoded_len(bytes: Seq<u8>) -> nat {
    if bytes.len() <= 1 {
        0
    } else {
        (4 * (bytes.len() - 2) + spec_last_count(bytes)) as nat
    }
}

/// The 2-bit code at position `k` of a data byte, most significant first.
pub open spec fn code_in_byte(b: u8, k: int) -> u8 {
    if k == 0 {
        b / 64
    } else if k == 1 {
        (b / 16) % 4
    } else if k == 2 {
        (b / 4) % 4
    } else {
        b % 4
    }
}

/// The sequence a buffer decodes to.
pub open spec fn spec_decode(bytes: Seq<u8>) -> Seq<Nucleotide> {
    Seq::new(
        spec_decoded_len(bytes),
        |i: int| Nucleotide::spec_from_code(code_in_byte(bytes[1 + i / 4], i % 4)),
    )
}

/// Unpacking any position of a packed data byte gives back the code that
/// went in.
proof fn lemma_unpack_pack(s: Seq<Nucleotide>, j: int, k: int)
    requires
        0 <= k < 4,
    ensures
        code_in_byte(pack_byte(s, j), k) == code_at(s, 4 * j + k),
{
    let c0 = code_at(s, 4 * j) as int;
    let c1 = code_at(s, 4 * j + 1) as int;
    let c2 = code_at(s, 4 * j + 2) as int;
    let c3 = code_at(s, 4 * j + 3) as int;
    let v = c0 * 64 + c1 * 16 + c2 * 4 + c3;
    assert(0 <= c0 <= 3 && 0 <= c1 <= 3 && 0 <= c2 <= 3 && 0 <= c3 <= 3);
    assert(pack_byte(s, j) == v);
    lemma_fundamental_div_mod_converse(v, 64, c0, c1 * 16 + c2 * 4 + c3);
    lemma_fundamental_div_mod_converse(v, 16, c0 * 4 + c1, c2 * 4 + c3);
    lemma_fundamental_div_mod_converse(c0 * 4 + c1, 4, c0, c1);
    lemma_fundamental_div_mod_converse(v, 4, c0 * 16 + c1 * 4 + c2, c3);
    lemma_fundamental_div_mod_converse(c0 * 16 + c1 * 4 + c2, 4, c0 * 4 + c1, c2);
}

/// Round-trip law of the sequence codec: decoding an encoding gives back
/// the original sequence, for every sequence including the empty one.
pub proof fn lemma_sequence_codec_round_trip(s: Seq<Nucleotide>)
    ensures
        spec_decode(spec_encode(s)) == s,
{
    let n = s.len() as int;
    let e = spec_encode(s);
    let q = n / 4;
    let r = n % 4;
    lemma_fundamental_div_mod(n, 4);
    if n == 0 {
        lemma_fundamental_div_mod_converse(3, 4, 0, 3);
        assert(e.len() == 1);
        assert(spec_decode(e) =~= s);
    } else {
        let d = spec_data_len(s.len()) as int;
        if r == 0 {
            lemma_fundamental_div_mod_converse(n + 3, 4, q, 3);
            assert(d == q);
        } else {
            lemma_fundamental_div_mod_converse(n + 3, 4, q + 1, r - 1);
            assert(d == q + 1);
        }
        assert(e.len() == d + 1);
        assert(e[0] == spec_header(s.len()));
        assert(spec_decoded_len(e) == n);
        assert forall|i: int| 0 <= i < n implies spec_decode(e)[i] == s[i] by {
            let bi = i / 4;
            let k = i % 4;
            lemma_fundamental_div_mod(i, 4);
            assert(0 <= k < 4) by {
                vstd::arithmetic::div_mod::lemma_mod_bound(i, 4);
            }
            assert(4 * bi <= i < 4 * d);
            assert(bi < d);
            assert(e[1 + bi] == pack_byte(s, bi));
            lemma_unpack_pack(s, bi, k);
            assert(code_at(s, i) == s[i].spec_code());
        }
        assert(spec_decode(e) =~= s);
    }
}

/// An ordered, possibly empty list of nucleotides, together with its
/// bit-packed binary form.
#[derive(Debug, Clone)]
pub struct NucleotideSequence {
    sequence: Vec<Nucleotide>,
}

impl View for NucleotideSequence {
    type V = Seq<Nucleotide>;

    closed spec fn view(&self) -> Seq<Nucleotide> {
        self.sequence@
    }
}

impl PartialEq for NucleotideSequence {
    fn eq(&self, other: &Self) -> bool {
        nucleotide_slices_equal(self.sequence.as_slice(), other.sequence.as_slice())
    }
}

impl vstd::std_specs::cmp::PartialEqSpecImpl for NucleotideSequence {
    open spec fn obeys_eq_spec() -> bool {
        true
    }

    open spec fn eq_spec(&self, other: &Self) -> bool {
        self@ == other@
    }
}

/// Whether two nucleotide slices hold the same symbols in the same order.
pub fn nucleotide_slices_equal(a: &[Nucleotide], b: &[Nucleotide]) -> (r: bool)
    ensures
        r == (a@ == b@),
{
    if a.len() != b.len() {
        return false;
    }
    let mut i: usize = 0;
    while i < a.len()
        invariant
            a@.len() == b@.len(),
            i <= a@.len(),
            forall|k: int| 0 <= k < i ==> a@[k] == b@[k],
        decreases a@.len() - i,
    {
        if a[i] != b[i] {
            return false;
        }
        i += 1;
    }
    proof {
        assert(a@ =~= b@);
    }
    true
}

impl NucleotideSequence {
    /// Wraps an ordered list of nucleotides.
    pub fn new(sequence: Vec<Nucleotide>) -> (r: Self)
        ensures
            r@ == sequence@,
    {
        Self { sequence }
    }

    /// The symbols of this sequence, in order.
    pub fn get_sequence(&self) -> (r: &[Nucleotide])
        ensures
            r@ == self@,
    {
        self.sequence.as_slice()
    }

    /// A sequence of the given length whose symbols are drawn from the
    /// process-wide random number generator.
    pub fn random(length: u64) -> (r: Self)
        ensures
            r@.len() == length,
    {
        let mut sequence: Vec<Nucleotide> = Vec::new();
        let mut i: u64 = 0;
        while i < length
            invariant
                i <= length,
                sequence@.len() == i,
            decreases length - i,
        {
            let value = crate::entropy::random_below(4) as u8;
            sequence.push(Nucleotide::from(value));
            i += 1;
        }
        Self::new(sequence)
    }

    /// The 2-bit code of the symbol at `i`, or zero past the end.
    fn code_or_zero(&self, i: usize) -> (c: u8)
        ensures
            c == code_at(self@, i as int),
            c <= 3,
    {
        if i < self.sequence.len() {
            self.sequence[i].code()
        } else {
            0
        }
    }

    /// Encodes this sequence into its binary form: the header byte followed
    /// by one data byte per started group of four symbols.
    pub fn get_bytes(&self) -> (bytes: Vec<u8>)
        requires
            self@.len() + 3 <= usize::MAX,
        ensures
            bytes@ == spec_encode(self@),
    {
        let n = self.sequence.len();
        let byte_count = (n + 3) / 4;
        let mut bytes: Vec<u8> = Vec::new();
        bytes.push((n % 4) as u8);
        let mut j: usize = 0;
        while j < byte_count
            invariant
                n == self@.len(),
                n + 3 <= usize::MAX,
                byte_count == spec_data_len(self@.len()),
                j <= byte_count,
                bytes@.len() == j + 1,
                bytes@[0] == spec_header(self@.len()),
                forall|k: int| 0 <= k < j ==> bytes@[k + 1] == pack_byte(self@, k),
            decreases byte_count - j,
        {
            proof {
                lemma_fundamental_div_mod(n as int + 3, 4);
            }
            let c0 = self.code_or_zero(4 * j);
            let c1 = self.code_or_zero(4 * j + 1);
            let c2 = self.code_or_zero(4 * j + 2);
            let c3 = self.code_or_zero(4 * j + 3);
            bytes.push(c0 * 64 + c1 * 16 + c2 * 4 + c3);
            j += 1;
        }
        proof {
            assert(bytes@ =~= spec_encode(self@));
        }
        bytes
    }

    /// Decodes a binary buffer back into a sequence. An empty buffer, or
    /// one holding only a header, decodes to the empty sequence. Every data
    /// byte but the last yields four symbols; the last yields what the
    /// header says, with the sentinel zero standing for four.
    pub fn from_bytes(bytes: &[u8]) -> (r: Self)
        requires
            bytes@.len() <= 1 || bytes@[0] <= 3,
        ensures
            r@ == spec_decode(bytes@),
    {
        let len = bytes.len();
        if len <= 1 {
            proof {
                assert(spec_decode(bytes@) =~= Seq::<Nucleotide>::empty());
            }
            return Self::new(Vec::new());
        }
        let header = bytes[0];
        let data_count = len - 1;
        let last_count: usize = if header == 0 {
            4
        } else {
            header as usize
        };
        let mut sequence: Vec<Nucleotide> = Vec::new();
        let mut bi: usize = 0;
        while bi < data_count
            invariant
                len == bytes@.len(),
                2 <= len,
                data_count == len - 1,
                bytes@[0] <= 3,
                last_count == spec_last_count(bytes@),
                1 <= last_count <= 4,
                bi <= data_count,
                sequence@ == spec_decode(bytes@).take(
                    if bi < data_count {
                        4 * bi as int
                    } else {
                        spec_decoded_len(bytes@) as int
                    },
                ),
            decreases data_count - bi,
        {
            let b = bytes[1 + bi];
            let count = if bi == data_count - 1 {
                last_count
            } else {
                4
            };
            let mut k: usize = 0;
            while k < count
                invariant
                    len == bytes@.len(),
                    2 <= len,
                    data_count == len - 1,
                    bytes@[0] <= 3,
                    last_count == spec_last_count(bytes@),
                    1 <= last_count <= 4,
                    bi < data_count,
                    count == if bi == data_count - 1 {
                        spec_last_count(bytes@) as int
                    } else {
                        4
                    },
                    b == bytes@[1 + bi],
                    k <= count,
                    sequence@ == spec_decode(bytes@).take(4 * bi as int + k),
                decreases count - k,
            {
                let code = if k == 0 {
                    b / 64
                } else if k == 1 {
                    (b / 16) % 4
                } else if k == 2 {
                    (b / 4) % 4
                } else {
                    b % 4
                };
                proof {
                    let i = 4 * bi as int + k;
                    lemma_fundamental_div_mod_converse(i, 4, bi as int, k as int);
                    assert(i < spec_decoded_len(bytes@));
                    assert(spec_decode(bytes@)[i] == Nucleotide::spec_from_code(
                        code_in_byte(bytes@[1 + bi], k as int),
                    ));
                    assert(spec_decode(bytes@).take(i + 1) =~= spec_decode(bytes@).take(i).push(
                        spec_decode(bytes@)[i],
                    ));
                }
                sequence.push(Nucleotide::from(code));
                k += 1;
            }
            bi += 1;
            proof {
                if bi < data_count {
                    assert(4 * bi as int == 4 * (bi - 1) as int + count);
                } else {
                    assert(4 * (bi - 1) as int + count == spec_decoded_len(bytes@));
                }
            }
        }
        proof {
            assert(spec_decode(bytes@).take(spec_decoded_len(bytes@) as int) =~= spec_decode(
                bytes@,
            ));
        }
        Self::new(sequence)
    }

    /// Renders the data bytes of this sequence's encoding in binary, eight
    /// characters per byte, most significant bit first, header omitted.
    pub fn get_bit_string(&self) -> (r: String)
        requires
            self@.len() + 3 <= usize::MAX,
        ensures
            r@ == spec_bit_string(self@),
    {
        let bytes = self.get_bytes();
        let mut r = String::new();
        let mut i: usize = 1;
        while i < bytes.len()
            invariant
                bytes@ == spec_encode(self@),
                1 <= i <= bytes@.len(),
                r@ == spec_bit_string(self@).take(8 * (i - 1) as int),
            decreases bytes@.len() - i,
        {
            let b = bytes[i];
            let mut k: usize = 0;
            while k < 8
                invariant
                    bytes@ == spec_encode(self@),
                    1 <= i < bytes@.len(),
                    b == pack_byte(self@, i - 1 as int),
                    k <= 8,
                    r@ == spec_bit_string(self@).take(8 * (i - 1) as int + k),
                decreases 8 - k,
            {
                let w = bit_weight(k);
                proof {
                    reveal_strlit("0");
                    reveal_strlit("1");
                    let pos = 8 * (i - 1) as int + k;
                    lemma_fundamental_div_mod_converse(pos, 8, i - 1 as int, k as int);
                    assert(spec_bit_string(self@)[pos] == spec_bit_char(b, k as int));
                    assert(spec_bit_string(self@).take(pos + 1) =~= spec_bit_string(
                        self@,
                    ).take(pos).push(spec_bit_char(b, k as int)));
                }
                if (b / w) % 2 == 1 {
                    r.append("1");
                } else {
                    r.append("0");
                }
                k += 1;
            }
            i += 1;
        }
        proof {
            assert(r@ =~= spec_bit_string(self@));
        }
        r
    }

    /// Renders the sequence as the decimal digits of its 2-bit codes, one
    /// character per symbol, in order.
    pub fn get_code_string(&self) -> (r: String)
        ensures
            r@ == spec_code_string(self@),
    {
        let mut r = String::new();
        let mut i: usize = 0;
        while i < self.sequence.len()
            invariant
                i <= self@.len(),
                r@ == spec_code_string(self@).take(i as int),
            decreases self@.len() - i,
        {
            proof {
                reveal_strlit("0");
                reveal_strlit("1");
                reveal_strlit("2");
                reveal_strlit("3");
                assert(spec_code_string(self@).take(i + 1) =~= spec_code_string(self@).take(
                    i as int,
                ).push(spec_code_char(self@[i as int])));
            }
            match self.sequence[i] {
                Nucleotide::A => r.append("0"),
                Nucleotide::T => r.append("1"),
                Nucleotide::G => r.append("2"),
                Nucleotide::C => r.append("3"),
            }
            i += 1;
        }
        proof {
            assert(r@ =~= spec_code_string(self@));
        }
        r
    }
}

/// The power of two dividing out the bit at position `k` of a byte, most
/// significant bit first.
pub open spec fn spec_bit_weight(k: int) -> u8 {
    if k == 0 {
        128
    } else if k == 1 {
        64
    } else if k == 2 {
        32
    } else if k == 3 {
        16
    } else if k == 4 {
        8
    } else if k == 5 {
        4
    } else if k == 6 {
        2
    } else {
        1
    }
}

/// The character '0' or '1' showing the bit at position `k` of a byte,
/// most significant bit first.
pub open spec fn spec_bit_char(b: u8, k: int) -> char {
    if (b / spec_bit_weight(k)) % 2 == 1 {
        '1'
    } else {
        '0'
    }
}

/// The binary rendering of the data bytes of a sequence's encoding: eight
/// characters per data byte, most significant bit first, header omitted.
pub open spec fn spec_bit_string(s: Seq<Nucleotide>) -> Seq<char> {
    Seq::new(8 * spec_data_len(s.len()), |i: int| spec_bit_char(pack_byte(s, i / 8), i % 8))
}

/// The decimal digit naming a symbol's 2-bit code.
pub open spec fn spec_code_char(n: Nucleotide) -> char {
    match n {
        Nucleotide::A => '0',
        Nucleotide::T => '1',
        Nucleotide::G => '2',
        Nucleotide::C => '3',
    }
}

/// A sequence rendered as the decimal digits of its 2-bit codes.
pub open spec fn spec_code_string(s: Seq<Nucleotide>) -> Seq<char> {
    Seq::new(s.len(), |i: int| spec_code_char(s[i]))
}

/// The byte weight of the bit at position `k`, most significant first.
fn bit_weight(k: usize) -> (w: u8)
    requires
        k < 8,
    ensures
        w == spec_bit_weight(k as int),
        w >= 1,
{
    match k {
        0 => 128,
        1 => 64,
        2 => 32,
        3 => 16,
        4 => 8,
        5 => 4,
        6 => 2,
        _ => 1,
    }
}

} // verus!
