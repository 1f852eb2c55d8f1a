use genetic_codec::codon::{Codon, CodonSTOP, CodonType};
use genetic_codec::codon_sequence::CodonSequence;
use genetic_codec::codon_value_config::CodonValueConfig;
use genetic_codec::gene_type::GeneType;
use genetic_codec::nucleotide::Nucleotide;
use genetic_codec::nucleotide_sequence::NucleotideSequence;

fn all_nucleotides() -> Vec<Nucleotide> {
    vec![Nucleotide::A, Nucleotide::T, Nucleotide::G, Nucleotide::C]
}

fn all_codon_types() -> Vec<CodonType> {
    vec![
        CodonType::Met,
        CodonType::Stop,
        CodonType::Ala,
        CodonType::Arg,
        CodonType::Asn,
        CodonType::Asp,
        CodonType::Cys,
        CodonType::Gln,
        CodonType::Glu,
        CodonType::Gly,
        CodonType::His,
        CodonType::Ile,
        CodonType::Leu,
        CodonType::Lys,
        CodonType::Phe,
        CodonType::Pro,
        CodonType::Ser,
        CodonType::Thr,
        CodonType::Trp,
        CodonType::Tyr,
        CodonType::Val,
    ]
}

// Builds a pseudo-arbitrary nucleotide sequence of the given length.
fn patterned_sequence(length: usize) -> Vec<Nucleotide> {
    let mut v = Vec::new();
    for i in 0..length {
        v.push(Nucleotide::from((i * 7 + 3) as u8));
    }
    v
}

#[test]
fn test_complement_involution() {
    for n in all_nucleotides() {
        assert_eq!(n.complement().complement(), n);
        assert_ne!(n.complement(), n);
    }
}

#[test]
fn test_complement_pairs() {
    assert_eq!(Nucleotide::A.complement(), Nucleotide::T);
    assert_eq!(Nucleotide::T.complement(), Nucleotide::A);
    assert_eq!(Nucleotide::G.complement(), Nucleotide::C);
    assert_eq!(Nucleotide::C.complement(), Nucleotide::G);
}

#[test]
fn test_code_assignment() {
    assert_eq!(Nucleotide::A.code(), 0);
    assert_eq!(Nucleotide::T.code(), 1);
    assert_eq!(Nucleotide::G.code(), 2);
    assert_eq!(Nucleotide::C.code(), 3);
    for n in all_nucleotides() {
        assert_eq!(Nucleotide::from(n.code()), n);
        // higher bits are ignored
        assert_eq!(Nucleotide::from(n.code() | 0b1010_0100), n);
    }
}

#[test]
fn test_codon_table_bijection() {
    let mut seen: Vec<Codon> = Vec::new();
    for n1 in all_nucleotides() {
        for n2 in all_nucleotides() {
            for n3 in all_nucleotides() {
                let codon = Codon::from_triplet(n1, n2, n3);
                let back = codon.to_nucleotides();
                assert_eq!([n1, n2, n3], back);
                for earlier in &seen {
                    assert_ne!(*earlier, codon);
                }
                seen.push(codon);
            }
        }
    }
    assert_eq!(seen.len(), 64);
}

#[test]
fn test_codon_degeneracy_counts() {
    let mut total = 0;
    for t in all_codon_types() {
        let n = Codon::variant_count(t);
        assert!((1..=6).contains(&n));
        total += n;
    }
    assert_eq!(total, 64);
    assert_eq!(Codon::variant_count(CodonType::Met), 1);
    assert_eq!(Codon::variant_count(CodonType::Trp), 1);
    assert_eq!(Codon::variant_count(CodonType::Stop), 3);
    assert_eq!(Codon::variant_count(CodonType::Leu), 6);
    assert_eq!(Codon::variant_count(CodonType::Ser), 6);
    assert_eq!(Codon::variant_count(CodonType::Arg), 6);
}

#[test]
fn test_literal_triplets() {
    let met = Codon::from_triplet(Nucleotide::A, Nucleotide::T, Nucleotide::G);
    assert_eq!(met, Codon::Met);
    let stop = Codon::from_triplet(Nucleotide::T, Nucleotide::G, Nucleotide::A);
    assert_eq!(stop, Codon::Stop(CodonSTOP::TGA));
}

#[test]
fn test_from_nucleotides_short_input() {
    assert_eq!(Codon::from_nucleotides(&[]), None);
    assert_eq!(Codon::from_nucleotides(&[Nucleotide::A]), None);
    assert_eq!(Codon::from_nucleotides(&[Nucleotide::A, Nucleotide::T]), None);
    assert_eq!(
        Codon::from_nucleotides(&[Nucleotide::A, Nucleotide::T, Nucleotide::G, Nucleotide::C]),
        Some(Codon::Met)
    );
}

#[test]
fn test_random_from_type_category() {
    for t in all_codon_types() {
        for _ in 0..20 {
            let codon = Codon::random_from_type(t);
            assert_eq!(codon.codon_type(), t);
        }
    }
    assert_eq!(Codon::random_from_type(CodonType::Met), Codon::Met);
    assert_eq!(Codon::random_from_type(CodonType::Trp), Codon::Trp);
}

#[test]
fn test_header_sentinel() {
    let four = NucleotideSequence::new(patterned_sequence(4));
    let bytes = four.get_bytes();
    assert_eq!(bytes[0], 0);
    assert_eq!(bytes.len(), 2);

    let five = NucleotideSequence::new(patterned_sequence(5));
    let bytes = five.get_bytes();
    assert_eq!(bytes[0], 1);
    assert_eq!(bytes.len(), 3);

    let empty = NucleotideSequence::new(Vec::new());
    let bytes = empty.get_bytes();
    assert_eq!(bytes, vec![0u8]);
    let back = NucleotideSequence::from_bytes(&bytes);
    assert_eq!(back.get_sequence().len(), 0);
}

#[test]
fn test_literal_encoding() {
    let seq = NucleotideSequence::new(vec![Nucleotide::A, Nucleotide::T, Nucleotide::G]);
    let bytes = seq.get_bytes();
    assert_eq!(bytes, vec![3u8, 0x18u8]);
    let back = NucleotideSequence::from_bytes(&[3u8, 0x18u8]);
    assert_eq!(
        back.get_sequence(),
        &[Nucleotide::A, Nucleotide::T, Nucleotide::G]
    );
}

#[test]
fn test_decode_empty_and_header_only() {
    let empty = NucleotideSequence::from_bytes(&[]);
    assert_eq!(empty.get_sequence().len(), 0);
    for h in 0..4u8 {
        let only_header = NucleotideSequence::from_bytes(&[h]);
        assert_eq!(only_header.get_sequence().len(), 0);
    }
}

#[test]
fn test_codec_round_trip_fixed_contents() {
    for length in 0..200 {
        let seq = NucleotideSequence::new(patterned_sequence(length));
        let back = NucleotideSequence::from_bytes(&seq.get_bytes());
        assert_eq!(back, seq);
    }
}

#[test]
fn test_remainder_invariant() {
    for length in 0..50 {
        let input = patterned_sequence(length);
        let cs = CodonSequence::from_nucleotides(&input);
        let codons = cs.get_sequence().len();
        let expanded = cs.to_nucleotides();
        let remainder_len = expanded.len() - 3 * codons;
        assert!(remainder_len < 3);
        assert_eq!(3 * codons + remainder_len, length);
        // the expansion gives back the input exactly, remainder included
        assert_eq!(expanded, input);
    }
}

#[test]
fn test_codon_sequence_round_trip_fixed_contents() {
    for length in 0..60 {
        let input = patterned_sequence(length);
        let cs = CodonSequence::from_nucleotides(&input);
        let back = CodonSequence::from_bytes(&cs.to_bytes());
        assert_eq!(cs, back);
    }
}

#[test]
fn test_bit_string() {
    let seq = NucleotideSequence::new(vec![Nucleotide::A, Nucleotide::T, Nucleotide::G]);
    assert_eq!(seq.get_bit_string(), "00011000");
    let empty = NucleotideSequence::new(Vec::new());
    assert_eq!(empty.get_bit_string(), "");
    let cs = CodonSequence::from_nucleotides(&[Nucleotide::A, Nucleotide::T, Nucleotide::G]);
    assert_eq!(cs.get_bit_string(), "00011000");
}

#[test]
fn test_code_string() {
    let seq = NucleotideSequence::new(vec![
        Nucleotide::A,
        Nucleotide::T,
        Nucleotide::G,
        Nucleotide::C,
        Nucleotide::A,
    ]);
    assert_eq!(seq.get_code_string(), "01230");
    let cs = CodonSequence::from_nucleotides(&[Nucleotide::A, Nucleotide::T, Nucleotide::G]);
    assert_eq!(cs.get_code_string(), "012");
}

#[test]
fn test_gene_type_id_digits() {
    // one digit: the value modulo 19 names the category directly
    assert_eq!(CodonType::gene_type_id(0, 1), vec![CodonType::Ala]);
    assert_eq!(CodonType::gene_type_id(18, 1), vec![CodonType::Val]);
    // two digits, most significant first: 24 = 1 * 19 + 5
    assert_eq!(
        CodonType::gene_type_id(24, 2),
        vec![CodonType::Arg, CodonType::Gln]
    );
    // zero length gives an empty identity
    assert_eq!(CodonType::gene_type_id(7, 0), Vec::<CodonType>::new());
    // values wrap around base 19: 19 = 1 * 19 + 0
    assert_eq!(
        CodonType::gene_type_id(19, 2),
        vec![CodonType::Arg, CodonType::Ala]
    );
}

#[test]
fn test_gene_type_identity() {
    assert_eq!(GeneType::Color.id_sequence(), vec![CodonType::Ala]);
}

#[test]
fn test_codon_value_lookup() {
    let config: CodonValueConfig<u32> = CodonValueConfig {
        met: 0,
        stop: 1,
        ala: 2,
        arg: 3,
        asn: 4,
        asp: 5,
        cys: 6,
        gln: 7,
        glu: 8,
        gly: 9,
        his: 10,
        ile: 11,
        leu: 12,
        lys: 13,
        phe: 14,
        pro: 15,
        ser: 16,
        thr: 17,
        trp: 18,
        tyr: 19,
        val: 20,
    };
    assert_eq!(config.get_value(Codon::Met), 0);
    assert_eq!(config.get_value(Codon::Trp), 18);
    assert_eq!(config.get_value(Codon::Stop(CodonSTOP::TAA)), 1);
    assert_eq!(config.get_value(Codon::Stop(CodonSTOP::TGA)), 1);
    // every variant of a category maps to the category's value
    for t in all_codon_types() {
        let n = Codon::variant_count(t);
        let expected = config.get_value(Codon::nth_variant(t, 0));
        for i in 0..n {
            assert_eq!(config.get_value(Codon::nth_variant(t, i)), expected);
        }
    }
}

#[test]
fn test_random_lengths() {
    for length in [0u64, 1, 7, 100] {
        let seq = NucleotideSequence::random(length);
        assert_eq!(seq.get_sequence().len() as u64, length);
    }
    for length in [0u32, 1, 33] {
        let cs = CodonSequence::random(length);
        assert_eq!(cs.get_sequence().len() as u32, length);
        assert_eq!(cs.to_nucleotides().len() as u32, 3 * length);
    }
}
