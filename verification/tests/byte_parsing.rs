use genetic_codec::codon_sequence::CodonSequence;
use genetic_codec::nucleotide_sequence::NucleotideSequence;

#[test]
fn test_codon_sequence_test_byte_parsing() {
    for length in 0..100 {
        let sequence = CodonSequence::random(length);
        let bytes = sequence.to_bytes();
        let initial_sequence = CodonSequence::from_bytes(&bytes);
        assert_eq!(sequence, initial_sequence);
    }
}

#[test]
fn test_genetic_sequence_test_byte_parsing() {
    for length in 0..100 {
        let sequence = NucleotideSequence::random(length);
        let bytes = sequence.get_bytes();
        let initial_sequence = NucleotideSequence::from_bytes(&bytes);
        assert_eq!(sequence, initial_sequence);
    }
}

#[test]
fn test_nucleotide_sequence_test_byte_parsing() {
    for length in 0..100 {
        let sequence = NucleotideSequence::random(length);
        let bytes = sequence.get_bytes();
        let initial_sequence = NucleotideSequence::from_bytes(&bytes);
        assert_eq!(sequence, initial_sequence);
    }
}
