use evm_light_client::errors::Error;
use evm_light_client::sync_protocol::Bitvector;

fn pattern<const N: usize>(seed: usize) -> [bool; N] {
    let mut bits = [false; N];
    for (i, bit) in bits.iter_mut().enumerate() {
        *bit = (i * 7 + seed) % 3 == 0 || i == seed;
    }
    bits
}

fn encoded_by_the_codec<const N: usize>(bits: &[bool; N]) -> Vec<u8> {
    let vector = ssz_rs::Bitvector::<N>::try_from(&bits[..]).unwrap();
    ssz_rs::serialize(&vector).unwrap()
}

#[test]
fn bits_are_packed_least_significant_first() {
    let vector = Bitvector([true, false, false, false, false, false, false, false, false, true]);
    assert_eq!(vector.to_bytes(), vec![0x01, 0x02]);
    let vector = Bitvector([false, true, true, false]);
    assert_eq!(vector.to_bytes(), vec![0x06]);
    assert_eq!(Bitvector([true; 8]).to_bytes(), vec![0xff]);
    assert_eq!(Bitvector::<0>([]).to_bytes(), Vec::<u8>::new());
    assert_eq!(Bitvector::<4>::default().to_bytes(), vec![0x00]);
    assert_eq!(Bitvector([true, false, true]).count_ones(), 2);
}

#[test]
fn encoding_agrees_with_the_codec() {
    for seed in 0..5 {
        let bits = pattern::<12>(seed);
        assert_eq!(Bitvector(bits).to_bytes(), encoded_by_the_codec(&bits));
        let bits = pattern::<32>(seed);
        assert_eq!(Bitvector(bits).to_bytes(), encoded_by_the_codec(&bits));
        let bits = pattern::<5>(seed);
        assert_eq!(Bitvector(bits).to_bytes(), encoded_by_the_codec(&bits));
    }
}

#[test]
fn decoding_gives_back_what_was_encoded() {
    for seed in 0..5 {
        let vector = Bitvector(pattern::<12>(seed));
        assert_eq!(Bitvector::<12>::from_bytes(&vector.to_bytes()).unwrap(), vector);
        let vector = Bitvector(pattern::<512>(seed));
        assert_eq!(vector.to_bytes().len(), 64);
        assert_eq!(Bitvector::<512>::from_bytes(&vector.to_bytes()).unwrap(), vector);
    }
    let vector = Bitvector::<10>::from_bytes(&[0x81, 0x01]).unwrap();
    assert_eq!(
        vector,
        Bitvector([true, false, false, false, false, false, false, true, true, false])
    );
}

#[test]
fn bytes_of_the_wrong_number_are_refused() {
    assert!(matches!(
        Bitvector::<12>::from_bytes(&[0x01]),
        Err(Error::InvalidBitvectorLength(2, 1))
    ));
    assert!(matches!(
        Bitvector::<12>::from_bytes(&[0x01, 0x02, 0x03]),
        Err(Error::InvalidBitvectorLength(2, 3))
    ));
    assert!(matches!(
        Bitvector::<8>::from_bytes(&[]),
        Err(Error::InvalidBitvectorLength(1, 0))
    ));
    assert!(Bitvector::<0>::from_bytes(&[]).is_ok());
}

#[test]
fn set_bits_beyond_the_vector_are_refused() {
    assert!(matches!(
        Bitvector::<12>::from_bytes(&[0xff, 0x10]),
        Err(Error::InvalidBitvectorPadding(0x10))
    ));
    assert!(matches!(
        Bitvector::<4>::from_bytes(&[0x80]),
        Err(Error::InvalidBitvectorPadding(0x80))
    ));
    assert!(Bitvector::<12>::from_bytes(&[0xff, 0x0f]).is_ok());
    assert!(ssz_rs::deserialize::<ssz_rs::Bitvector<12>>(&[0xff, 0x10]).is_err());
}
