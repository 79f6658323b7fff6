use acars_vdlm2_parser::crc::{modes_checksum, ChecksumError};

#[test]
fn checksum_known_values() {
    let short = hex::decode("5DABE65A2FBFAF").unwrap();
    assert_eq!(modes_checksum(&short, 56), Ok(0x2));

    // An uncorrupted extended squitter: the remainder cancels the parity.
    let long = hex::decode("8DA1A3CC9909B814F004127F1107").unwrap();
    assert_eq!(modes_checksum(&long, 112), Ok(0x0));

    let reply = hex::decode("20001910BC45E9").unwrap();
    assert_eq!(modes_checksum(&reply, 56), Ok(0xa27aee));
}

#[test]
fn checksum_is_deterministic() {
    let message = hex::decode("8DA1A3CC9909B814F004127F1107").unwrap();
    let first = modes_checksum(&message, 112).unwrap();
    let second = modes_checksum(&message, 112).unwrap();
    assert_eq!(first, second);
}

#[test]
fn checksum_changes_on_every_single_bit_flip() {
    let message = hex::decode("8DA1A3CC9909B814F004127F1107").unwrap();
    let baseline = modes_checksum(&message, 112).unwrap();
    for bit in 0..112 {
        let mut flipped = message.clone();
        flipped[bit / 8] ^= 0x80 >> (bit % 8);
        let changed = modes_checksum(&flipped, 112).unwrap();
        assert_ne!(changed, baseline, "flipping bit {bit} left the checksum unchanged");
    }
}

#[test]
fn checksum_incomplete_errors() {
    // Fewer than three whole bytes asked for.
    assert_eq!(modes_checksum(&[1, 2, 3, 4], 16), Err(ChecksumError::Incomplete));
    // The buffer holds fewer bytes than the bit length covers.
    assert_eq!(modes_checksum(&[1, 2, 3], 56), Err(ChecksumError::Incomplete));
    // Exactly three bytes: the checksum is just the trailing XOR term.
    assert_eq!(modes_checksum(&[0xab, 0xcd, 0xef], 24), Ok(0xabcdef));
}
