use acars_vdlm2_parser::adsb_fields::{decode_ac12, decode_ac13, decode_identity_code};
use acars_vdlm2_parser::adsb_raw::AC13Field;
use acars_vdlm2_parser::gillham::{decode_id13_field, mode_a_to_mode_c, InvalidAltitude};

#[test]
fn gillham_single_bit_map() {
    // Each mapped source bit lands on exactly its destination bit.
    assert_eq!(decode_id13_field(0x1000), 0x0010); // C1
    assert_eq!(decode_id13_field(0x0800), 0x1000); // A1
    assert_eq!(decode_id13_field(0x0400), 0x0020); // C2
    assert_eq!(decode_id13_field(0x0200), 0x2000); // A2
    assert_eq!(decode_id13_field(0x0100), 0x0040); // C4
    assert_eq!(decode_id13_field(0x0080), 0x4000); // A4
    assert_eq!(decode_id13_field(0x0020), 0x0100); // B1
    assert_eq!(decode_id13_field(0x0010), 0x0001); // D1
    assert_eq!(decode_id13_field(0x0008), 0x0200); // B2
    assert_eq!(decode_id13_field(0x0004), 0x0002); // D2
    assert_eq!(decode_id13_field(0x0002), 0x0400); // B4
    assert_eq!(decode_id13_field(0x0001), 0x0004); // D4
    // The X/M bit and everything above the field are dropped.
    assert_eq!(decode_id13_field(0x0040), 0);
    assert_eq!(decode_id13_field(0xffff_e040), 0);
    // The permutation is a plain union of the single-bit images.
    assert_eq!(decode_id13_field(0x1fbf), 0x7777);
}

#[test]
fn mode_a_to_mode_c_rejects_reserved_and_missing_c_bits() {
    // No C bit set.
    assert_eq!(mode_a_to_mode_c(0), Err(InvalidAltitude));
    assert_eq!(mode_a_to_mode_c(0x0600), Err(InvalidAltitude));
    // A reserved bit set always fails, whatever else is set.
    assert_eq!(mode_a_to_mode_c(0x0008 | 0x0610), Err(InvalidAltitude));
    assert_eq!(mode_a_to_mode_c(0x8000_0000 | 0x0610), Err(InvalidAltitude));
    // A count below the floor fails too.
    assert_eq!(mode_a_to_mode_c(0x0030), Err(InvalidAltitude));
}

#[test]
fn mode_a_to_mode_c_known_counts() {
    // Deterministic: the same input always gives the same outcome.
    assert_eq!(mode_a_to_mode_c(0x0610), Ok(2));
    assert_eq!(mode_a_to_mode_c(0x0610), Ok(2));
    assert_eq!(mode_a_to_mode_c(0x1030), Ok(304));
}

#[test]
fn ac13_q_bit_boundary_resolves_to_none() {
    // Q bit set and N * 25 at or below 1000 feet: unresolvable, not negative
    // and not an error.
    assert_eq!(decode_ac13(0x0010), AC13Field(None));
    // One step above the floor: 41 * 25 - 1000 = 25 feet.
    assert_eq!(decode_ac13(0x0099), AC13Field(Some(25)));
}

#[test]
fn ac13_m_bit_resolves_to_none() {
    assert_eq!(decode_ac13(0x0040), AC13Field(None));
}

#[test]
fn ac13_gillham_path() {
    // A Gillham-coded field without M and Q bits.
    assert_eq!(decode_ac13(0x0101), AC13Field(Some(62700)));
    // An invalid Gillham combination is unresolvable, never an error.
    assert_eq!(decode_ac13(0x0000), AC13Field(None));
}

#[test]
fn ac12_q_bit_and_boundary() {
    // Q bit (0x10) set: N assembled from the remaining bits, times 25.
    // 0x0099: N = (0x80 >> 1) | 0x9 = 0x49 = 73; 73 * 25 - 1000 = 825.
    assert_eq!(decode_ac12(0x0099), Some(825));
    // At or below 1000 feet: unresolvable.
    assert_eq!(decode_ac12(0x0010), None);
}

#[test]
fn identity_code_regroups_octal_digits() {
    // A1 (bit 11), B2 (bit 3), C4 (bit 8), D4 (bit 0) -> a=1 b=2 c=4 d=4.
    let num = (1 << 11) | (1 << 3) | (1 << 8) | 1;
    assert_eq!(decode_identity_code(num), 0x1244);
    assert_eq!(decode_identity_code(0), 0);
}
