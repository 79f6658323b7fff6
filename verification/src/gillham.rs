//! The legacy altitude/identity codec: the fixed Gillham bit permutation and
//! the Mode A to Mode C numeric conversion shared by every altitude- and
//! squawk-bearing field.

use vstd::prelude::*;

verus! {

/// Marker for a 13-bit field whose Gillham combination does not encode a
/// valid 100-foot altitude count.
#[derive(Debug, Clone, Copy, PartialEq, Eq, Structural)]
pub struct InvalidAltitude;

/// The mask of the twelve source bit positions that the Gillham permutation
/// reads; every other input bit is ignored.
pub const GILLHAM_SOURCE_MASK: u32 = 0x1fbf;

/// The mask of the twelve destination bit positions that the Gillham
/// permutation writes; every other output bit is always zero.
pub const GILLHAM_DEST_MASK: u32 = 0x7777;

/// The fixed Gillham bit permutation: each mapped source bit moves to its own
/// destination bit (C1/A1/C2/A2/C4/A4/B1/D1/B2/D2/B4/D4); the X/M bit and all
/// higher bits are dropped.
pub open spec fn spec_decode_id13_field(id13_field: u32) -> u32 {
    (if id13_field & 0x1000 != 0 { 0x0010u32 } else { 0u32 })
        | (if id13_field & 0x0800 != 0 { 0x1000u32 } else { 0u32 })
        | (if id13_field & 0x0400 != 0 { 0x0020u32 } else { 0u32 })
        | (if id13_field & 0x0200 != 0 { 0x2000u32 } else { 0u32 })
        | (if id13_field & 0x0100 != 0 { 0x0040u32 } else { 0u32 })
        | (if id13_field & 0x0080 != 0 { 0x4000u32 } else { 0u32 })
        | (if id13_field & 0x0020 != 0 { 0x0100u32 } else { 0u32 })
        | (if id13_field & 0x0010 != 0 { 0x0001u32 } else { 0u32 })
        | (if id13_field & 0x0008 != 0 { 0x0200u32 } else { 0u32 })
        | (if id13_field & 0x0004 != 0 { 0x0002u32 } else { 0u32 })
        | (if id13_field & 0x0002 != 0 { 0x0400u32 } else { 0u32 })
        | (if id13_field & 0x0001 != 0 { 0x0004u32 } else { 0u32 })
}

/// Remaps a 13-bit identity/altitude field into Gillham bit order.
///
/// This is a fixed bit permutation, total on all inputs: bit 12 moves to
/// bit 4, 11 to 12, 10 to 5, 9 to 13, 8 to 6, 7 to 14, 5 to 8, 4 to 0,
/// 3 to 9, 2 to 1, 1 to 10 and 0 to 2; every other destination bit is 0.
pub fn decode_id13_field(id13_field: u32) -> (hex_gillham: u32)
    ensures
        hex_gillham == spec_decode_id13_field(id13_field),
{
    let hex_gillham: u32 = (if id13_field & 0x1000 != 0 { 0x0010u32 } else { 0u32 }) // C1
        | (if id13_field & 0x0800 != 0 { 0x1000u32 } else { 0u32 }) // A1
        | (if id13_field & 0x0400 != 0 { 0x0020u32 } else { 0u32 }) // C2
        | (if id13_field & 0x0200 != 0 { 0x2000u32 } else { 0u32 }) // A2
        | (if id13_field & 0x0100 != 0 { 0x0040u32 } else { 0u32 }) // C4
        | (if id13_field & 0x0080 != 0 { 0x4000u32 } else { 0u32 }) // A4
        | (if id13_field & 0x0020 != 0 { 0x0100u32 } else { 0u32 }) // B1
        | (if id13_field & 0x0010 != 0 { 0x0001u32 } else { 0u32 }) // D1 or Q
        | (if id13_field & 0x0008 != 0 { 0x0200u32 } else { 0u32 }) // B2
        | (if id13_field & 0x0004 != 0 { 0x0002u32 } else { 0u32 }) // D2
        | (if id13_field & 0x0002 != 0 { 0x0400u32 } else { 0u32 }) // B4
        | (if id13_field & 0x0001 != 0 { 0x0004u32 } else { 0u32 }); // D4

    hex_gillham
}

/// The Mode A to Mode C conversion: `Some(count)` is the recovered 100-foot
/// altitude count, `None` marks a combination with a reserved bit set, no
/// C bit set, an out-of-range hundreds digit, or a count below the -1200 ft
/// floor.
pub open spec fn spec_mode_a_to_mode_c(mode_a: u32) -> Option<u32> {
    if mode_a & 0xffff_8889 != 0 || mode_a & 0x0000_00f0 == 0 {
        None
    } else {
        let one_hundreds_raw = (if mode_a & 0x0010 != 0 { 0x007u16 } else { 0u16 })
            ^ (if mode_a & 0x0020 != 0 { 0x003u16 } else { 0u16 })
            ^ (if mode_a & 0x0040 != 0 { 0x001u16 } else { 0u16 });
        let one_hundreds_swapped = if one_hundreds_raw & 5 == 5 {
            one_hundreds_raw ^ 2
        } else {
            one_hundreds_raw
        };
        if one_hundreds_swapped > 5 {
            None
        } else {
            let five_hundreds = (if mode_a & 0x0002 != 0 { 0x0ffu16 } else { 0u16 })
                ^ (if mode_a & 0x0004 != 0 { 0x07fu16 } else { 0u16 })
                ^ (if mode_a & 0x1000 != 0 { 0x03fu16 } else { 0u16 })
                ^ (if mode_a & 0x2000 != 0 { 0x01fu16 } else { 0u16 })
                ^ (if mode_a & 0x4000 != 0 { 0x00fu16 } else { 0u16 })
                ^ (if mode_a & 0x0100 != 0 { 0x007u16 } else { 0u16 })
                ^ (if mode_a & 0x0200 != 0 { 0x003u16 } else { 0u16 })
                ^ (if mode_a & 0x0400 != 0 { 0x001u16 } else { 0u16 });
            let one_hundreds = if five_hundreds & 1 != 0 && one_hundreds_swapped <= 6 {
                (6 - one_hundreds_swapped) as u16
            } else {
                one_hundreds_swapped
            };
            let n = five_hundreds as u32 * 5 + one_hundreds as u32;
            if n >= 13 {
                Some((n - 13) as u32)
            } else {
                None
            }
        }
    }
}

/// Converts a Gillham-ordered Mode A code to a Mode C 100-foot altitude
/// count.
///
/// Fails exactly when the code is invalid: a reserved bit (mask
/// `0xffff_8889`) is set, no C bit (mask `0x0000_00f0`) is set, the decoded
/// hundreds digit is out of range, or the combined count falls below the
/// lowest encodable altitude.
pub fn mode_a_to_mode_c(mode_a: u32) -> (result: Result<u32, InvalidAltitude>)
    ensures
        result matches Ok(count) ==> spec_mode_a_to_mode_c(mode_a) == Some(count),
        result is Err <==> spec_mode_a_to_mode_c(mode_a) is None,
{
    // Reserved bits must be zero (D1 set is illegal); C1..C4 cannot all be zero.
    if (mode_a & 0xffff_8889) != 0 || (mode_a & 0x0000_00f0) == 0 {
        return Err(InvalidAltitude);
    }

    // XOR-accumulate the hundreds digit from C1, C2 and C4.
    let one_hundreds_raw: u16 = (if mode_a & 0x0010 != 0 { 0x007u16 } else { 0u16 })
        ^ (if mode_a & 0x0020 != 0 { 0x003u16 } else { 0u16 })
        ^ (if mode_a & 0x0040 != 0 { 0x001u16 } else { 0u16 });

    // Remove 7s from the hundreds digit (make 7 into 5, and 5 into 7).
    let one_hundreds_swapped: u16 = if one_hundreds_raw & 5 == 5 {
        one_hundreds_raw ^ 2
    } else {
        one_hundreds_raw
    };

    // Only hundreds digits 0 to 5 are valid.
    if one_hundreds_swapped > 5 {
        return Err(InvalidAltitude);
    }

    // XOR-accumulate the 500-foot count from D2, D4, A1, A2, A4, B1, B2 and
    // B4; D1 is never used for altitude.
    let five_hundreds: u16 = (if mode_a & 0x0002 != 0 { 0x0ffu16 } else { 0u16 })
        ^ (if mode_a & 0x0004 != 0 { 0x07fu16 } else { 0u16 })
        ^ (if mode_a & 0x1000 != 0 { 0x03fu16 } else { 0u16 })
        ^ (if mode_a & 0x2000 != 0 { 0x01fu16 } else { 0u16 })
        ^ (if mode_a & 0x4000 != 0 { 0x00fu16 } else { 0u16 })
        ^ (if mode_a & 0x0100 != 0 { 0x007u16 } else { 0u16 })
        ^ (if mode_a & 0x0200 != 0 { 0x003u16 } else { 0u16 })
        ^ (if mode_a & 0x0400 != 0 { 0x001u16 } else { 0u16 });

    // Correct the order of the hundreds digit.
    let one_hundreds: u16 = if five_hundreds & 1 != 0 && one_hundreds_swapped <= 6 {
        6 - one_hundreds_swapped
    } else {
        one_hundreds_swapped
    };

    let n: u32 = five_hundreds as u32 * 5 + one_hundreds as u32;
    if n >= 13 {
        Ok(n - 13)
    } else {
        Err(InvalidAltitude)
    }
}

/// The Gillham permutation is a fixed bijection on the twelve mapped bit
/// positions: the result never has a bit outside the destination mask, only
/// the source-mask bits of the input influence it, and two inputs that differ
/// inside the source mask always map to different outputs.
pub proof fn lemma_gillham_fixed_bijection()
    by (bit_vector)
    ensures
        forall|x: u32| #[trigger] spec_decode_id13_field(x) & !GILLHAM_DEST_MASK == 0,
        forall|x: u32|
            #[trigger] spec_decode_id13_field(x) == spec_decode_id13_field(
                x & GILLHAM_SOURCE_MASK,
            ),
        forall|x: u32, y: u32|
            x & GILLHAM_SOURCE_MASK != y & GILLHAM_SOURCE_MASK ==> spec_decode_id13_field(x)
                != spec_decode_id13_field(y),
{
}

/// The Mode A to Mode C conversion is a pure function of its input, and any
/// input with a reserved bit set or with no C bit set is always rejected.
pub proof fn lemma_mode_a_to_mode_c_rejects(mode_a: u32)
    ensures
        mode_a & 0xffff_8889 != 0 || mode_a & 0x0000_00f0 == 0 ==> spec_mode_a_to_mode_c(mode_a)
            is None,
{
}

} // verus!
