//! The table-driven Mode S CRC-24 engine: a 24-bit remainder accumulated
//! over a message's leading bytes and XORed against its trailing three bytes.

use vstd::prelude::*;

verus! {

/// A checksum request whose message is too short: fewer than three whole
/// bytes were asked for, or the buffer holds fewer bytes than the requested
/// bit length covers.
#[derive(Debug, Clone, Copy, PartialEq, Eq, Structural)]
pub enum ChecksumError {
    Incomplete,
}

/// The fixed 256-entry lookup table for the ICAO Annex 10 Mode S CRC-24
/// parity polynomial; entry `i` is the 24-bit remainder contributed by the
/// byte value `i`.
pub const CRC_TABLE: [u32; 256] = [
    0x00000000, 0x00fff409, 0x00001c1b, 0x00ffe812,
    0x00003836, 0x00ffcc3f, 0x0000242d, 0x00ffd024,
    0x0000706c, 0x00ff8465, 0x00006c77, 0x00ff987e,
    0x0000485a, 0x00ffbc53, 0x00005441, 0x00ffa048,
    0x0000e0d8, 0x00ff14d1, 0x0000fcc3, 0x00ff08ca,
    0x0000d8ee, 0x00ff2ce7, 0x0000c4f5, 0x00ff30fc,
    0x000090b4, 0x00ff64bd, 0x00008caf, 0x00ff78a6,
    0x0000a882, 0x00ff5c8b, 0x0000b499, 0x00ff4090,
    0x0001c1b0, 0x00fe35b9, 0x0001ddab, 0x00fe29a2,
    0x0001f986, 0x00fe0d8f, 0x0001e59d, 0x00fe1194,
    0x0001b1dc, 0x00fe45d5, 0x0001adc7, 0x00fe59ce,
    0x000189ea, 0x00fe7de3, 0x000195f1, 0x00fe61f8,
    0x00012168, 0x00fed561, 0x00013d73, 0x00fec97a,
    0x0001195e, 0x00feed57, 0x00010545, 0x00fef14c,
    0x00015104, 0x00fea50d, 0x00014d1f, 0x00feb916,
    0x00016932, 0x00fe9d3b, 0x00017529, 0x00fe8120,
    0x00038360, 0x00fc7769, 0x00039f7b, 0x00fc6b72,
    0x0003bb56, 0x00fc4f5f, 0x0003a74d, 0x00fc5344,
    0x0003f30c, 0x00fc0705, 0x0003ef17, 0x00fc1b1e,
    0x0003cb3a, 0x00fc3f33, 0x0003d721, 0x00fc2328,
    0x000363b8, 0x00fc97b1, 0x00037fa3, 0x00fc8baa,
    0x00035b8e, 0x00fcaf87, 0x00034795, 0x00fcb39c,
    0x000313d4, 0x00fce7dd, 0x00030fcf, 0x00fcfbc6,
    0x00032be2, 0x00fcdfeb, 0x000337f9, 0x00fcc3f0,
    0x000242d0, 0x00fdb6d9, 0x00025ecb, 0x00fdaac2,
    0x00027ae6, 0x00fd8eef, 0x000266fd, 0x00fd92f4,
    0x000232bc, 0x00fdc6b5, 0x00022ea7, 0x00fddaae,
    0x00020a8a, 0x00fdfe83, 0x00021691, 0x00fde298,
    0x0002a208, 0x00fd5601, 0x0002be13, 0x00fd4a1a,
    0x00029a3e, 0x00fd6e37, 0x00028625, 0x00fd722c,
    0x0002d264, 0x00fd266d, 0x0002ce7f, 0x00fd3a76,
    0x0002ea52, 0x00fd1e5b, 0x0002f649, 0x00fd0240,
    0x000706c0, 0x00f8f2c9, 0x00071adb, 0x00f8eed2,
    0x00073ef6, 0x00f8caff, 0x000722ed, 0x00f8d6e4,
    0x000776ac, 0x00f882a5, 0x00076ab7, 0x00f89ebe,
    0x00074e9a, 0x00f8ba93, 0x00075281, 0x00f8a688,
    0x0007e618, 0x00f81211, 0x0007fa03, 0x00f80e0a,
    0x0007de2e, 0x00f82a27, 0x0007c235, 0x00f8363c,
    0x00079674, 0x00f8627d, 0x00078a6f, 0x00f87e66,
    0x0007ae42, 0x00f85a4b, 0x0007b259, 0x00f84650,
    0x0006c770, 0x00f93379, 0x0006db6b, 0x00f92f62,
    0x0006ff46, 0x00f90b4f, 0x0006e35d, 0x00f91754,
    0x0006b71c, 0x00f94315, 0x0006ab07, 0x00f95f0e,
    0x00068f2a, 0x00f97b23, 0x00069331, 0x00f96738,
    0x000627a8, 0x00f9d3a1, 0x00063bb3, 0x00f9cfba,
    0x00061f9e, 0x00f9eb97, 0x00060385, 0x00f9f78c,
    0x000657c4, 0x00f9a3cd, 0x00064bdf, 0x00f9bfd6,
    0x00066ff2, 0x00f99bfb, 0x000673e9, 0x00f987e0,
    0x000485a0, 0x00fb71a9, 0x000499bb, 0x00fb6db2,
    0x0004bd96, 0x00fb499f, 0x0004a18d, 0x00fb5584,
    0x0004f5cc, 0x00fb01c5, 0x0004e9d7, 0x00fb1dde,
    0x0004cdfa, 0x00fb39f3, 0x0004d1e1, 0x00fb25e8,
    0x00046578, 0x00fb9171, 0x00047963, 0x00fb8d6a,
    0x00045d4e, 0x00fba947, 0x00044155, 0x00fbb55c,
    0x00041514, 0x00fbe11d, 0x0004090f, 0x00fbfd06,
    0x00042d22, 0x00fbd92b, 0x00043139, 0x00fbc530,
    0x00054410, 0x00fab019, 0x0005580b, 0x00faac02,
    0x00057c26, 0x00fa882f, 0x0005603d, 0x00fa9434,
    0x0005347c, 0x00fac075, 0x00052867, 0x00fadc6e,
    0x00050c4a, 0x00faf843, 0x00051051, 0x00fae458,
    0x0005a4c8, 0x00fa50c1, 0x0005b8d3, 0x00fa4cda,
    0x00059cfe, 0x00fa68f7, 0x000580e5, 0x00fa74ec,
    0x0005d4a4, 0x00fa20ad, 0x0005c8bf, 0x00fa3cb6,
    0x0005ec92, 0x00fa189b, 0x0005f089, 0x00fa0480,
];

/// The 24-bit remainder after folding the first `i` bytes of the message
/// through the lookup table.
pub open spec fn spec_crc_remainder(message: Seq<u8>, i: nat) -> u32
    decreases i,
{
    if i == 0 {
        0u32
    } else {
        let prev = spec_crc_remainder(message, (i - 1) as nat);
        ((prev << 8) ^ CRC_TABLE@[((message[i - 1] as u32) ^ ((prev & 0x00ff_0000) >> 16)) as int])
            & 0x00ff_ffff
    }
}

/// Whether a checksum over `bits` bits of `message` can be computed: the bit
/// length must cover at least three whole bytes that the buffer really holds.
pub open spec fn spec_checksum_computable(message: Seq<u8>, bits: nat) -> bool {
    bits / 8 >= 3 && message.len() >= bits / 8
}

/// The Mode S checksum over the first `bits / 8` bytes of `message`: the
/// table-driven remainder over the leading bytes, XORed with the trailing
/// three bytes read as a big-endian 24-bit integer.
pub open spec fn spec_checksum(message: Seq<u8>, bits: nat) -> u32 {
    let n = bits / 8;
    let rem = spec_crc_remainder(message, (n - 3) as nat);
    let xor_term = ((message[n - 3] as u32) << 16) ^ ((message[n - 2] as u32) << 8) ^ (message[n
        - 1] as u32);
    rem ^ xor_term
}

/// Computes the Mode S CRC-24 over the first `bits / 8` bytes of `message`.
///
/// Fails exactly when `bits / 8 < 3` or the message is shorter than
/// `bits / 8` bytes; otherwise the result is the table-driven checksum, a
/// pure function of the covered bytes.
pub fn modes_checksum(message: &[u8], bits: usize) -> (result: Result<u32, ChecksumError>)
    ensures
        result is Ok <==> spec_checksum_computable(message@, bits as nat),
        result matches Ok(crc) ==> crc == spec_checksum(message@, bits as nat),
{
    let n = bits / 8;

    if n < 3 || message.len() < n {
        return Err(ChecksumError::Incomplete);
    }

    let mut rem: u32 = 0;
    let mut i: usize = 0;
    while i < n - 3
        invariant
            spec_checksum_computable(message@, bits as nat),
            n == bits / 8,
            i <= n - 3,
            n <= message@.len(),
            rem == spec_crc_remainder(message@, i as nat),
        decreases n - 3 - i,
    {
        let byte: u32 = message[i] as u32;
        let index: u32 = byte ^ ((rem & 0x00ff_0000) >> 16);
        proof {
            assert(index < 256) by (bit_vector)
                requires
                    index == (byte ^ ((rem & 0x00ff_0000) >> 16)) && byte < 256,
            ;
        }
        rem = ((rem << 8) ^ CRC_TABLE[index as usize]) & 0x00ff_ffff;
        i = i + 1;
    }

    let msg_1: u32 = (message[n - 3] as u32) << 16;
    let msg_2: u32 = (message[n - 2] as u32) << 8;
    let msg_3: u32 = message[n - 1] as u32;
    let xor_term: u32 = msg_1 ^ msg_2 ^ msg_3;

    rem = rem ^ xor_term;

    Ok(rem)
}

/// The remainder folds only the first `i` bytes: two messages that agree on
/// those bytes share it.
pub proof fn lemma_crc_remainder_prefix(m1: Seq<u8>, m2: Seq<u8>, i: nat)
    requires
        forall|j: int| 0 <= j < i ==> m1[j] == m2[j],
    ensures
        spec_crc_remainder(m1, i) == spec_crc_remainder(m2, i),
    decreases i,
{
    if i > 0 {
        lemma_crc_remainder_prefix(m1, m2, (i - 1) as nat);
    }
}

/// The checksum is sensitive to its trailing bytes: two messages of the same
/// covered length that agree everywhere but in one of the last three covered
/// bytes always get different checksums. (For the leading bytes the same
/// holds of the Mode S parity polynomial, but it rests on the table's
/// algebra; a test exercises those positions bit by bit.)
pub proof fn lemma_checksum_trailing_sensitivity(m1: Seq<u8>, m2: Seq<u8>, bits: nat)
    requires
        spec_checksum_computable(m1, bits),
        spec_checksum_computable(m2, bits),
        forall|j: int| 0 <= j < bits / 8 - 3 ==> m1[j] == m2[j],
        m1[bits / 8 - 3] != m2[bits / 8 - 3] || m1[bits / 8 - 2] != m2[bits / 8 - 2] || m1[bits / 8
            - 1] != m2[bits / 8 - 1],
    ensures
        spec_checksum(m1, bits) != spec_checksum(m2, bits),
{
    let n = bits / 8;
    lemma_crc_remainder_prefix(m1, m2, (n - 3) as nat);
    let rem = spec_crc_remainder(m1, (n - 3) as nat);
    let a1 = m1[n - 3];
    let b1 = m1[n - 2];
    let c1 = m1[n - 1];
    let a2 = m2[n - 3];
    let b2 = m2[n - 2];
    let c2 = m2[n - 1];
    assert(rem ^ (((a1 as u32) << 16) ^ ((b1 as u32) << 8) ^ (c1 as u32)) != rem ^ (((a2 as u32)
        << 16) ^ ((b2 as u32) << 8) ^ (c2 as u32))) by (bit_vector)
        requires
            a1 != a2 || b1 != b2 || c1 != c2,
    ;
}

} // verus!
