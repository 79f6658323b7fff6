use acars_vdlm2_parser::frames::{extract_frames, hex_decode, ADSBRawError};

#[test]
fn extraction_exactness_two_frames() {
    let input = b"*5DABE65A2FBFAF;\n*8DA1A3CC9909B814F004127F1107;\n";
    let (frames, diagnostics) = extract_frames(input);
    assert_eq!(
        frames,
        vec![
            hex::decode("5DABE65A2FBFAF").unwrap(),
            hex::decode("8DA1A3CC9909B814F004127F1107").unwrap()
        ]
    );
    assert_eq!(diagnostics.len(), 0);
}

#[test]
fn extraction_tolerance_mode_ac_frame_dropped() {
    let input = b"*5DABE65A2FBFAF;\n*8DA1A3CC9909B814F004127F1107;\n*5424;\n";
    let (frames, diagnostics) = extract_frames(input);
    assert_eq!(
        frames,
        vec![
            hex::decode("5DABE65A2FBFAF").unwrap(),
            hex::decode("8DA1A3CC9909B814F004127F1107").unwrap()
        ]
    );
    assert_eq!(diagnostics.len(), 0);
}

#[test]
fn extraction_junk_length_diagnostic() {
    let input = b"*ABCDEF;\n*5DABE65A2FBFAF;\n";
    let (frames, diagnostics) = extract_frames(input);
    assert_eq!(frames, vec![hex::decode("5DABE65A2FBFAF").unwrap()]);
    assert_eq!(diagnostics, vec![ADSBRawError::ByteSequenceWrong { size: 6 }]);
}

#[test]
fn extraction_bad_hex_diagnostic() {
    let input = b"*5DABE65A2FBFAG;\n";
    let (frames, diagnostics) = extract_frames(input);
    assert_eq!(frames.len(), 0);
    assert_eq!(diagnostics, vec![ADSBRawError::HexDecodeError]);
}

#[test]
fn extraction_star_restarts_accumulation() {
    // A second `*` discards what was accumulated before it.
    let input = b"*FFFF*5DABE65A2FBFAF;\n";
    let (frames, diagnostics) = extract_frames(input);
    assert_eq!(frames, vec![hex::decode("5DABE65A2FBFAF").unwrap()]);
    assert_eq!(diagnostics.len(), 0);
}

#[test]
fn extraction_needs_start_marker() {
    // A line feed before any `*` closes nothing.
    let input = b"5DABE65A2FBFAF;\n";
    let (frames, diagnostics) = extract_frames(input);
    assert_eq!(frames.len(), 0);
    assert_eq!(diagnostics.len(), 0);
}

#[test]
fn hex_decode_accepts_both_cases() {
    assert_eq!(hex_decode(b"5dAbE6"), Some(vec![0x5d, 0xab, 0xe6]));
    assert_eq!(hex_decode(b""), Some(vec![]));
    assert_eq!(hex_decode(b"ABC"), None);
    assert_eq!(hex_decode(b"GG"), None);
}
