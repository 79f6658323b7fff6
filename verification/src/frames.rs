//! The frame extractor: turns a raw byte stream of `*<hex>;\n`-delimited
//! frames into hex-decoded byte frames, dropping Mode A/C frames and
//! recording a non-fatal diagnostic for every junk-length or non-hex frame.

use vstd::prelude::*;

verus! {

/// The start-of-frame marker `*`.
pub const ADSB_RAW_START_CHARACTER: u8 = 0x2a;

/// The `;` that ends a frame body.
pub const ADSB_RAW_END_SEQUENCE_FINISH_CHARACTER: u8 = 0x3b;

/// The line feed that closes a frame.
pub const ADSB_RAW_END_SEQUENCE_INIT_CHARACTER: u8 = 0x0a;

/// Hex-digit count of a short (7-byte) Mode S frame.
pub const ADSB_RAW_FRAME_SMALL: usize = 14;

/// Hex-digit count of a long (14-byte) Mode S frame.
pub const ADSB_RAW_FRAME_LARGE: usize = 28;

/// Hex-digit count of a Mode A/C frame, which is silently dropped.
pub const ADSB_RAW_MODEAC_FRAME: usize = 4;

/// A non-fatal diagnostic for one frame of the input stream; the frame is
/// dropped and scanning continues.
#[derive(Debug, Clone, Copy, PartialEq, Eq, Structural)]
pub enum ADSBRawError {
    /// The accumulated frame body is not 4, 14 or 28 bytes long; `size` is
    /// its length, truncated to a byte.
    ByteSequenceWrong { size: u8 },
    /// The frame body has a valid length but holds a non-hex-digit byte.
    HexDecodeError,
}

/// The value of one ASCII hex digit, upper or lower case.
pub open spec fn spec_hex_digit(b: u8) -> Option<u8> {
    if 0x30 <= b <= 0x39 {
        Some((b - 0x30) as u8)
    } else if 0x61 <= b <= 0x66 {
        Some((b - 0x57) as u8)
    } else if 0x41 <= b <= 0x46 {
        Some((b - 0x37) as u8)
    } else {
        None
    }
}

/// Whether every byte of `s` is an ASCII hex digit.
pub open spec fn spec_all_hex(s: Seq<u8>) -> bool {
    forall|i: int| 0 <= i < s.len() ==> #[trigger] spec_hex_digit(s[i]) is Some
}

/// Hex decoding of an even-length ASCII hex string to bytes; `None` when the
/// length is odd or any byte is not a hex digit.
pub open spec fn spec_hex_decode(s: Seq<u8>) -> Option<Seq<u8>> {
    if s.len() % 2 == 0 && spec_all_hex(s) {
        Some(
            Seq::new(
                s.len() / 2,
                |i: int|
                    ((spec_hex_digit(s[2 * i]).unwrap() as u8) * 16 + spec_hex_digit(
                        s[2 * i + 1],
                    ).unwrap()) as u8,
            ),
        )
    } else {
        None
    }
}

/// Decodes one ASCII hex digit, upper or lower case.
fn hex_digit(b: u8) -> (r: Option<u8>)
    ensures
        r == spec_hex_digit(b),
{
    if 0x30 <= b && b <= 0x39 {
        Some(b - 0x30)
    } else if 0x61 <= b && b <= 0x66 {
        Some(b - 0x57)
    } else if 0x41 <= b && b <= 0x46 {
        Some(b - 0x37)
    } else {
        None
    }
}

/// Decodes an ASCII hex string to bytes: two digits per output byte, upper or
/// lower case; fails exactly when the length is odd or a byte is not a hex
/// digit.
pub fn hex_decode(s: &[u8]) -> (r: Option<Vec<u8>>)
    ensures
        r is Some <==> spec_hex_decode(s@) is Some,
        r matches Some(v) ==> Some(v@) == spec_hex_decode(s@),
{
    if s.len() % 2 != 0 {
        return None;
    }
    let half: usize = s.len() / 2;
    let mut out: Vec<u8> = Vec::new();
    let mut i: usize = 0;
    while i < half
        invariant
            s@.len() % 2 == 0,
            half == s@.len() / 2,
            i <= half,
            out@.len() == i,
            forall|j: int|
                0 <= j < 2 * i ==> #[trigger] spec_hex_digit(s@[j]) is Some,
            forall|j: int|
                0 <= j < i ==> out@[j] == ((spec_hex_digit(s@[2 * j]).unwrap() as u8) * 16
                    + spec_hex_digit(s@[2 * j + 1]).unwrap()) as u8,
        decreases half - i,
    {
        let hi: Option<u8> = hex_digit(s[2 * i]);
        let lo: Option<u8> = hex_digit(s[2 * i + 1]);
        match (hi, lo) {
            (Some(h), Some(l)) => {
                out.push(h * 16 + l);
            },
            _ => {
                return None;
            },
        }
        i = i + 1;
    }
    proof {
        assert(spec_all_hex(s@)) by {
            assert forall|j: int| 0 <= j < s@.len() implies #[trigger] spec_hex_digit(s@[j])
                is Some by {
                assert(j < 2 * half);
            }
        }
        assert(out@ =~= spec_hex_decode(s@).unwrap());
    }
    Some(out)
}

/// What closing one accumulated frame body yields: an emitted byte frame, a
/// diagnostic, or (for a Mode A/C frame) nothing.
pub open spec fn spec_frame_outcome(cur: Seq<u8>) -> (Option<Seq<u8>>, Option<ADSBRawError>) {
    if cur.len() == ADSB_RAW_MODEAC_FRAME {
        (None, None)
    } else if cur.len() == ADSB_RAW_FRAME_SMALL || cur.len() == ADSB_RAW_FRAME_LARGE {
        match spec_hex_decode(cur) {
            Some(bytes) => (Some(bytes), None),
            None => (None, Some(ADSBRawError::HexDecodeError)),
        }
    } else {
        (None, Some(ADSBRawError::ByteSequenceWrong { size: cur.len() as u8 }))
    }
}

/// The scanner state after the first `i` input bytes: frames emitted so far,
/// diagnostics recorded so far, the accumulation buffer, and whether a start
/// marker has been seen yet.
pub open spec fn spec_extract(bytes: Seq<u8>, i: nat) -> (
    Seq<Seq<u8>>,
    Seq<ADSBRawError>,
    Seq<u8>,
    bool,
)
    decreases i,
{
    if i == 0 {
        (Seq::empty(), Seq::empty(), Seq::empty(), false)
    } else {
        let (frames, errs, cur, started) = spec_extract(bytes, (i - 1) as nat);
        let b = bytes[i - 1];
        if b == ADSB_RAW_END_SEQUENCE_INIT_CHARACTER && started {
            let (frame, err) = spec_frame_outcome(cur);
            (
                match frame {
                    Some(f) => frames.push(f),
                    None => frames,
                },
                match err {
                    Some(e) => errs.push(e),
                    None => errs,
                },
                cur,
                started,
            )
        } else if b == ADSB_RAW_START_CHARACTER {
            (frames, errs, Seq::empty(), true)
        } else if b != ADSB_RAW_END_SEQUENCE_FINISH_CHARACTER && b
            != ADSB_RAW_END_SEQUENCE_INIT_CHARACTER {
            (frames, errs, cur.push(b), started)
        } else {
            (frames, errs, cur, started)
        }
    }
}

/// The byte frames that the scan of `bytes` emits, in input order.
pub open spec fn spec_extract_frames(bytes: Seq<u8>) -> Seq<Seq<u8>> {
    spec_extract(bytes, bytes.len()).0
}

/// The non-fatal diagnostics that the scan of `bytes` records, in input
/// order.
pub open spec fn spec_extract_errors(bytes: Seq<u8>) -> Seq<ADSBRawError> {
    spec_extract(bytes, bytes.len()).1
}

/// Scans a raw byte stream for `*<hex>;\n`-delimited frames and returns the
/// hex-decoded byte frames together with the non-fatal diagnostics.
///
/// A `*` starts a new accumulation buffer, discarding whatever was
/// accumulated before; a line feed seen after at least one start marker
/// closes the buffer and classifies it by length: 4 hex digits is a Mode A/C
/// frame and is silently dropped, 14 or 28 hex digits are decoded and
/// emitted, and any other length is recorded as a `ByteSequenceWrong`
/// diagnostic. `;` and line feeds are never accumulated; every other byte is.
/// Diagnostics never stop the scan.
pub fn extract_frames(bytes: &[u8]) -> (r: (Vec<Vec<u8>>, Vec<ADSBRawError>))
    ensures
        r.0@.len() == spec_extract_frames(bytes@).len(),
        forall|j: int| 0 <= j < r.0@.len() ==> r.0@[j]@ == spec_extract_frames(bytes@)[j],
        r.1@ == spec_extract_errors(bytes@),
{
    let mut formatted_frames: Vec<Vec<u8>> = Vec::new();
    let mut errors_found: Vec<ADSBRawError> = Vec::new();
    let mut current_frame: Vec<u8> = Vec::new();
    let mut entry: bool = false;

    let mut i: usize = 0;
    while i < bytes.len()
        invariant
            i <= bytes@.len(),
            formatted_frames@.len() == spec_extract(bytes@, i as nat).0.len(),
            forall|j: int|
                0 <= j < formatted_frames@.len() ==> formatted_frames@[j]@ == spec_extract(
                    bytes@,
                    i as nat,
                ).0[j],
            errors_found@ == spec_extract(bytes@, i as nat).1,
            current_frame@ == spec_extract(bytes@, i as nat).2,
            entry == spec_extract(bytes@, i as nat).3,
        decreases bytes@.len() - i,
    {
        let byte: u8 = bytes[i];
        if byte == ADSB_RAW_END_SEQUENCE_INIT_CHARACTER && entry {
            let len: usize = current_frame.len();
            if len == ADSB_RAW_MODEAC_FRAME {
                // A valid frame size, but a Mode A/C frame is not decoded here.
            } else if len == ADSB_RAW_FRAME_SMALL || len == ADSB_RAW_FRAME_LARGE {
                match hex_decode(current_frame.as_slice()) {
                    Some(frame_bytes) => {
                        formatted_frames.push(frame_bytes);
                    },
                    None => {
                        errors_found.push(ADSBRawError::HexDecodeError);
                    },
                }
            } else {
                errors_found.push(ADSBRawError::ByteSequenceWrong { size: len as u8 });
            }
        } else if byte == ADSB_RAW_START_CHARACTER {
            entry = true;
            current_frame = Vec::new();
        } else if byte != ADSB_RAW_END_SEQUENCE_FINISH_CHARACTER && byte
            != ADSB_RAW_END_SEQUENCE_INIT_CHARACTER {
            current_frame.push(byte);
        }
        i = i + 1;
    }

    (formatted_frames, errors_found)
}

/// Formats raw frames from bytes: the frames that `extract_frames` yields,
/// with the diagnostics dropped.
pub fn format_adsb_raw_frames_from_bytes(bytes: &[u8]) -> (r: Vec<Vec<u8>>)
    ensures
        r@.len() == spec_extract_frames(bytes@).len(),
        forall|j: int| 0 <= j < r@.len() ==> r@[j]@ == spec_extract_frames(bytes@)[j],
{
    let (frames, _errors) = extract_frames(bytes);
    frames
}

/// How many `*` characters the line starts with.
pub open spec fn spec_leading_stars(s: Seq<char>) -> nat
    decreases s.len(),
{
    if s.len() == 0 || s[0] != '*' {
        0
    } else {
        1 + spec_leading_stars(s.drop_first())
    }
}

/// How many trailing characters of the line are `;` or a line feed.
pub open spec fn spec_trailing_wrap(s: Seq<char>) -> nat
    decreases s.len(),
{
    if s.len() == 0 || (s.last() != ';' && s.last() != '\n') {
        0
    } else {
        1 + spec_trailing_wrap(s.drop_last())
    }
}

/// The line with every leading `*` removed, then every trailing `;` or line
/// feed removed from what is left.
pub open spec fn spec_strip_frame(s: Seq<char>) -> Seq<char> {
    let rest = s.skip(spec_leading_stars(s) as int);
    rest.take(rest.len() - spec_trailing_wrap(rest))
}

proof fn lemma_leading_stars_bound(s: Seq<char>)
    ensures
        spec_leading_stars(s) <= s.len(),
    decreases s.len(),
{
    if s.len() != 0 && s[0] == '*' {
        lemma_leading_stars_bound(s.drop_first());
    }
}

proof fn lemma_trailing_wrap_bound(s: Seq<char>)
    ensures
        spec_trailing_wrap(s) <= s.len(),
    decreases s.len(),
{
    if s.len() != 0 && (s.last() == ';' || s.last() == '\n') {
        lemma_trailing_wrap_bound(s.drop_last());
    }
}

/// A prefix of `k` stars followed by a non-star (or the end) pins the
/// leading-star count at `k`.
proof fn lemma_leading_stars_is(s: Seq<char>, k: int)
    requires
        0 <= k <= s.len(),
        forall|j: int| 0 <= j < k ==> s[j] == '*',
        k == s.len() || s[k] != '*',
    ensures
        spec_leading_stars(s) == k,
    decreases k,
{
    if k == 0 {
    } else {
        lemma_leading_stars_is(s.drop_first(), k - 1);
    }
}

/// A suffix of `k` wrap characters preceded by a non-wrap character (or the
/// start) pins the trailing-wrap count at `k`.
proof fn lemma_trailing_wrap_is(s: Seq<char>, k: int)
    requires
        0 <= k <= s.len(),
        forall|j: int| s.len() - k <= j < s.len() ==> s[j] == ';' || s[j] == '\n',
        k == s.len() || (s[s.len() - k - 1] != ';' && s[s.len() - k - 1] != '\n'),
    ensures
        spec_trailing_wrap(s) == k,
    decreases k,
{
    if k == 0 {
    } else {
        lemma_trailing_wrap_is(s.drop_last(), k - 1);
    }
}

/// Formats one raw frame from a text line: removes every `*` from the start
/// of the line and every `;` or line feed from its end, and returns the rest.
pub fn format_adsb_raw_frame_from_str(line: &str) -> (r: String)
    ensures
        r@ == spec_strip_frame(line@),
{
    let len: usize = line.unicode_len();
    let mut start: usize = 0;
    while start < len && line.get_char(start) == '*'
        invariant
            len == line@.len(),
            start <= len,
            forall|j: int| 0 <= j < start ==> line@[j] == '*',
        decreases len - start,
    {
        start = start + 1;
    }
    proof {
        lemma_leading_stars_is(line@, start as int);
    }
    let ghost rest = line@.skip(start as int);
    let mut end: usize = len;
    loop
        invariant
            len == line@.len(),
            start <= end <= len,
            forall|j: int| end <= j < len ==> line@[j] == ';' || line@[j] == '\n',
        ensures
            start <= end <= len,
            forall|j: int| end <= j < len ==> line@[j] == ';' || line@[j] == '\n',
            end == start || (line@[end - 1] != ';' && line@[end - 1] != '\n'),
        decreases end,
    {
        if end == start {
            break ;
        }
        let c: char = line.get_char(end - 1);
        if c == ';' || c == '\n' {
            end = end - 1;
        } else {
            break ;
        }
    }
    proof {
        assert forall|j: int| rest.len() - (len - end) <= j < rest.len() implies rest[j] == ';'
            || rest[j] == '\n' by {
            assert(rest[j] == line@[j + start]);
        }
        if end > start {
            assert(rest[rest.len() - (len - end) - 1] == line@[end - 1]);
        }
        lemma_trailing_wrap_is(rest, len - end);
        assert(spec_strip_frame(line@) =~= line@.subrange(start as int, end as int));
    }
    let stripped: &str = line.substring_char(start, end);
    stripped.to_owned()
}

/// The frame lines that formatting a list of text lines yields: every
/// non-empty line is stripped of its `*` and `;`/line-feed wrapping; empty
/// lines are dropped.
pub open spec fn spec_format_lines(lines: Seq<Seq<char>>) -> Seq<Seq<char>>
    decreases lines.len(),
{
    if lines.len() == 0 {
        Seq::empty()
    } else {
        spec_format_lines(lines.drop_last()) + (if lines.last().len() > 0 {
            seq![spec_strip_frame(lines.last())]
        } else {
            Seq::empty()
        })
    }
}

/// Formats raw frames from a list of text lines: strips each non-empty line
/// as `format_adsb_raw_frame_from_str` does, keeping input order and dropping
/// empty lines.
pub fn format_adsb_raw_frames_from_vec_string(frames: &Vec<String>) -> (r: Vec<String>)
    ensures
        r@.len() == spec_format_lines(frames@.map_values(|l: String| l@)).len(),
        forall|j: int|
            0 <= j < r@.len() ==> r@[j]@ == spec_format_lines(frames@.map_values(|l: String| l@))[j],
{
    let ghost all = frames@.map_values(|l: String| l@);
    let mut output: Vec<String> = Vec::new();
    let mut i: usize = 0;
    while i < frames.len()
        invariant
            i <= frames@.len(),
            all == frames@.map_values(|l: String| l@),
            output@.len() == spec_format_lines(all.take(i as int)).len(),
            forall|j: int|
                0 <= j < output@.len() ==> output@[j]@ == spec_format_lines(all.take(i as int))[j],
        decreases frames@.len() - i,
    {
        let line: &String = &frames[i];
        if line.as_str().unicode_len() > 0 {
            output.push(format_adsb_raw_frame_from_str(line.as_str()));
        }
        proof {
            assert(all.take(i + 1).drop_last() =~= all.take(i as int));
            assert(all.take(i + 1).last() == all[i as int]);
        }
        i = i + 1;
    }
    proof {
        assert(all.take(all.len() as int) =~= all);
    }
    output
}

} // verus!
