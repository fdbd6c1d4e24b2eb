use vstd::prelude::*;
use crate::bits::{bit, get_bit_at};
use crate::mode::{Mode, lemma_mode_table, mode_of};
use crate::segment::{SevenSegment, glyph_of};

verus! {

/// Why a frame could not be decoded.
#[derive(Debug, Clone, Copy, PartialEq, Eq, Structural)]
pub enum DecodeError {
    /// The first byte of the frame is the code of no known mode; it carries
    /// that byte.
    UnrecognizedMode(u8),
}

/// One decoded frame: the mode, the four digits from the most significant
/// one down, and the decimal point after each of the first three digits.
#[derive(Debug, Clone, Copy)]
pub struct MeterState {
    pub mode: Mode,
    pub seven_segments: [SevenSegment; 4],
    pub dot_positions: [bool; 3],
}

/// What a decoded frame says, with each digit as its segment pattern.
pub struct Reading {
    pub mode: Mode,
    pub digits: Seq<Seq<bool>>,
    pub dots: Seq<bool>,
}

/// The segment pattern carried by a digit byte: segments A to G sit at bits
/// 0, 4, 6, 7, 2, 1 and 5, in that order.
pub open spec fn digit_pattern(b: u8) -> Seq<bool> {
    seq![bit(b, 0), bit(b, 4), bit(b, 6), bit(b, 7), bit(b, 2), bit(b, 1), bit(b, 5)]
}

/// The reading carried by an eight-byte frame. Byte 0 is the mode code;
/// bytes 6, 5, 4 and 3 hold the digits from the most significant one down;
/// bit 3 of bytes 5, 4 and 3 marks the decimal points. Bytes 1, 2 and 7 are
/// not read.
pub open spec fn decode_frame(data: Seq<u8>) -> Result<Reading, DecodeError> {
    match mode_of(data[0]) {
        None => Err(DecodeError::UnrecognizedMode(data[0])),
        Some(m) => Ok(
            Reading {
                mode: m,
                digits: seq![
                    digit_pattern(data[6]),
                    digit_pattern(data[5]),
                    digit_pattern(data[4]),
                    digit_pattern(data[3]),
                ],
                dots: seq![bit(data[5], 3), bit(data[4], 3), bit(data[3], 3)],
            },
        ),
    }
}

/// Whether `r` is the outcome of decoding `data`.
pub open spec fn decodes_to(data: Seq<u8>, r: Result<MeterState, DecodeError>) -> bool {
    match r {
        Ok(st) => decode_frame(data) == Ok::<Reading, DecodeError>(st.view()),
        Err(e) => decode_frame(data) == Err::<Reading, DecodeError>(e),
    }
}

/// A decimal point where `on` holds, nothing otherwise.
pub open spec fn point(on: bool) -> Seq<char> {
    if on {
        seq!['.']
    } else {
        Seq::empty()
    }
}

/// The line that shows a reading: each digit's glyph, with a `.` after each
/// of the first three digits whose point is lit.
pub open spec fn display_text(r: Reading) -> Seq<char> {
    seq![glyph_of(r.digits[0])] + point(r.dots[0]) + seq![glyph_of(r.digits[1])] + point(r.dots[1])
        + seq![glyph_of(r.digits[2])] + point(r.dots[2]) + seq![glyph_of(r.digits[3])]
}

/// The text of the first `n` digits of a reading, each with the point that
/// follows it.
pub open spec fn text_prefix(r: Reading, n: int) -> Seq<char>
    decreases n,
{
    if n <= 0 {
        Seq::empty()
    } else {
        text_prefix(r, n - 1) + seq![glyph_of(r.digits[n - 1])] + if n - 1 < 3 {
            point(r.dots[n - 1])
        } else {
            Seq::empty()
        }
    }
}

/// The segment pattern held in a digit byte.
fn digit_from_byte(b: u8) -> (r: SevenSegment)
    ensures
        r.view() == digit_pattern(b),
{
    let r = SevenSegment {
        segments: [
            get_bit_at(b, 0),
            get_bit_at(b, 4),
            get_bit_at(b, 6),
            get_bit_at(b, 7),
            get_bit_at(b, 2),
            get_bit_at(b, 1),
            get_bit_at(b, 5),
        ],
    };
    assert(r.view() =~= digit_pattern(b));
    r
}

impl MeterState {
    pub open spec fn view(&self) -> Reading {
        Reading {
            mode: self.mode,
            digits: self.seven_segments@.map_values(|s: SevenSegment| s.view()),
            dots: self.dot_positions@,
        }
    }

    /// Decodes one frame. It fails, carrying the byte, exactly when byte 0
    /// is the code of no mode.
    pub fn new(data: [u8; 8]) -> (r: Result<Self, DecodeError>)
        ensures
            decodes_to(data@, r),
            r is Ok <==> mode_of(data[0]) is Some,
    {
        let mode = match Mode::from_u8(data[0]) {
            Some(m) => m,
            None => {
                return Err(DecodeError::UnrecognizedMode(data[0]));
            },
        };
        let seven_segments = [
            digit_from_byte(data[6]),
            digit_from_byte(data[5]),
            digit_from_byte(data[4]),
            digit_from_byte(data[3]),
        ];
        let dot_positions = [
            get_bit_at(data[5], 3),
            get_bit_at(data[4], 3),
            get_bit_at(data[3], 3),
        ];
        let st = MeterState { mode, seven_segments, dot_positions };
        proof {
            let want = seq![
                digit_pattern(data[6]),
                digit_pattern(data[5]),
                digit_pattern(data[4]),
                digit_pattern(data[3]),
            ];
            assert(st.view().digits =~= want);
            assert(st.view().dots =~= seq![bit(data[5], 3), bit(data[4], 3), bit(data[3], 3)]);
        }
        Ok(st)
    }

    /// The characters that show this reading on one line.
    pub fn text(&self) -> (r: Vec<char>)
        ensures
            r@ == display_text(self.view()),
    {
        let mut out: Vec<char> = Vec::new();
        let mut i: usize = 0;
        while i < 4
            invariant
                i <= 4,
                out@ == text_prefix(self.view(), i as int),
            decreases 4 - i,
        {
            out.push(self.seven_segments[i].to_string());
            if i < 3 && self.dot_positions[i] {
                out.push('.');
            }
            proof {
                assert(self.view().digits[i as int] == self.seven_segments[i as int].view());
            }
            i = i + 1;
        }
        proof {
            let v = self.view();
            let g = |k: int| seq![glyph_of(v.digits[k])];
            assert(text_prefix(v, 0) =~= Seq::<char>::empty());
            assert(text_prefix(v, 1) =~= g(0) + point(v.dots[0]));
            assert(text_prefix(v, 2) =~= g(0) + point(v.dots[0]) + g(1) + point(v.dots[1]));
            assert(text_prefix(v, 3) =~= g(0) + point(v.dots[0]) + g(1) + point(v.dots[1]) + g(2)
                + point(v.dots[2]));
            assert(display_text(v) =~= text_prefix(v, 4));
        }
        out
    }
}

/// Decoding is deterministic: two outcomes of decoding the same frame are
/// alike, both the same reading or both the same error.
pub proof fn lemma_decode_deterministic(
    a: Seq<u8>,
    b: Seq<u8>,
    ra: Result<MeterState, DecodeError>,
    rb: Result<MeterState, DecodeError>,
)
    requires
        a.len() == 8,
        a == b,
        decodes_to(a, ra),
        decodes_to(b, rb),
    ensures
        ra is Ok <==> rb is Ok,
        ra is Ok ==> ra->Ok_0.view() == rb->Ok_0.view(),
        ra is Err ==> ra->Err_0 == rb->Err_0,
{
}

/// A frame whose first byte is the code of a mode decodes, to that mode,
/// whatever its other bytes hold.
pub proof fn lemma_known_mode_decodes(m: Mode, data: Seq<u8>)
    requires
        data.len() == 8,
        data[0] == m.code(),
    ensures
        decode_frame(data) is Ok,
        decode_frame(data)->Ok_0.mode == m,
{
    lemma_mode_table(data[0]);
}

/// A frame whose first byte is the code of no mode fails with
/// `UnrecognizedMode`, carrying that byte.
pub proof fn lemma_unknown_mode_rejected(data: Seq<u8>)
    requires
        data.len() == 8,
        forall|m: Mode| m.code() != data[0],
    ensures
        decode_frame(data) == Err::<Reading, DecodeError>(DecodeError::UnrecognizedMode(data[0])),
{
    lemma_mode_table(data[0]);
}

/// The first decimal point depends on bit 3 of byte 5 alone: frames that
/// agree on that bit show the same first point, whatever the other bits of
/// byte 5, which carry the second digit, hold.
pub proof fn lemma_first_point_independent(a: Seq<u8>, b: Seq<u8>)
    requires
        a.len() == 8,
        b.len() == 8,
        mode_of(a[0]) is Some,
        mode_of(b[0]) is Some,
        a[5] & 0x08u8 == b[5] & 0x08u8,
    ensures
        decode_frame(a)->Ok_0.dots[0] == decode_frame(b)->Ok_0.dots[0],
{
    let (x, y) = (a[5], b[5]);
    assert(x & 0x08u8 == y & 0x08u8 ==> (x >> 3u8) & 1u8 == (y >> 3u8) & 1u8) by (bit_vector);
}

/// Setting bit 3 of byte 5, where it was clear, lights the first decimal
/// point and changes nothing else in the reading; in particular the second
/// digit keeps its pattern, and so its glyph.
pub proof fn lemma_set_first_point(a: Seq<u8>)
    requires
        a.len() == 8,
        mode_of(a[0]) is Some,
        !bit(a[5], 3),
    ensures
        ({
            let ra = decode_frame(a)->Ok_0;
            let rb = decode_frame(a.update(5, a[5] | 0x08u8))->Ok_0;
            &&& !ra.dots[0]
            &&& rb.dots[0]
            &&& rb.mode == ra.mode
            &&& rb.digits == ra.digits
            &&& glyph_of(rb.digits[1]) == glyph_of(ra.digits[1])
            &&& rb.dots.drop_first() == ra.dots.drop_first()
        }),
{
    let x = a[5];
    let y = x | 0x08u8;
    assert(((y >> 3u8) & 1u8 == 1u8) && ((y >> 0u8) & 1u8 == (x >> 0u8) & 1u8) && ((y >> 1u8)
        & 1u8 == (x >> 1u8) & 1u8) && ((y >> 2u8) & 1u8 == (x >> 2u8) & 1u8) && ((y >> 4u8) & 1u8
        == (x >> 4u8) & 1u8) && ((y >> 5u8) & 1u8 == (x >> 5u8) & 1u8) && ((y >> 6u8) & 1u8 == (x
        >> 6u8) & 1u8) && ((y >> 7u8) & 1u8 == (x >> 7u8) & 1u8)) by (bit_vector)
        requires
            y == x | 0x08u8,
    ;
    let b = a.update(5, y);
    let ra = decode_frame(a)->Ok_0;
    let rb = decode_frame(b)->Ok_0;
    assert(digit_pattern(y) =~= digit_pattern(x));
    assert(rb.digits =~= ra.digits);
    assert(rb.dots.drop_first() =~= ra.dots.drop_first());
}

} // verus!
