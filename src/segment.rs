use vstd::prelude::*;

verus! {

/// The character shown for a pattern that is in no entry of the table.
pub const UNRECOGNIZED: char = '?';

/// The lit / unlit state of the seven segments of one display digit,
/// conventionally labelled A to G.
#[derive(Debug, Clone, Copy)]
pub struct SevenSegment {
    pub segments: [bool; 7],
}

/// Whether `s` is the pattern written out by the seven flags.
pub open spec fn is_pattern(
    s: Seq<bool>,
    a: bool,
    b: bool,
    c: bool,
    d: bool,
    e: bool,
    f: bool,
    g: bool,
) -> bool {
    s == seq![a, b, c, d, e, f, g]
}

/// The glyph that the display shows for the segment pattern `s`.
pub open spec fn glyph_of(s: Seq<bool>) -> char {
    if is_pattern(s, true, true, true, true, true, true, false) {
        '0'
    } else if is_pattern(s, false, true, true, false, false, false, false) {
        '1'
    } else if is_pattern(s, true, true, false, true, true, false, true) {
        '2'
    } else if is_pattern(s, true, true, true, true, false, false, true) {
        '3'
    } else if is_pattern(s, false, true, true, false, false, true, true) {
        '4'
    } else if is_pattern(s, true, false, true, true, false, true, true) {
        '5'
    } else if is_pattern(s, true, false, true, true, true, true, true) {
        '6'
    } else if is_pattern(s, true, true, true, false, false, false, false) {
        '7'
    } else if is_pattern(s, true, true, true, true, true, true, true) {
        '8'
    } else if is_pattern(s, true, true, true, true, false, true, true) {
        '9'
    } else if is_pattern(s, true, true, false, false, true, true, true) {
        'P'
    } else if is_pattern(s, true, false, false, true, true, true, true) {
        'E'
    } else if is_pattern(s, false, false, true, false, true, false, true) {
        'N'
    } else if is_pattern(s, true, false, false, false, true, true, true) {
        'F'
    } else if is_pattern(s, true, false, false, true, true, true, false) {
        'C'
    } else if is_pattern(s, false, false, false, true, true, true, false) {
        'L'
    } else if is_pattern(s, false, true, true, false, true, true, true) {
        'H'
    } else if is_pattern(s, false, false, true, false, true, true, true) {
        'H'
    } else if is_pattern(s, false, false, false, false, true, false, true) {
        'R'
    } else if is_pattern(s, false, false, false, true, true, true, true) {
        'T'
    } else if is_pattern(s, false, false, false, false, true, true, false) {
        'I'
    } else if is_pattern(s, false, false, false, false, false, false, true) {
        '-'
    } else if is_pattern(s, false, false, false, false, false, false, false) {
        ' '
    } else {
        UNRECOGNIZED
    }
}

impl SevenSegment {
    pub open spec fn view(&self) -> Seq<bool> {
        self.segments@
    }

    /// Whether the segments are exactly the pattern written out by the flags.
    fn shows(&self, a: bool, b: bool, c: bool, d: bool, e: bool, f: bool, g: bool) -> (r: bool)
        ensures
            r == is_pattern(self.view(), a, b, c, d, e, f, g),
    {
        let r = self.segments[0] == a && self.segments[1] == b && self.segments[2] == c
            && self.segments[3] == d && self.segments[4] == e && self.segments[5] == f
            && self.segments[6] == g;
        proof {
            if r {
                assert(self.view() =~= seq![a, b, c, d, e, f, g]);
            }
        }
        r
    }

    /// The glyph shown by this digit, or `?` for a pattern that the display
    /// table does not know.
    pub fn to_string(self) -> (r: char)
        ensures
            r == glyph_of(self.view()),
    {
        if self.shows(true, true, true, true, true, true, false) {
            '0'
        } else if self.shows(false, true, true, false, false, false, false) {
            '1'
        } else if self.shows(true, true, false, true, true, false, true) {
            '2'
        } else if self.shows(true, true, true, true, false, false, true) {
            '3'
        } else if self.shows(false, true, true, false, false, true, true) {
            '4'
        } else if self.shows(true, false, true, true, false, true, true) {
            '5'
        } else if self.shows(true, false, true, true, true, true, true) {
            '6'
        } else if self.shows(true, true, true, false, false, false, false) {
            '7'
        } else if self.shows(true, true, true, true, true, true, true) {
            '8'
        } else if self.shows(true, true, true, true, false, true, true) {
            '9'
        } else if self.shows(true, true, false, false, true, true, true) {
            'P'
        } else if self.shows(true, false, false, true, true, true, true) {
            'E'
        } else if self.shows(false, false, true, false, true, false, true) {
            'N'
        } else if self.shows(true, false, false, false, true, true, true) {
            'F'
        } else if self.shows(true, false, false, true, true, true, false) {
            'C'
        } else if self.shows(false, false, false, true, true, true, false) {
            'L'
        } else if self.shows(false, true, true, false, true, true, true) {
            'H'
        } else if self.shows(false, false, true, false, true, true, true) {
            'H'
        } else if self.shows(false, false, false, false, true, false, true) {
            'R'
        } else if self.shows(false, false, false, true, true, true, true) {
            'T'
        } else if self.shows(false, false, false, false, true, true, false) {
            'I'
        } else if self.shows(false, false, false, false, false, false, true) {
            '-'
        } else if self.shows(false, false, false, false, false, false, false) {
            ' '
        } else {
            UNRECOGNIZED
        }
    }
}

/// The patterns that the display knows, each with the glyph it shows.
pub open spec fn glyph_table() -> Seq<(Seq<bool>, char)> {
    seq![
        (seq![true, true, true, true, true, true, false], '0'),
        (seq![false, true, true, false, false, false, false], '1'),
        (seq![true, true, false, true, true, false, true], '2'),
        (seq![true, true, true, true, false, false, true], '3'),
        (seq![false, true, true, false, false, true, true], '4'),
        (seq![true, false, true, true, false, true, true], '5'),
        (seq![true, false, true, true, true, true, true], '6'),
        (seq![true, true, true, false, false, false, false], '7'),
        (seq![true, true, true, true, true, true, true], '8'),
        (seq![true, true, true, true, false, true, true], '9'),
        (seq![true, true, false, false, true, true, true], 'P'),
        (seq![true, false, false, true, true, true, true], 'E'),
        (seq![false, false, true, false, true, false, true], 'N'),
        (seq![true, false, false, false, true, true, true], 'F'),
        (seq![true, false, false, true, true, true, false], 'C'),
        (seq![false, false, false, true, true, true, false], 'L'),
        (seq![false, true, true, false, true, true, true], 'H'),
        (seq![false, false, true, false, true, true, true], 'H'),
        (seq![false, false, false, false, true, false, true], 'R'),
        (seq![false, false, false, true, true, true, true], 'T'),
        (seq![false, false, false, false, true, true, false], 'I'),
        (seq![false, false, false, false, false, false, true], '-'),
        (seq![false, false, false, false, false, false, false], ' '),
    ]
}

/// Decoding is total over the seven-segment patterns: each one gets a glyph.
/// The table holds 23 distinct patterns, each shown as its own listed glyph,
/// never as `?`; every other pattern is shown as `?`.
pub proof fn lemma_glyph_table(s: Seq<bool>)
    requires
        s.len() == 7,
    ensures
        glyph_table().len() == 23,
        forall|i: int, j: int|
            0 <= i < j < 23 ==> glyph_table()[i].0 != glyph_table()[j].0,
        forall|i: int|
            0 <= i < 23 ==> glyph_of(glyph_table()[i].0) == glyph_table()[i].1
                && glyph_table()[i].1 != UNRECOGNIZED,
        glyph_of(s) != UNRECOGNIZED <==> exists|i: int|
            0 <= i < 23 && glyph_table()[i].0 == s,
{
    let t = glyph_table();
    if is_pattern(s, true, true, true, true, true, true, false) {
        assert(t[0].0 == s);
    } else if is_pattern(s, false, true, true, false, false, false, false) {
        assert(t[1].0 == s);
    } else if is_pattern(s, true, true, false, true, true, false, true) {
        assert(t[2].0 == s);
    } else if is_pattern(s, true, true, true, true, false, false, true) {
        assert(t[3].0 == s);
    } else if is_pattern(s, false, true, true, false, false, true, true) {
        assert(t[4].0 == s);
    } else if is_pattern(s, true, false, true, true, false, true, true) {
        assert(t[5].0 == s);
    } else if is_pattern(s, true, false, true, true, true, true, true) {
        assert(t[6].0 == s);
    } else if is_pattern(s, true, true, true, false, false, false, false) {
        assert(t[7].0 == s);
    } else if is_pattern(s, true, true, true, true, true, true, true) {
        assert(t[8].0 == s);
    } else if is_pattern(s, true, true, true, true, false, true, true) {
        assert(t[9].0 == s);
    } else if is_pattern(s, true, true, false, false, true, true, true) {
        assert(t[10].0 == s);
    } else if is_pattern(s, true, false, false, true, true, true, true) {
        assert(t[11].0 == s);
    } else if is_pattern(s, false, false, true, false, true, false, true) {
        assert(t[12].0 == s);
    } else if is_pattern(s, true, false, false, false, true, true, true) {
        assert(t[13].0 == s);
    } else if is_pattern(s, true, false, false, true, true, true, false) {
        assert(t[14].0 == s);
    } else if is_pattern(s, false, false, false, true, true, true, false) {
        assert(t[15].0 == s);
    } else if is_pattern(s, false, true, true, false, true, true, true) {
        assert(t[16].0 == s);
    } else if is_pattern(s, false, false, true, false, true, true, true) {
        assert(t[17].0 == s);
    } else if is_pattern(s, false, false, false, false, true, false, true) {
        assert(t[18].0 == s);
    } else if is_pattern(s, false, false, false, true, true, true, true) {
        assert(t[19].0 == s);
    } else if is_pattern(s, false, false, false, false, true, true, false) {
        assert(t[20].0 == s);
    } else if is_pattern(s, false, false, false, false, false, false, true) {
        assert(t[21].0 == s);
    } else if is_pattern(s, false, false, false, false, false, false, false) {
        assert(t[22].0 == s);
    }
    if exists|i: int| 0 <= i < 23 && t[i].0 == s {
        let i = choose|i: int| 0 <= i < 23 && t[i].0 == s;
        assert(glyph_of(t[i].0) != UNRECOGNIZED);
    }
}

} // verus!
