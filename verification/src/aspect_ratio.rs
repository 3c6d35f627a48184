//! The `preserveAspectRatio` directive: its value type and its packed
//! 32-bit form.

use vstd::prelude::*;

use crate::error::{AttributeError, ParseError};
use crate::parsers::Parse;
use crate::words::{split_whitespace, views, word_is, words};

verus! {

/// How a uniformly scaled object relates to its destination.
#[derive(Debug, Copy, Clone, PartialEq, Eq, Structural)]
pub enum FitMode {
    /// Scale so that the whole object fits inside the destination.
    Meet,
    /// Scale so that the object covers the whole destination.
    Slice,
}

/// Where an object sits along one axis of its destination.
#[derive(Debug, Copy, Clone, PartialEq, Eq, Structural)]
pub enum Align1D {
    Min,
    Mid,
    Max,
}

/// The nine combinations of a horizontal and a vertical alignment.
#[derive(Debug, Copy, Clone, PartialEq, Eq, Structural)]
pub enum AlignMode {
    XminYmin,
    XmidYmin,
    XmaxYmin,
    XminYmid,
    XmidYmid,
    XmaxYmid,
    XminYmax,
    XmidYmax,
    XmaxYmax,
}

/// Either no uniform scaling at all, or an alignment with a fit.
#[derive(Debug, Copy, Clone, PartialEq, Eq, Structural)]
pub enum Align {
    /// The destination rectangle is used as it is.
    Unaligned,
    Aligned { align: AlignMode, fit: FitMode },
}

/// A parsed `preserveAspectRatio` value.
#[derive(Debug, Copy, Clone, PartialEq, Eq, Structural)]
pub struct AspectRatio {
    pub defer: bool,
    pub align: Align,
}

/// Bit 30 of the packed form: the fit is `Slice`.
pub const SLICE: u32 = 0x4000_0000;

/// Bit 31 of the packed form: `defer` was given.
pub const DEFER: u32 = 0x8000_0000;

/// Bits 0 to 8 of the packed form, one for each alignment.
pub const ALIGN_MASK: u32 = 0x0000_01ff;

impl AlignMode {
    /// The alignment along the horizontal axis.
    pub open spec fn spec_x(self) -> Align1D {
        match self {
            AlignMode::XminYmin | AlignMode::XminYmid | AlignMode::XminYmax => Align1D::Min,
            AlignMode::XmidYmin | AlignMode::XmidYmid | AlignMode::XmidYmax => Align1D::Mid,
            AlignMode::XmaxYmin | AlignMode::XmaxYmid | AlignMode::XmaxYmax => Align1D::Max,
        }
    }

    /// The alignment along the vertical axis.
    pub open spec fn spec_y(self) -> Align1D {
        match self {
            AlignMode::XminYmin | AlignMode::XmidYmin | AlignMode::XmaxYmin => Align1D::Min,
            AlignMode::XminYmid | AlignMode::XmidYmid | AlignMode::XmaxYmid => Align1D::Mid,
            AlignMode::XminYmax | AlignMode::XmidYmax | AlignMode::XmaxYmax => Align1D::Max,
        }
    }

    /// The bit that stands for this alignment in the packed form.
    pub open spec fn flag(self) -> u32 {
        match self {
            AlignMode::XminYmin => 0x001,
            AlignMode::XmidYmin => 0x002,
            AlignMode::XmaxYmin => 0x004,
            AlignMode::XminYmid => 0x008,
            AlignMode::XmidYmid => 0x010,
            AlignMode::XmaxYmid => 0x020,
            AlignMode::XminYmax => 0x040,
            AlignMode::XmidYmax => 0x080,
            AlignMode::XmaxYmax => 0x100,
        }
    }

    /// The alignment along the horizontal axis.
    #[verifier::when_used_as_spec(spec_x)]
    pub fn x(self) -> (r: Align1D)
        ensures
            r == self.spec_x(),
    {
        match self {
            AlignMode::XminYmin | AlignMode::XminYmid | AlignMode::XminYmax => Align1D::Min,
            AlignMode::XmidYmin | AlignMode::XmidYmid | AlignMode::XmidYmax => Align1D::Mid,
            AlignMode::XmaxYmin | AlignMode::XmaxYmid | AlignMode::XmaxYmax => Align1D::Max,
        }
    }

    /// The alignment along the vertical axis.
    #[verifier::when_used_as_spec(spec_y)]
    pub fn y(self) -> (r: Align1D)
        ensures
            r == self.spec_y(),
    {
        match self {
            AlignMode::XminYmin | AlignMode::XmidYmin | AlignMode::XmaxYmin => Align1D::Min,
            AlignMode::XminYmid | AlignMode::XmidYmid | AlignMode::XmaxYmid => Align1D::Mid,
            AlignMode::XminYmax | AlignMode::XmidYmax | AlignMode::XmaxYmax => Align1D::Max,
        }
    }
}

/// The nine alignments are the pairs of a horizontal and a vertical part:
/// each pair belongs to one alignment, and to one only.
pub proof fn lemma_alignments_are_pairs(x: Align1D, y: Align1D)
    ensures
        exists|a: AlignMode| a.spec_x() == x && a.spec_y() == y,
        forall|a: AlignMode, b: AlignMode|
            a.spec_x() == b.spec_x() && a.spec_y() == b.spec_y() ==> a == b,
{
    let a = match (x, y) {
        (Align1D::Min, Align1D::Min) => AlignMode::XminYmin,
        (Align1D::Mid, Align1D::Min) => AlignMode::XmidYmin,
        (Align1D::Max, Align1D::Min) => AlignMode::XmaxYmin,
        (Align1D::Min, Align1D::Mid) => AlignMode::XminYmid,
        (Align1D::Mid, Align1D::Mid) => AlignMode::XmidYmid,
        (Align1D::Max, Align1D::Mid) => AlignMode::XmaxYmid,
        (Align1D::Min, Align1D::Max) => AlignMode::XminYmax,
        (Align1D::Mid, Align1D::Max) => AlignMode::XmidYmax,
        (Align1D::Max, Align1D::Max) => AlignMode::XmaxYmax,
    };
    assert(a.spec_x() == x && a.spec_y() == y);
}

/// How an object is fitted into a destination: the factor is the smaller
/// of the two ratios of destination to object for `Meet` and the larger
/// for `Slice`, and each axis is placed on its own.
#[derive(Debug, Copy, Clone, PartialEq, Eq, Structural)]
pub struct Placement {
    pub fit: FitMode,
    pub x: Align1D,
    pub y: Align1D,
}

/// The alignment whose bit is the lowest one set among bits 0 to 8, if any
/// of them is set.
pub open spec fn lowest_align(val: u32) -> Option<AlignMode> {
    if val & 0x001 != 0 {
        Some(AlignMode::XminYmin)
    } else if val & 0x002 != 0 {
        Some(AlignMode::XmidYmin)
    } else if val & 0x004 != 0 {
        Some(AlignMode::XmaxYmin)
    } else if val & 0x008 != 0 {
        Some(AlignMode::XminYmid)
    } else if val & 0x010 != 0 {
        Some(AlignMode::XmidYmid)
    } else if val & 0x020 != 0 {
        Some(AlignMode::XmaxYmid)
    } else if val & 0x040 != 0 {
        Some(AlignMode::XminYmax)
    } else if val & 0x080 != 0 {
        Some(AlignMode::XmidYmax)
    } else if val & 0x100 != 0 {
        Some(AlignMode::XmaxYmax)
    } else {
        None
    }
}

impl AspectRatio {
    /// The packed form: the alignment's bit, bit 30 for `Slice`, bit 31 for
    /// `defer`. `Align::Unaligned` sets none of bits 0 to 30.
    pub open spec fn encoding(self) -> u32 {
        let defer: u32 = if self.defer { DEFER } else { 0 };
        match self.align {
            Align::Unaligned => defer,
            Align::Aligned { align, fit } => {
                let slice: u32 = if fit == FitMode::Slice { SLICE } else { 0 };
                defer | align.flag() | slice
            },
        }
    }

    /// The value that a packed form stands for. Where several alignment
    /// bits are set the lowest counts; where none is, the result is
    /// `Align::Unaligned` whatever bit 30 holds. Bits 9 to 29 are not read.
    pub open spec fn decoding(val: u32) -> AspectRatio {
        AspectRatio {
            defer: val & DEFER != 0,
            align: match lowest_align(val) {
                Some(align) => Align::Aligned {
                    align,
                    fit: if val & SLICE != 0 { FitMode::Slice } else { FitMode::Meet },
                },
                None => Align::Unaligned,
            },
        }
    }

    /// How the object is to be fitted, or `None` where the destination
    /// rectangle is to be used as it is.
    pub open spec fn spec_placement(self) -> Option<Placement> {
        match self.align {
            Align::Unaligned => None,
            Align::Aligned { align, fit } => Some(
                Placement { fit, x: align.spec_x(), y: align.spec_y() },
            ),
        }
    }

    /// How the object is to be fitted, or `None` where the destination
    /// rectangle is to be used as it is.
    pub fn placement(&self) -> (r: Option<Placement>)
        ensures
            r == self.spec_placement(),
    {
        match self.align {
            Align::Unaligned => None,
            Align::Aligned { align, fit } => Some(Placement { fit, x: align.x(), y: align.y() }),
        }
    }

    /// Unpacks a value from its 32-bit form.
    pub fn from_u32(val: u32) -> (r: AspectRatio)
        ensures
            r == AspectRatio::decoding(val),
    {
        let defer = val & DEFER != 0;
        let fit = if val & SLICE != 0 { FitMode::Slice } else { FitMode::Meet };
        let align = if val & 0x001 != 0 {
            Align::Aligned { align: AlignMode::XminYmin, fit }
        } else if val & 0x002 != 0 {
            Align::Aligned { align: AlignMode::XmidYmin, fit }
        } else if val & 0x004 != 0 {
            Align::Aligned { align: AlignMode::XmaxYmin, fit }
        } else if val & 0x008 != 0 {
            Align::Aligned { align: AlignMode::XminYmid, fit }
        } else if val & 0x010 != 0 {
            Align::Aligned { align: AlignMode::XmidYmid, fit }
        } else if val & 0x020 != 0 {
            Align::Aligned { align: AlignMode::XmaxYmid, fit }
        } else if val & 0x040 != 0 {
            Align::Aligned { align: AlignMode::XminYmax, fit }
        } else if val & 0x080 != 0 {
            Align::Aligned { align: AlignMode::XmidYmax, fit }
        } else if val & 0x100 != 0 {
            Align::Aligned { align: AlignMode::XmaxYmax, fit }
        } else {
            Align::Unaligned
        };
        AspectRatio { defer, align }
    }

    /// Packs the value into its 32-bit form.
    pub fn to_u32(&self) -> (r: u32)
        ensures
            r == self.encoding(),
    {
        let defer: u32 = if self.defer { DEFER } else { 0 };
        match self.align {
            Align::Unaligned => defer,
            Align::Aligned { align, fit } => {
                let flag: u32 = match align {
                    AlignMode::XminYmin => 0x001,
                    AlignMode::XmidYmin => 0x002,
                    AlignMode::XmaxYmin => 0x004,
                    AlignMode::XminYmid => 0x008,
                    AlignMode::XmidYmid => 0x010,
                    AlignMode::XmaxYmid => 0x020,
                    AlignMode::XminYmax => 0x040,
                    AlignMode::XmidYmax => 0x080,
                    AlignMode::XmaxYmax => 0x100,
                };
                let slice: u32 = match fit {
                    FitMode::Meet => 0,
                    FitMode::Slice => SLICE,
                };
                defer | flag | slice
            },
        }
    }
}

impl Default for Align {
    fn default() -> (r: Align)
        ensures
            r == (Align::Aligned { align: AlignMode::XmidYmid, fit: FitMode::Meet }),
    {
        Align::Aligned { align: AlignMode::XmidYmid, fit: FitMode::Meet }
    }
}

impl Default for AspectRatio {
    fn default() -> (r: AspectRatio)
        ensures
            r == (AspectRatio {
                defer: false,
                align: Align::Aligned { align: AlignMode::XmidYmid, fit: FitMode::Meet },
            }),
    {
        AspectRatio { defer: false, align: Align::default() }
    }
}

/// Packing a value and unpacking the result gives the value back.
pub proof fn lemma_encoding_round_trips(a: AspectRatio)
    ensures
        AspectRatio::decoding(a.encoding()) == a,
{
    let defer: u32 = if a.defer { DEFER } else { 0 };
    match a.align {
        Align::Unaligned => {
            assert(defer & 0x1ff == 0 && (defer & 0x8000_0000 != 0) == (defer == 0x8000_0000u32))
                by (bit_vector)
                requires
                    defer == 0x8000_0000u32 || defer == 0u32,
            ;
            lemma_no_align_bit(defer);
        },
        Align::Aligned { align, fit } => {
            let slice: u32 = if fit == FitMode::Slice { SLICE } else { 0 };
            let flag = align.flag();
            lemma_aligned_bits(defer, flag, slice);
        },
    }
}

/// A packed form with none of bits 0 to 8 set names no alignment.
proof fn lemma_no_align_bit(val: u32)
    requires
        val & 0x1ff == 0,
    ensures
        lowest_align(val) is None,
{
    assert(val & 0x001 == 0 && val & 0x002 == 0 && val & 0x004 == 0 && val & 0x008 == 0 && val
        & 0x010 == 0 && val & 0x020 == 0 && val & 0x040 == 0 && val & 0x080 == 0 && val & 0x100
        == 0) by (bit_vector)
        requires
            val & 0x1ff == 0,
    ;
}

/// In `defer | flag | slice` each part can be read back on its own.
proof fn lemma_aligned_bits(defer: u32, flag: u32, slice: u32)
    requires
        defer == DEFER || defer == 0,
        slice == SLICE || slice == 0,
        flag == 0x001 || flag == 0x002 || flag == 0x004 || flag == 0x008 || flag == 0x010 || flag
            == 0x020 || flag == 0x040 || flag == 0x080 || flag == 0x100,
    ensures
        ((defer | flag | slice) & DEFER != 0) == (defer == DEFER),
        ((defer | flag | slice) & SLICE != 0) == (slice == SLICE),
        forall|bit: u32|
            bit == 0x001 || bit == 0x002 || bit == 0x004 || bit == 0x008 || bit == 0x010 || bit
                == 0x020 || bit == 0x040 || bit == 0x080 || bit == 0x100 ==> (#[trigger] ((defer
                | flag | slice) & bit) != 0) == (bit == flag),
{
    let val = defer | flag | slice;
    assert((val & 0x8000_0000 != 0) == (defer == 0x8000_0000u32)) by (bit_vector)
        requires
            val == defer | flag | slice,
            defer == 0x8000_0000u32 || defer == 0,
            slice == 0x4000_0000u32 || slice == 0,
            flag <= 0x100,
    ;
    assert((val & 0x4000_0000 != 0) == (slice == 0x4000_0000u32)) by (bit_vector)
        requires
            val == defer | flag | slice,
            defer == 0x8000_0000u32 || defer == 0,
            slice == 0x4000_0000u32 || slice == 0,
            flag <= 0x100,
    ;
    assert forall|bit: u32|
        bit == 0x001 || bit == 0x002 || bit == 0x004 || bit == 0x008 || bit == 0x010 || bit
            == 0x020 || bit == 0x040 || bit == 0x080 || bit == 0x100 implies (#[trigger] (val
        & bit) != 0) == (bit == flag) by {
        assert((val & bit != 0) == (bit == flag)) by (bit_vector)
            requires
                val == defer | flag | slice,
                defer == 0x8000_0000u32 || defer == 0,
                slice == 0x4000_0000u32 || slice == 0,
                flag == 0x001 || flag == 0x002 || flag == 0x004 || flag == 0x008 || flag == 0x010
                    || flag == 0x020 || flag == 0x040 || flag == 0x080 || flag == 0x100,
                bit == 0x001 || bit == 0x002 || bit == 0x004 || bit == 0x008 || bit == 0x010
                    || bit == 0x020 || bit == 0x040 || bit == 0x080 || bit == 0x100,
        ;
    }
}

/// An alignment with the fit that a lone alignment word implies.
pub open spec fn aligned(align: AlignMode) -> Align {
    Align::Aligned { align, fit: FitMode::Meet }
}

/// What an alignment word stands for, if it is one.
pub open spec fn align_of_word(w: Seq<char>) -> Option<Align> {
    if w == "none"@ {
        Some(Align::Unaligned)
    } else if w == "xMinYMin"@ {
        Some(aligned(AlignMode::XminYmin))
    } else if w == "xMidYMin"@ {
        Some(aligned(AlignMode::XmidYmin))
    } else if w == "xMaxYMin"@ {
        Some(aligned(AlignMode::XmaxYmin))
    } else if w == "xMinYMid"@ {
        Some(aligned(AlignMode::XminYmid))
    } else if w == "xMidYMid"@ {
        Some(aligned(AlignMode::XmidYmid))
    } else if w == "xMaxYMid"@ {
        Some(aligned(AlignMode::XmaxYmid))
    } else if w == "xMinYMax"@ {
        Some(aligned(AlignMode::XminYmax))
    } else if w == "xMidYMax"@ {
        Some(aligned(AlignMode::XmidYmax))
    } else if w == "xMaxYMax"@ {
        Some(aligned(AlignMode::XmaxYmax))
    } else {
        None
    }
}

/// What a fit word stands for, if it is one.
pub open spec fn fit_of_word(w: Seq<char>) -> Option<FitMode> {
    if w == "meet"@ {
        Some(FitMode::Meet)
    } else if w == "slice"@ {
        Some(FitMode::Slice)
    } else {
        None
    }
}

/// The alignment `a` with its fit replaced by `fit`. No fit applies to
/// `Align::Unaligned`.
pub open spec fn with_fit(a: Align, fit: FitMode) -> Align {
    match a {
        Align::Unaligned => Align::Unaligned,
        Align::Aligned { align, .. } => Align::Aligned { align, fit },
    }
}

/// The grammar `["defer"] <align> ["meet" | "slice"]` over the words of a
/// string: the value that the words spell, or `None` where they spell none.
pub open spec fn aspect_ratio_of_words(ws: Seq<Seq<char>>) -> Option<AspectRatio> {
    let defer = ws.len() > 0 && ws[0] == "defer"@;
    let rest = if defer { ws.drop_first() } else { ws };
    if rest.len() == 1 {
        match align_of_word(rest[0]) {
            Some(a) => Some(AspectRatio { defer, align: a }),
            None => None,
        }
    } else if rest.len() == 2 {
        match (align_of_word(rest[0]), fit_of_word(rest[1])) {
            (Some(a), Some(fit)) => Some(AspectRatio { defer, align: with_fit(a, fit) }),
            _ => None,
        }
    } else {
        None
    }
}

/// The text of the error for a string outside the grammar.
pub open spec fn grammar_text() -> Seq<char> {
    "expected \"[defer] <align> [meet | slice]\""@
}

/// Reads an alignment word.
pub fn parse_align_mode(word: &Vec<char>) -> (r: Option<Align>)
    ensures
        r == align_of_word(word@),
{
    if word_is(word, "none") {
        Some(Align::Unaligned)
    } else if word_is(word, "xMinYMin") {
        Some(Align::Aligned { align: AlignMode::XminYmin, fit: FitMode::Meet })
    } else if word_is(word, "xMidYMin") {
        Some(Align::Aligned { align: AlignMode::XmidYmin, fit: FitMode::Meet })
    } else if word_is(word, "xMaxYMin") {
        Some(Align::Aligned { align: AlignMode::XmaxYmin, fit: FitMode::Meet })
    } else if word_is(word, "xMinYMid") {
        Some(Align::Aligned { align: AlignMode::XminYmid, fit: FitMode::Meet })
    } else if word_is(word, "xMidYMid") {
        Some(Align::Aligned { align: AlignMode::XmidYmid, fit: FitMode::Meet })
    } else if word_is(word, "xMaxYMid") {
        Some(Align::Aligned { align: AlignMode::XmaxYmid, fit: FitMode::Meet })
    } else if word_is(word, "xMinYMax") {
        Some(Align::Aligned { align: AlignMode::XminYmax, fit: FitMode::Meet })
    } else if word_is(word, "xMidYMax") {
        Some(Align::Aligned { align: AlignMode::XmidYmax, fit: FitMode::Meet })
    } else if word_is(word, "xMaxYMax") {
        Some(Align::Aligned { align: AlignMode::XmaxYmax, fit: FitMode::Meet })
    } else {
        None
    }
}

/// Reads a fit word.
pub fn parse_fit_mode(word: &Vec<char>) -> (r: Option<FitMode>)
    ensures
        r == fit_of_word(word@),
{
    if word_is(word, "meet") {
        Some(FitMode::Meet)
    } else if word_is(word, "slice") {
        Some(FitMode::Slice)
    } else {
        None
    }
}

/// What the parser expects next.
enum ParseState {
    Defer,
    Align,
    Fit,
    Finished,
}

/// What the parser holds after `i` words, by the state it is in.
spec fn machine_holds(
    ws: Seq<Seq<char>>,
    i: int,
    state: ParseState,
    defer: bool,
    align: Align,
    fit: FitMode,
) -> bool {
    let k: int = if defer { 1 } else { 0 };
    match state {
        ParseState::Defer => i == 0 && !defer && fit == FitMode::Meet,
        ParseState::Align => i == 1 && defer && ws[0] == "defer"@ && fit == FitMode::Meet,
        ParseState::Fit => {
            &&& i == k + 1
            &&& defer == (ws[0] == "defer"@)
            &&& align_of_word(ws[k]) == Some(align)
            &&& fit == FitMode::Meet
        },
        ParseState::Finished => {
            &&& i == k + 2
            &&& defer == (ws[0] == "defer"@)
            &&& align_of_word(ws[k]) == Some(align)
            &&& fit_of_word(ws[k + 1]) == Some(fit)
        },
    }
}

fn make_err() -> (e: AttributeError)
    ensures
        e.is_parse_with(grammar_text()),
{
    AttributeError::Parse(ParseError::new("expected \"[defer] <align> [meet | slice]\""))
}

impl Parse for AspectRatio {
    type Data = ();

    type Err = AttributeError;

    /// Reads a `preserveAspectRatio` value: the words of `s` are taken
    /// from left to right by a machine that expects `defer` or an
    /// alignment, then an alignment, then a fit, then nothing.
    fn parse(s: &str, _data: ()) -> (r: Result<AspectRatio, AttributeError>)
        ensures
            match aspect_ratio_of_words(words(s@)) {
                Some(a) => r == Ok::<AspectRatio, AttributeError>(a),
                None => r matches Err(e) && e.is_parse_with(grammar_text()),
            },
    {
        let ws = split_whitespace(s);
        let ghost spelled = words(s@);
        let mut defer = false;
        let mut align = Align::default();
        let mut fit_mode = FitMode::Meet;
        let mut state = ParseState::Defer;
        let mut i: usize = 0;
        while i < ws.len()
            invariant
                spelled == words(s@),
                views(ws@) == spelled,
                i <= ws@.len(),
                machine_holds(spelled, i as int, state, defer, align, fit_mode),
            decreases ws@.len() - i,
        {
            let v = &ws[i];
            assert(v@ == spelled[i as int]);
            match state {
                ParseState::Defer => {
                    if word_is(v, "defer") {
                        defer = true;
                        state = ParseState::Align;
                    } else if let Some(parsed_align) = parse_align_mode(v) {
                        align = parsed_align;
                        state = ParseState::Fit;
                    } else {
                        return Err(make_err());
                    }
                },
                ParseState::Align => {
                    if let Some(parsed_align) = parse_align_mode(v) {
                        align = parsed_align;
                        state = ParseState::Fit;
                    } else {
                        assert(spelled.drop_first()[0] == spelled[1]);
                        return Err(make_err());
                    }
                },
                ParseState::Fit => {
                    if let Some(parsed_fit) = parse_fit_mode(v) {
                        fit_mode = parsed_fit;
                        state = ParseState::Finished;
                    } else {
                        proof {
                            if defer {
                                assert(spelled.drop_first()[1] == spelled[2]);
                            }
                        }
                        return Err(make_err());
                    }
                },
                ParseState::Finished => {
                    return Err(make_err());
                },
            }
            i = i + 1;
        }
        proof {
            if defer && spelled.len() >= 2 {
                assert(spelled.drop_first()[0] == spelled[1]);
            }
            if defer && spelled.len() >= 3 {
                assert(spelled.drop_first()[1] == spelled[2]);
            }
        }
        match state {
            ParseState::Fit | ParseState::Finished => {},
            _ => {
                return Err(make_err());
            },
        }
        Ok(
            AspectRatio {
                defer,
                align: match align {
                    Align::Unaligned => Align::Unaligned,
                    Align::Aligned { align, .. } => Align::Aligned { align, fit: fit_mode },
                },
            },
        )
    }
}

} // verus!
