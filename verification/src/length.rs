//! Lengths: a magnitude, a unit, and the direction it is measured along.

use vstd::prelude::*;

use crate::css::{
    css_lexemes, is_exhausted, new_parser, next_lexeme, writes_no_exponent, Lexeme, LexemeView,
};
use crate::error::{AttributeError, ParseError};
use crate::parsers::Parse;
use crate::scalar::Scalar;
use crate::words::text_is;

verus! {

/// What a magnitude is measured in.
#[derive(Debug, Copy, Clone, PartialEq, Eq, Structural)]
pub enum LengthUnit {
    /// User units: pixels.
    Default,
    /// A fraction of the viewport.
    Percent,
    /// Multiples of the font size.
    FontEm,
    /// Multiples of half the font size.
    FontEx,
    /// Inches.
    Inch,
    /// One step up from the inherited font size.
    RelativeLarger,
    /// One step down from the inherited font size.
    RelativeSmaller,
}

/// The axis a length is measured along.
#[derive(Debug, Copy, Clone, PartialEq, Eq, Structural)]
pub enum LengthDir {
    Horizontal,
    Vertical,
    Both,
}

/// A length. `length` is the magnitude in `unit`.
#[derive(Debug, Copy, Clone, PartialEq, Eq, Structural)]
pub struct RsvgLength {
    pub length: Scalar,
    pub unit: LengthUnit,
    pub dir: LengthDir,
}

/// What a magnitude is multiplied by to give pixels.
#[derive(Debug, Copy, Clone, PartialEq, Eq, Structural)]
pub enum Basis {
    /// One: the magnitude is in pixels already.
    Pixel,
    /// The viewport's extent along the direction. For `Both` that is the
    /// square root of half the sum of the squares of width and height.
    Viewport(LengthDir),
    /// The font size.
    FontSize,
    /// Half the font size.
    HalfFontSize,
    /// The resolution in pixels per inch along the direction, with the
    /// same rule for `Both` as the viewport has.
    PixelsPerInch(LengthDir),
    /// Zero: the length is not resolved here.
    Nothing,
}

impl RsvgLength {
    /// The basis for a unit and a direction.
    pub open spec fn basis_of(unit: LengthUnit, dir: LengthDir) -> Basis {
        match unit {
            LengthUnit::Default => Basis::Pixel,
            LengthUnit::Percent => Basis::Viewport(dir),
            LengthUnit::FontEm => Basis::FontSize,
            LengthUnit::FontEx => Basis::HalfFontSize,
            LengthUnit::Inch => Basis::PixelsPerInch(dir),
            LengthUnit::RelativeLarger | LengthUnit::RelativeSmaller => Basis::Nothing,
        }
    }

    /// The text of the error for a negative magnitude.
    pub open spec fn negative_text() -> Seq<char> {
        "value must be non-negative"@
    }

    /// A length of the given magnitude, unit and direction.
    pub fn new(l: Scalar, unit: LengthUnit, dir: LengthDir) -> (r: RsvgLength)
        ensures
            r == (RsvgLength { length: l, unit, dir }),
    {
        RsvgLength { length: l, unit, dir }
    }

    /// The length itself where its magnitude is at least zero, and a range
    /// error where it is not.
    pub fn check_nonnegative(self) -> (r: Result<RsvgLength, AttributeError>)
        ensures
            self.length.is_nonnegative() ==> r == Ok::<RsvgLength, AttributeError>(self),
            !self.length.is_nonnegative() ==> (r matches Err(e) && e.is_value_with(
                RsvgLength::negative_text(),
            )),
    {
        if self.length.at_least_zero() {
            Ok(self)
        } else {
            Err(AttributeError::Value("value must be non-negative".to_owned()))
        }
    }

    /// What the magnitude is multiplied by to give pixels.
    pub fn basis(&self) -> (r: Basis)
        ensures
            r == RsvgLength::basis_of(self.unit, self.dir),
    {
        match self.unit {
            LengthUnit::Default => Basis::Pixel,
            LengthUnit::Percent => Basis::Viewport(self.dir),
            LengthUnit::FontEm => Basis::FontSize,
            LengthUnit::FontEx => Basis::HalfFontSize,
            LengthUnit::Inch => Basis::PixelsPerInch(self.dir),
            LengthUnit::RelativeLarger | LengthUnit::RelativeSmaller => Basis::Nothing,
        }
    }
}

impl Default for RsvgLength {
    /// Zero user units, along both axes.
    fn default() -> (r: RsvgLength)
        ensures
            r == (RsvgLength {
                length: Scalar { bits: 0 },
                unit: LengthUnit::Default,
                dir: LengthDir::Both,
            }),
    {
        RsvgLength { length: Scalar::zero(), unit: LengthUnit::Default, dir: LengthDir::Both }
    }
}

/// The font sizes that have a name, from the smallest to the largest.
#[derive(Debug, Copy, Clone, PartialEq, Eq, Structural)]
pub enum NamedSize {
    XxSmall,
    XSmall,
    Small,
    Medium,
    Large,
    XLarge,
    XxLarge,
}

impl NamedSize {
    /// How many steps the size lies above `Medium`. A step is a factor of
    /// 1.2, and `Medium` is 12 points.
    pub open spec fn spec_power(self) -> int {
        match self {
            NamedSize::XxSmall => -3,
            NamedSize::XSmall => -2,
            NamedSize::Small => -1,
            NamedSize::Medium => 0,
            NamedSize::Large => 1,
            NamedSize::XLarge => 2,
            NamedSize::XxLarge => 3,
        }
    }

    /// The place of the size among the seven, from 0 for the smallest.
    pub open spec fn rank(self) -> int {
        match self {
            NamedSize::XxSmall => 0,
            NamedSize::XSmall => 1,
            NamedSize::Small => 2,
            NamedSize::Medium => 3,
            NamedSize::Large => 4,
            NamedSize::XLarge => 5,
            NamedSize::XxLarge => 6,
        }
    }

    /// The size that a name stands for, if it is one of the seven.
    pub open spec fn of_name(name: Seq<char>) -> Option<NamedSize> {
        if name == "xx-small"@ {
            Some(NamedSize::XxSmall)
        } else if name == "x-small"@ {
            Some(NamedSize::XSmall)
        } else if name == "small"@ {
            Some(NamedSize::Small)
        } else if name == "medium"@ {
            Some(NamedSize::Medium)
        } else if name == "large"@ {
            Some(NamedSize::Large)
        } else if name == "x-large"@ {
            Some(NamedSize::XLarge)
        } else if name == "xx-large"@ {
            Some(NamedSize::XxLarge)
        } else {
            None
        }
    }

    /// How many steps the size lies above `Medium`.
    pub fn power(self) -> (r: i8)
        ensures
            r == self.spec_power(),
    {
        match self {
            NamedSize::XxSmall => -3,
            NamedSize::XSmall => -2,
            NamedSize::Small => -1,
            NamedSize::Medium => 0,
            NamedSize::Large => 1,
            NamedSize::XLarge => 2,
            NamedSize::XxLarge => 3,
        }
    }

    /// Reads the name of a font size.
    pub fn from_name(name: &str) -> (r: Option<NamedSize>)
        ensures
            r == NamedSize::of_name(name@),
    {
        if text_is(name, "xx-small") {
            Some(NamedSize::XxSmall)
        } else if text_is(name, "x-small") {
            Some(NamedSize::XSmall)
        } else if text_is(name, "small") {
            Some(NamedSize::Small)
        } else if text_is(name, "medium") {
            Some(NamedSize::Medium)
        } else if text_is(name, "large") {
            Some(NamedSize::Large)
        } else if text_is(name, "x-large") {
            Some(NamedSize::XLarge)
        } else if text_is(name, "xx-large") {
            Some(NamedSize::XxLarge)
        } else {
            None
        }
    }
}

/// A larger named size lies more steps above `Medium`.
pub proof fn lemma_named_sizes_increase(a: NamedSize, b: NamedSize)
    ensures
        a.rank() < b.rank() <==> a.spec_power() < b.spec_power(),
        a.spec_power() == a.rank() - 3,
{
}

/// How the magnitude of a length comes out of the number that was read.
#[derive(Debug, Copy, Clone, PartialEq, Eq, Structural)]
pub enum Scale {
    /// The number is the magnitude.
    Plain,
    /// The number counts points, 72 to the inch.
    Points,
    /// The number counts centimetres, 2.54 to the inch.
    Centimetres,
    /// The number counts millimetres, 25.4 to the inch.
    Millimetres,
    /// The number counts picas, 6 to the inch.
    Picas,
    /// There is no number, and the magnitude is zero.
    Nothing,
    /// There is no number, and the magnitude is that of a named font size
    /// in inches: 12 points times 1.2 to its power, 72 points to the inch.
    Named(NamedSize),
}

impl Scale {
    /// What the number is divided by, as a fraction: numerator, then
    /// denominator. `None` where the magnitude does not come from a number.
    pub open spec fn spec_divisor(self) -> Option<(u32, u32)> {
        match self {
            Scale::Plain => Some((1u32, 1u32)),
            Scale::Points => Some((72u32, 1u32)),
            Scale::Centimetres => Some((254u32, 100u32)),
            Scale::Millimetres => Some((254u32, 10u32)),
            Scale::Picas => Some((6u32, 1u32)),
            Scale::Nothing | Scale::Named(_) => None,
        }
    }

    /// What the number is divided by, as a fraction: numerator, then
    /// denominator.
    #[verifier::when_used_as_spec(spec_divisor)]
    pub fn divisor(self) -> (r: Option<(u32, u32)>)
        ensures
            r == self.spec_divisor(),
            r matches Some((_, den)) ==> den > 0,
    {
        match self {
            Scale::Plain => Some((1, 1)),
            Scale::Points => Some((72, 1)),
            Scale::Centimetres => Some((254, 100)),
            Scale::Millimetres => Some((254, 10)),
            Scale::Picas => Some((6, 1)),
            Scale::Nothing | Scale::Named(_) => None,
        }
    }
}

/// A length as it was read: the number, as the IEEE 754 binary32 encoding
/// that the tokenizer gave, the scale that turns it into a magnitude, the
/// unit of that magnitude, and the direction.
#[derive(Debug, Copy, Clone, PartialEq, Eq, Structural)]
pub struct ParsedLength {
    pub number: u32,
    pub scale: Scale,
    pub unit: LengthUnit,
    pub dir: LengthDir,
}

/// The unit and the scale that the name behind a number stands for.
pub open spec fn reading_of_unit(unit: Seq<char>) -> Option<(LengthUnit, Scale)> {
    if unit == "em"@ {
        Some((LengthUnit::FontEm, Scale::Plain))
    } else if unit == "ex"@ {
        Some((LengthUnit::FontEx, Scale::Plain))
    } else if unit == "pt"@ {
        Some((LengthUnit::Inch, Scale::Points))
    } else if unit == "in"@ {
        Some((LengthUnit::Inch, Scale::Plain))
    } else if unit == "cm"@ {
        Some((LengthUnit::Inch, Scale::Centimetres))
    } else if unit == "mm"@ {
        Some((LengthUnit::Inch, Scale::Millimetres))
    } else if unit == "pc"@ {
        Some((LengthUnit::Inch, Scale::Picas))
    } else if unit == "px"@ {
        Some((LengthUnit::Default, Scale::Plain))
    } else {
        None
    }
}

/// The unit and the scale that a lone name stands for.
pub open spec fn reading_of_name(name: Seq<char>) -> Option<(LengthUnit, Scale)> {
    if name == "larger"@ {
        Some((LengthUnit::RelativeLarger, Scale::Nothing))
    } else if name == "smaller"@ {
        Some((LengthUnit::RelativeSmaller, Scale::Nothing))
    } else {
        match NamedSize::of_name(name) {
            Some(size) => Some((LengthUnit::Inch, Scale::Named(size))),
            None => None,
        }
    }
}

/// The unit and the scale of the length that a token spells, or `None`
/// where it spells none.
pub open spec fn reading(lexeme: LexemeView) -> Option<(LengthUnit, Scale)> {
    match lexeme {
        LexemeView::Number(_) => Some((LengthUnit::Default, Scale::Plain)),
        LexemeView::Percentage(_) => Some((LengthUnit::Percent, Scale::Plain)),
        LexemeView::Dimension(_, unit) => reading_of_unit(unit),
        LexemeView::Ident(name) => reading_of_name(name),
        LexemeView::Other => None,
    }
}

/// What a token spells does not depend on the number in it, and a token
/// that spells a length without a number has none.
pub proof fn lemma_reading_of_shape(lexeme: LexemeView)
    ensures
        reading(lexeme.shape()) == reading(lexeme),
        reading(lexeme) matches Some((_, scale)) && scale.spec_divisor() is None
            ==> lexeme.number() == 0,
{
}

/// The text of the error for a string with no token in it.
pub open spec fn missing_text() -> Seq<char> {
    "expected number and optional symbol, or number and percentage"@
}

/// The text of the error for a string that is no length.
pub open spec fn grammar_text() -> Seq<char> {
    "expected length: number(\"em\" | \"ex\" | \"px\" | \"in\" | \"cm\" | \"mm\" | \"pt\" | \"pc\" | \"%\")?"@
}

/// The grammar of a length over the tokens of a string: one token that
/// spells a length, and nothing behind it. The error is the text to report.
pub open spec fn length_of_lexemes(lexemes: Seq<LexemeView>) -> Result<
    (LengthUnit, Scale),
    Seq<char>,
> {
    if lexemes.len() == 0 {
        Err(missing_text())
    } else {
        match reading(lexemes[0]) {
            Some(found) if lexemes.len() == 1 => Ok(found),
            _ => Err(grammar_text()),
        }
    }
}

fn make_err() -> (e: AttributeError)
    ensures
        e.is_parse_with(grammar_text()),
{
    AttributeError::Parse(
        ParseError::new(
            "expected length: number(\"em\" | \"ex\" | \"px\" | \"in\" | \"cm\" | \"mm\" | \"pt\" | \"pc\" | \"%\")?",
        ),
    )
}

/// Reads the name behind a number.
fn read_unit(unit: &str) -> (r: Option<(LengthUnit, Scale)>)
    ensures
        r == reading_of_unit(unit@),
{
    if text_is(unit, "em") {
        Some((LengthUnit::FontEm, Scale::Plain))
    } else if text_is(unit, "ex") {
        Some((LengthUnit::FontEx, Scale::Plain))
    } else if text_is(unit, "pt") {
        Some((LengthUnit::Inch, Scale::Points))
    } else if text_is(unit, "in") {
        Some((LengthUnit::Inch, Scale::Plain))
    } else if text_is(unit, "cm") {
        Some((LengthUnit::Inch, Scale::Centimetres))
    } else if text_is(unit, "mm") {
        Some((LengthUnit::Inch, Scale::Millimetres))
    } else if text_is(unit, "pc") {
        Some((LengthUnit::Inch, Scale::Picas))
    } else if text_is(unit, "px") {
        Some((LengthUnit::Default, Scale::Plain))
    } else {
        None
    }
}

/// Reads a lone name.
fn read_name(name: &str) -> (r: Option<(LengthUnit, Scale)>)
    ensures
        r == reading_of_name(name@),
{
    if text_is(name, "larger") {
        Some((LengthUnit::RelativeLarger, Scale::Nothing))
    } else if text_is(name, "smaller") {
        Some((LengthUnit::RelativeSmaller, Scale::Nothing))
    } else {
        match NamedSize::from_name(name) {
            Some(size) => Some((LengthUnit::Inch, Scale::Named(size))),
            None => None,
        }
    }
}

impl ParsedLength {
    /// The length that one token spells, measured along `dir`, or a
    /// grammar error where the token spells none.
    pub fn from_lexeme(lexeme: &Lexeme, dir: LengthDir) -> (r: Result<ParsedLength, AttributeError>)
        ensures
            match reading(lexeme@) {
                Some((unit, scale)) => r == Ok::<ParsedLength, AttributeError>(
                    ParsedLength { number: lexeme@.number(), scale, unit, dir },
                ),
                None => r matches Err(e) && e.is_parse_with(grammar_text()),
            },
    {
        let found = match lexeme {
            Lexeme::Number { value } => Some((*value, (LengthUnit::Default, Scale::Plain))),
            Lexeme::Percentage { unit_value } => Some(
                (*unit_value, (LengthUnit::Percent, Scale::Plain)),
            ),
            Lexeme::Dimension { value, unit } => match read_unit(unit.as_str()) {
                Some(found) => Some((*value, found)),
                None => None,
            },
            Lexeme::Ident(name) => match read_name(name.as_str()) {
                Some(found) => Some((0u32, found)),
                None => None,
            },
            Lexeme::Other => None,
        };
        match found {
            Some((number, (unit, scale))) => Ok(ParsedLength { number, scale, unit, dir }),
            None => Err(make_err()),
        }
    }
}

impl Parse for ParsedLength {
    type Data = LengthDir;

    type Err = AttributeError;

    /// Reads a length that is measured along `dir`. The string is cut into
    /// CSS tokens; the first must spell a length and must be the last.
    /// The number in the result is the number of that token. Where the
    /// string writes an exponent the tokenizer's number is not the same
    /// on every machine, and the result holds the one it gave.
    fn parse(s: &str, dir: LengthDir) -> (r: Result<ParsedLength, AttributeError>)
        ensures
            match length_of_lexemes(css_lexemes(s@)) {
                Ok((unit, scale)) => {
                    &&& r matches Ok(l)
                    &&& l.unit == unit && l.scale == scale && l.dir == dir
                    &&& scale.spec_divisor() is None ==> l.number == 0
                    &&& writes_no_exponent(s@) ==> r == Ok::<ParsedLength, AttributeError>(
                        ParsedLength { number: css_lexemes(s@)[0].number(), scale, unit, dir },
                    )
                },
                Err(text) => r matches Err(e) && e.is_parse_with(text),
            },
    {
        let mut parser = new_parser(s);
        let length = match next_lexeme(&mut parser) {
            Some(lexeme) => {
                proof {
                    lemma_reading_of_shape(lexeme@);
                    lemma_reading_of_shape(css_lexemes(s@)[0]);
                }
                match ParsedLength::from_lexeme(&lexeme, dir) {
                    Ok(length) => length,
                    Err(e) => {
                        return Err(e);
                    },
                }
            },
            None => {
                return Err(
                    AttributeError::Parse(
                        ParseError::new(
                            "expected number and optional symbol, or number and percentage",
                        ),
                    ),
                );
            },
        };
        if !is_exhausted(&mut parser) {
            return Err(make_err());
        }
        Ok(length)
    }
}

} // verus!
