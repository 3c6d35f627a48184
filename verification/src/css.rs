//! The CSS tokenizer, as far as lengths need it.

use vstd::prelude::*;

verus! {

/// A token of CSS syntax, with what a length can be made of. Numbers are
/// held by their IEEE 754 binary32 encoding.
#[derive(Debug, Clone, PartialEq, Eq)]
pub enum Lexeme {
    /// A number with nothing behind it.
    Number { value: u32 },
    /// A number with `%` behind it. `unit_value` is the number over 100.
    Percentage { unit_value: u32 },
    /// A number with a name behind it.
    Dimension { value: u32, unit: String },
    /// A name.
    Ident(String),
    /// Any other token.
    Other,
}

/// A token as specifications see it: names are sequences of characters.
pub enum LexemeView {
    Number(u32),
    Percentage(u32),
    Dimension(u32, Seq<char>),
    Ident(Seq<char>),
    Other,
}

impl View for Lexeme {
    type V = LexemeView;

    open spec fn view(&self) -> LexemeView {
        match self {
            Lexeme::Number { value } => LexemeView::Number(*value),
            Lexeme::Percentage { unit_value } => LexemeView::Percentage(*unit_value),
            Lexeme::Dimension { value, unit } => LexemeView::Dimension(*value, unit@),
            Lexeme::Ident(name) => LexemeView::Ident(name@),
            Lexeme::Other => LexemeView::Other,
        }
    }
}

impl LexemeView {
    /// The number in the token, and the encoding of zero where it has
    /// none.
    pub open spec fn number(self) -> u32 {
        match self {
            LexemeView::Number(value) => value,
            LexemeView::Percentage(unit_value) => unit_value,
            LexemeView::Dimension(value, _) => value,
            LexemeView::Ident(_) | LexemeView::Other => 0,
        }
    }

    /// The token with zero for its number: what the token is, apart from
    /// the number in it.
    pub open spec fn shape(self) -> LexemeView {
        match self {
            LexemeView::Number(_) => LexemeView::Number(0),
            LexemeView::Percentage(_) => LexemeView::Percentage(0),
            LexemeView::Dimension(_, unit) => LexemeView::Dimension(0, unit),
            LexemeView::Ident(name) => LexemeView::Ident(name),
            LexemeView::Other => LexemeView::Other,
        }
    }
}

/// A character that makes an exponent of an `e` before it: a digit or a
/// sign.
pub open spec fn opens_exponent(c: char) -> bool {
    ('0' <= c && c <= '9') || c == '+' || c == '-'
}

/// No number in `s` can be written with an exponent: no `e` or `E` stands
/// before a digit or a sign.
pub open spec fn writes_no_exponent(s: Seq<char>) -> bool {
    forall|i: int|
        0 <= i && i + 1 < s.len() && (#[trigger] s[i] == 'e' || s[i] == 'E') ==> !opens_exponent(
            s[i + 1],
        )
}

#[verifier::external_type_specification]
#[verifier::external_body]
pub struct ExParser<'i>(cssparser::Parser<'i>);

/// The tokens that a parser has yet to hand out, in order.
pub uninterp spec fn pending(parser: cssparser::Parser) -> Seq<LexemeView>;

/// The string that a parser was made for.
pub uninterp spec fn input(parser: cssparser::Parser) -> Seq<char>;

/// The tokens at the top level of a string of CSS, in order, without
/// white space and comments.
///
/// The number of a token is the one that the tokenizer works out from its
/// digits by sums, products and quotients, which round in one way only.
/// For a number with an exponent the tokenizer also takes a power of ten,
/// whose last bit is not the same on every machine: of such a number
/// nothing is claimed.
pub uninterp spec fn css_lexemes(s: Seq<char>) -> Seq<LexemeView>;

/// `cssparser::Parser::new`: a parser at the start of `s`, which has all
/// of its tokens yet to hand out.
#[verifier::external_body]
pub(crate) fn new_parser<'i>(s: &'i str) -> (parser: cssparser::Parser<'i>)
    ensures
        pending(parser) == css_lexemes(s@),
        input(parser) == s@,
{
    cssparser::Parser::new(s)
}

/// `cssparser::Parser::next`: the next token, or `None` at the end of the
/// input. The token is what was first among the pending ones, and is
/// pending no longer. Its number is claimed only where the input writes
/// no exponent.
#[verifier::external_body]
pub(crate) fn next_lexeme(parser: &mut cssparser::Parser) -> (r: Option<Lexeme>)
    ensures
        input(*final(parser)) == input(*old(parser)),
        match r {
            Some(lexeme) => {
                &&& pending(*old(parser)).len() > 0
                &&& lexeme@.shape() == pending(*old(parser))[0].shape()
                &&& writes_no_exponent(input(*old(parser))) ==> lexeme@ == pending(
                    *old(parser),
                )[0]
                &&& pending(*final(parser)) == pending(*old(parser)).drop_first()
            },
            None => pending(*old(parser)).len() == 0 && pending(*final(parser)) == pending(
                *old(parser),
            ),
        },
{
    match parser.next() {
        Ok(cssparser::Token::Number { value, .. }) => Some(
            Lexeme::Number { value: value.to_bits() },
        ),
        Ok(cssparser::Token::Percentage { unit_value, .. }) => Some(
            Lexeme::Percentage { unit_value: unit_value.to_bits() },
        ),
        Ok(cssparser::Token::Dimension { value, unit, .. }) => Some(
            Lexeme::Dimension { value: value.to_bits(), unit: unit.to_string() },
        ),
        Ok(cssparser::Token::Ident(name)) => Some(Lexeme::Ident(name.to_string())),
        Ok(_) => Some(Lexeme::Other),
        Err(_) => None,
    }
}

/// `cssparser::Parser::expect_exhausted`: whether no token is pending.
/// The parser is left where it was.
#[verifier::external_body]
pub(crate) fn is_exhausted(parser: &mut cssparser::Parser) -> (r: bool)
    ensures
        r == (pending(*old(parser)).len() == 0),
        pending(*final(parser)) == pending(*old(parser)),
        input(*final(parser)) == input(*old(parser)),
{
    parser.expect_exhausted().is_ok()
}

} // verus!
