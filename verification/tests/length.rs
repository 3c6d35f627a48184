use svg_pattern::css::Lexeme;
use svg_pattern::error::{is_parse_error, is_value_error, AttributeError};
use svg_pattern::length::{
    Basis, LengthDir, LengthUnit, NamedSize, ParsedLength, RsvgLength, Scale,
};
use svg_pattern::parsers::Parse;
use svg_pattern::scalar::Scalar;

const POINTS_PER_INCH: f64 = 72.0;

fn scalar(x: f64) -> Scalar {
    Scalar::from_bits(x.to_bits())
}

// The magnitude that a length stands for, as it was read.
fn magnitude(l: &ParsedLength) -> f64 {
    match l.scale {
        Scale::Nothing => 0.0,
        Scale::Named(size) => 12.0 * 1.2f64.powf(size.power() as f64) / POINTS_PER_INCH,
        scale => {
            let (numerator, denominator) = scale.divisor().unwrap();
            f32::from_bits(l.number) as f64 / (numerator as f64 / denominator as f64)
        }
    }
}

fn parse(s: &str, dir: LengthDir) -> Result<RsvgLength, AttributeError> {
    ParsedLength::parse(s, dir).map(|l| RsvgLength::new(scalar(magnitude(&l)), l.unit, l.dir))
}

#[test]
fn parses_default() {
    assert_eq!(
        parse("42", LengthDir::Horizontal),
        Ok(RsvgLength::new(scalar(42.0), LengthUnit::Default, LengthDir::Horizontal))
    );

    assert_eq!(
        parse("-42px", LengthDir::Horizontal),
        Ok(RsvgLength::new(scalar(-42.0), LengthUnit::Default, LengthDir::Horizontal))
    );
}

#[test]
fn parses_percent() {
    assert_eq!(
        parse("50.0%", LengthDir::Horizontal),
        Ok(RsvgLength::new(scalar(0.5), LengthUnit::Percent, LengthDir::Horizontal))
    );
}

#[test]
fn parses_font_em() {
    assert_eq!(
        parse("22.5em", LengthDir::Vertical),
        Ok(RsvgLength::new(scalar(22.5), LengthUnit::FontEm, LengthDir::Vertical))
    );
}

#[test]
fn parses_font_ex() {
    assert_eq!(
        parse("22.5ex", LengthDir::Vertical),
        Ok(RsvgLength::new(scalar(22.5), LengthUnit::FontEx, LengthDir::Vertical))
    );
}

#[test]
fn parses_physical_units() {
    assert_eq!(
        parse("72pt", LengthDir::Both),
        Ok(RsvgLength::new(scalar(1.0), LengthUnit::Inch, LengthDir::Both))
    );

    assert_eq!(
        parse("-22.5in", LengthDir::Both),
        Ok(RsvgLength::new(scalar(-22.5), LengthUnit::Inch, LengthDir::Both))
    );

    assert_eq!(
        parse("-254cm", LengthDir::Both),
        Ok(RsvgLength::new(scalar(-100.0), LengthUnit::Inch, LengthDir::Both))
    );

    assert_eq!(
        parse("254mm", LengthDir::Both),
        Ok(RsvgLength::new(scalar(10.0), LengthUnit::Inch, LengthDir::Both))
    );

    assert_eq!(
        parse("60pc", LengthDir::Both),
        Ok(RsvgLength::new(scalar(10.0), LengthUnit::Inch, LengthDir::Both))
    );
}

#[test]
fn parses_relative_larger() {
    assert_eq!(
        parse("larger", LengthDir::Vertical),
        Ok(RsvgLength::new(scalar(0.0), LengthUnit::RelativeLarger, LengthDir::Vertical))
    );
}

#[test]
fn parses_relative_smaller() {
    assert_eq!(
        parse("smaller", LengthDir::Vertical),
        Ok(RsvgLength::new(scalar(0.0), LengthUnit::RelativeSmaller, LengthDir::Vertical))
    );
}

#[test]
fn parses_named_sizes() {
    let names = vec!["xx-small", "x-small", "small", "medium", "large", "x-large", "xx-large"];

    let mut previous_value: Option<f64> = None;

    // Just ensure that the values are progressively larger; don't
    // enforce a particular sequence.

    for name in names {
        let length = parse(name, LengthDir::Both).unwrap();

        assert_eq!(length.unit, LengthUnit::Inch);
        assert_eq!(length.dir, LengthDir::Both);

        let value = f64::from_bits(length.length.to_bits());
        if let Some(v) = previous_value {
            assert!(value > v);
        } else {
            previous_value = Some(value);
        }
    }
}

#[test]
fn each_named_size_is_larger_than_the_one_before() {
    let names = ["xx-small", "x-small", "small", "medium", "large", "x-large", "xx-large"];
    let values: Vec<f64> = names
        .iter()
        .map(|name| f64::from_bits(parse(name, LengthDir::Both).unwrap().length.to_bits()))
        .collect();
    for pair in values.windows(2) {
        assert!(pair[0] < pair[1]);
    }
    let powers: Vec<i8> = names.iter().map(|name| NamedSize::from_name(name).unwrap().power()).collect();
    assert_eq!(powers, vec![-3, -2, -1, 0, 1, 2, 3]);
}

#[test]
fn empty_length_yields_error() {
    assert!(is_parse_error(&parse("", LengthDir::Both)));
}

#[test]
fn invalid_unit_yields_error() {
    assert!(is_parse_error(&parse("8furlong", LengthDir::Both)));
}

#[test]
fn invalid_font_size_yields_error() {
    assert!(is_parse_error(&parse("furlong", LengthDir::Both)));
}

#[test]
fn check_nonnegative_works() {
    assert!(parse("0", LengthDir::Both).and_then(|l| l.check_nonnegative()).is_ok());
    assert!(parse("-10", LengthDir::Both).and_then(|l| l.check_nonnegative()).is_err());
}

#[test]
fn parsed_length_keeps_the_number_and_names_the_scale() {
    let l = ParsedLength::parse("72pt", LengthDir::Both).unwrap();
    assert_eq!(l.number, 72.0f32.to_bits());
    assert_eq!(l.scale, Scale::Points);
    assert_eq!(l.unit, LengthUnit::Inch);
    assert_eq!(l.dir, LengthDir::Both);

    let l = ParsedLength::parse("50.0%", LengthDir::Vertical).unwrap();
    assert_eq!(l.number, 0.5f32.to_bits());
    assert_eq!(l.scale, Scale::Plain);
    assert_eq!(l.unit, LengthUnit::Percent);

    let l = ParsedLength::parse("x-large", LengthDir::Both).unwrap();
    assert_eq!(l.number, 0);
    assert_eq!(l.scale, Scale::Named(NamedSize::XLarge));

    let l = ParsedLength::parse("larger", LengthDir::Both).unwrap();
    assert_eq!(l.scale, Scale::Nothing);
    assert_eq!(l.unit, LengthUnit::RelativeLarger);
}

#[test]
fn white_space_around_a_length_is_passed_over() {
    assert_eq!(
        parse("  12px  ", LengthDir::Horizontal),
        Ok(RsvgLength::new(scalar(12.0), LengthUnit::Default, LengthDir::Horizontal))
    );
    assert_eq!(
        parse(" small ", LengthDir::Both).map(|l| l.unit),
        Ok(LengthUnit::Inch)
    );
}

#[test]
fn trailing_tokens_yield_error() {
    assert!(is_parse_error(&parse("12px 3", LengthDir::Both)));
    assert!(is_parse_error(&parse("12 px", LengthDir::Both)));
    assert!(is_parse_error(&parse("small large", LengthDir::Both)));
    assert!(is_parse_error(&parse("50% x", LengthDir::Both)));
}

#[test]
fn other_tokens_yield_error() {
    assert!(is_parse_error(&parse("\"12\"", LengthDir::Both)));
    assert!(is_parse_error(&parse("#12", LengthDir::Both)));
    assert!(is_parse_error(&parse("calc(1px)", LengthDir::Both)));
    assert!(is_parse_error(&parse("12PX", LengthDir::Both)));
    assert!(is_parse_error(&parse("Larger", LengthDir::Both)));
}

#[test]
fn errors_carry_their_text() {
    match ParsedLength::parse("", LengthDir::Both) {
        Err(AttributeError::Parse(e)) => assert_eq!(
            e.display,
            "expected number and optional symbol, or number and percentage"
        ),
        other => panic!("unexpected {:?}", other),
    }
    match ParsedLength::parse("8furlong", LengthDir::Both) {
        Err(AttributeError::Parse(e)) => assert_eq!(
            e.display,
            "expected length: number(\"em\" | \"ex\" | \"px\" | \"in\" | \"cm\" | \"mm\" | \"pt\" | \"pc\" | \"%\")?"
        ),
        other => panic!("unexpected {:?}", other),
    }
    match RsvgLength::new(scalar(-1.0), LengthUnit::Default, LengthDir::Both).check_nonnegative() {
        Err(AttributeError::Value(text)) => assert_eq!(text, "value must be non-negative"),
        other => panic!("unexpected {:?}", other),
    }
}

#[test]
fn a_token_spells_a_length_or_none() {
    let l = ParsedLength::from_lexeme(
        &Lexeme::Dimension { value: 3.0f32.to_bits(), unit: "mm".to_string() },
        LengthDir::Vertical,
    );
    assert_eq!(
        l,
        Ok(ParsedLength {
            number: 3.0f32.to_bits(),
            scale: Scale::Millimetres,
            unit: LengthUnit::Inch,
            dir: LengthDir::Vertical
        })
    );
    let l = ParsedLength::from_lexeme(&Lexeme::Number { value: 7 }, LengthDir::Both);
    assert_eq!(
        l,
        Ok(ParsedLength {
            number: 7,
            scale: Scale::Plain,
            unit: LengthUnit::Default,
            dir: LengthDir::Both
        })
    );
    assert!(is_parse_error(&ParsedLength::from_lexeme(&Lexeme::Other, LengthDir::Both)));
    assert!(is_parse_error(&ParsedLength::from_lexeme(
        &Lexeme::Ident("huge".to_string()),
        LengthDir::Both
    )));
    assert!(is_parse_error(&ParsedLength::from_lexeme(
        &Lexeme::Dimension { value: 0, unit: "".to_string() },
        LengthDir::Both
    )));
}

#[test]
fn scales_divide_by_the_units_per_inch() {
    assert_eq!(Scale::Plain.divisor(), Some((1, 1)));
    assert_eq!(Scale::Points.divisor(), Some((72, 1)));
    assert_eq!(Scale::Centimetres.divisor(), Some((254, 100)));
    assert_eq!(Scale::Millimetres.divisor(), Some((254, 10)));
    assert_eq!(Scale::Picas.divisor(), Some((6, 1)));
    assert_eq!(Scale::Nothing.divisor(), None);
    assert_eq!(Scale::Named(NamedSize::Medium).divisor(), None);
    assert_eq!(254.0f64 / 100.0, 2.54);
    assert_eq!(254.0f64 / 10.0, 25.4);
}

#[test]
fn named_sizes_have_their_powers() {
    let sizes = [
        ("xx-small", NamedSize::XxSmall, -3),
        ("x-small", NamedSize::XSmall, -2),
        ("small", NamedSize::Small, -1),
        ("medium", NamedSize::Medium, 0),
        ("large", NamedSize::Large, 1),
        ("x-large", NamedSize::XLarge, 2),
        ("xx-large", NamedSize::XxLarge, 3),
    ];
    for (name, size, power) in sizes {
        assert_eq!(NamedSize::from_name(name), Some(size));
        assert_eq!(size.power(), power);
    }
    assert_eq!(NamedSize::from_name("tiny"), None);
    let medium = parse("medium", LengthDir::Both).unwrap();
    assert_eq!(f64::from_bits(medium.length.to_bits()), 12.0 / 72.0);
}

#[test]
fn zero_of_either_sign_is_nonnegative() {
    assert!(scalar(0.0).at_least_zero());
    assert!(scalar(-0.0).at_least_zero());
    assert!(scalar(f64::MIN_POSITIVE).at_least_zero());
    assert!(scalar(f64::INFINITY).at_least_zero());
    assert!(!scalar(-f64::MIN_POSITIVE).at_least_zero());
    assert!(!scalar(f64::NEG_INFINITY).at_least_zero());
    assert!(!scalar(f64::NAN).at_least_zero());
    assert!(!scalar(-f64::NAN).at_least_zero());
    for x in [0.0f64, -0.0, 1.5, -1.5, 1e300, -1e-300, f64::NAN, f64::INFINITY] {
        assert_eq!(scalar(x).at_least_zero(), x >= 0.0);
    }
    let negative_zero = RsvgLength::new(scalar(-0.0), LengthUnit::Default, LengthDir::Both);
    assert_eq!(negative_zero.check_nonnegative(), Ok(negative_zero));
    let nan = RsvgLength::new(scalar(f64::NAN), LengthUnit::Default, LengthDir::Both);
    assert!(is_value_error(&nan.check_nonnegative()));
}

#[test]
fn scalar_constants_are_zero_and_one() {
    assert_eq!(f64::from_bits(Scalar::zero().to_bits()), 0.0);
    assert_eq!(Scalar::zero().to_bits(), 0);
    assert_eq!(f64::from_bits(Scalar::one().to_bits()), 1.0);
}

#[test]
fn default_length_is_zero_user_units() {
    let l: RsvgLength = Default::default();
    assert_eq!(l, RsvgLength::new(scalar(0.0), LengthUnit::Default, LengthDir::Both));
}

// The pixels that a length stands for, given what each basis measures.
fn normalize(l: &RsvgLength, viewport: (f64, f64), dpi: (f64, f64), font_size: f64) -> f64 {
    let diagonal = |x: f64, y: f64| (x * x + y * y).sqrt() / std::f64::consts::SQRT_2;
    let along = |dir: LengthDir, (x, y): (f64, f64)| match dir {
        LengthDir::Horizontal => x,
        LengthDir::Vertical => y,
        LengthDir::Both => diagonal(x, y),
    };
    let length = f64::from_bits(l.length.to_bits());
    match l.basis() {
        Basis::Pixel => length,
        Basis::Viewport(dir) => length * along(dir, viewport),
        Basis::FontSize => length * font_size,
        Basis::HalfFontSize => length * font_size / 2.0,
        Basis::PixelsPerInch(dir) => length * along(dir, dpi),
        Basis::Nothing => 0.0,
    }
}

#[test]
fn each_unit_has_its_basis() {
    let of = |unit, dir| RsvgLength::new(scalar(2.0), unit, dir);
    assert_eq!(of(LengthUnit::Default, LengthDir::Both).basis(), Basis::Pixel);
    assert_eq!(
        of(LengthUnit::Percent, LengthDir::Vertical).basis(),
        Basis::Viewport(LengthDir::Vertical)
    );
    assert_eq!(of(LengthUnit::FontEm, LengthDir::Both).basis(), Basis::FontSize);
    assert_eq!(of(LengthUnit::FontEx, LengthDir::Both).basis(), Basis::HalfFontSize);
    assert_eq!(
        of(LengthUnit::Inch, LengthDir::Both).basis(),
        Basis::PixelsPerInch(LengthDir::Both)
    );
    assert_eq!(of(LengthUnit::RelativeLarger, LengthDir::Both).basis(), Basis::Nothing);
    assert_eq!(of(LengthUnit::RelativeSmaller, LengthDir::Both).basis(), Basis::Nothing);
}

#[test]
fn normalizes_by_the_basis() {
    let viewport = (300.0, 400.0);
    let dpi = (90.0, 96.0);
    let of = |x: f64, unit, dir| RsvgLength::new(scalar(x), unit, dir);
    let n = |l: RsvgLength| normalize(&l, viewport, dpi, 10.0);
    assert_eq!(n(of(42.0, LengthUnit::Default, LengthDir::Both)), 42.0);
    assert_eq!(n(of(0.5, LengthUnit::Percent, LengthDir::Horizontal)), 150.0);
    assert_eq!(n(of(0.5, LengthUnit::Percent, LengthDir::Vertical)), 200.0);
    assert_eq!(
        n(of(1.0, LengthUnit::Percent, LengthDir::Both)),
        (300.0f64 * 300.0 + 400.0 * 400.0).sqrt() / std::f64::consts::SQRT_2
    );
    assert_eq!(n(of(2.0, LengthUnit::FontEm, LengthDir::Both)), 20.0);
    assert_eq!(n(of(2.0, LengthUnit::FontEx, LengthDir::Both)), 10.0);
    assert_eq!(n(of(2.0, LengthUnit::Inch, LengthDir::Horizontal)), 180.0);
    assert_eq!(n(of(2.0, LengthUnit::Inch, LengthDir::Vertical)), 192.0);
    assert_eq!(n(of(2.0, LengthUnit::RelativeLarger, LengthDir::Both)), 0.0);
    assert_eq!(n(of(2.0, LengthUnit::RelativeSmaller, LengthDir::Both)), 0.0);
}

#[test]
fn a_number_keeps_its_value_under_each_unit() {
    let units = [
        ("", LengthUnit::Default, 1.0),
        ("px", LengthUnit::Default, 1.0),
        ("em", LengthUnit::FontEm, 1.0),
        ("ex", LengthUnit::FontEx, 1.0),
        ("in", LengthUnit::Inch, 1.0),
        ("pt", LengthUnit::Inch, 72.0),
        ("cm", LengthUnit::Inch, 2.54),
        ("mm", LengthUnit::Inch, 25.4),
        ("pc", LengthUnit::Inch, 6.0),
    ];
    for (text, value) in [("0", 0.0f64), ("7", 7.0), ("-3.25", -3.25), ("+1024", 1024.0), (".5", 0.5)] {
        for (unit, expected_unit, per_inch) in units {
            let string = format!("{}{}", text, unit);
            let read = ParsedLength::parse(&string, LengthDir::Vertical).unwrap();
            assert_eq!(read.number, (value as f32).to_bits(), "{}", string);
            let l = parse(&string, LengthDir::Vertical).unwrap();
            let expected = if per_inch == 1.0 { value } else { value / per_inch };
            assert_eq!(
                l,
                RsvgLength::new(scalar(expected), expected_unit, LengthDir::Vertical),
                "{}",
                string
            );
        }
    }
}

#[test]
fn a_number_with_an_exponent_is_read() {
    let l = ParsedLength::parse("1e2px", LengthDir::Both).unwrap();
    assert_eq!(l.unit, LengthUnit::Default);
    assert_eq!(l.scale, Scale::Plain);
    assert!((f32::from_bits(l.number) - 100.0).abs() < 0.001);
    let l = ParsedLength::parse("25E-1mm", LengthDir::Both).unwrap();
    assert_eq!(l.scale, Scale::Millimetres);
    assert!((f32::from_bits(l.number) - 2.5).abs() < 0.001);
    let l = ParsedLength::parse("2em", LengthDir::Both).unwrap();
    assert_eq!(l.unit, LengthUnit::FontEm);
    assert_eq!(l.number, 2.0f32.to_bits());
}
