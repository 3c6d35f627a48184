use svg_pattern::aspect_ratio::{Align, Align1D, AlignMode, AspectRatio, FitMode};
use svg_pattern::error::AttributeError;
use svg_pattern::parsers::Parse;
use svg_pattern::words::{is_whitespace, split_whitespace};

#[test]
fn parsing_invalid_strings_yields_error() {
    assert!(AspectRatio::parse("", ()).is_err());

    assert!(AspectRatio::parse("defer", ()).is_err());

    assert!(AspectRatio::parse("defer foo", ()).is_err());

    assert!(AspectRatio::parse("defer xmidymid", ()).is_err());

    assert!(AspectRatio::parse("defer xMidYMid foo", ()).is_err());

    assert!(AspectRatio::parse("xmidymid", ()).is_err());

    assert!(AspectRatio::parse("xMidYMid foo", ()).is_err());

    assert!(AspectRatio::parse("defer xMidYMid meet foo", ()).is_err());
}

#[test]
fn parses_valid_strings() {
    assert_eq!(
        AspectRatio::parse("defer none", ()),
        Ok(AspectRatio { defer: true, align: Align::Unaligned })
    );

    assert_eq!(
        AspectRatio::parse("xMidYMid", ()),
        Ok(AspectRatio {
            defer: false,
            align: Align::Aligned { align: AlignMode::XmidYmid, fit: FitMode::Meet }
        })
    );

    assert_eq!(
        AspectRatio::parse("defer xMidYMid", ()),
        Ok(AspectRatio {
            defer: true,
            align: Align::Aligned { align: AlignMode::XmidYmid, fit: FitMode::Meet }
        })
    );

    assert_eq!(
        AspectRatio::parse("defer xMinYMax", ()),
        Ok(AspectRatio {
            defer: true,
            align: Align::Aligned { align: AlignMode::XminYmax, fit: FitMode::Meet }
        })
    );

    assert_eq!(
        AspectRatio::parse("defer xMaxYMid meet", ()),
        Ok(AspectRatio {
            defer: true,
            align: Align::Aligned { align: AlignMode::XmaxYmid, fit: FitMode::Meet }
        })
    );

    assert_eq!(
        AspectRatio::parse("defer xMinYMax slice", ()),
        Ok(AspectRatio {
            defer: true,
            align: Align::Aligned { align: AlignMode::XminYmax, fit: FitMode::Slice }
        })
    );
}

fn test_roundtrip(s: &str) {
    let a = AspectRatio::parse(s, ()).unwrap();

    assert_eq!(AspectRatio::from_u32(a.to_u32()), a);
}

#[test]
fn conversion_to_u32_roundtrips() {
    test_roundtrip("defer xMidYMid");
    test_roundtrip("defer xMinYMax slice");
    test_roundtrip("xMaxYMax meet");
    test_roundtrip("xMinYMid slice");
}

// The arithmetic that places one axis, on the values the library decides.
fn align_1d(a: Align1D, dest_pos: f64, dest_size: f64, obj_size: f64) -> f64 {
    match a {
        Align1D::Min => dest_pos,
        Align1D::Mid => dest_pos + (dest_size - obj_size) / 2.0,
        Align1D::Max => dest_pos + dest_size - obj_size,
    }
}

fn compute(
    aspect: &AspectRatio,
    object_width: f64,
    object_height: f64,
    dest_x: f64,
    dest_y: f64,
    dest_width: f64,
    dest_height: f64,
) -> (f64, f64, f64, f64) {
    match aspect.placement() {
        None => (dest_x, dest_y, dest_width, dest_height),
        Some(placement) => {
            let w_factor = dest_width / object_width;
            let h_factor = dest_height / object_height;
            let factor = match placement.fit {
                FitMode::Meet => w_factor.min(h_factor),
                FitMode::Slice => w_factor.max(h_factor),
            };
            let w = object_width * factor;
            let h = object_height * factor;
            let xpos = align_1d(placement.x, dest_x, dest_width, w);
            let ypos = align_1d(placement.y, dest_y, dest_height, h);
            (xpos, ypos, w, h)
        }
    }
}

fn fitted(s: &str) -> (f64, f64, f64, f64) {
    compute(&AspectRatio::parse(s, ()).unwrap(), 1.0, 10.0, 0.0, 0.0, 10.0, 1.0)
}

#[test]
fn aligns() {
    assert_eq!(fitted("xMinYMin meet"), (0.0, 0.0, 0.1, 1.0));
    assert_eq!(fitted("xMinYMin slice"), (0.0, 0.0, 10.0, 100.0));

    assert_eq!(fitted("xMinYMid meet"), (0.0, 0.0, 0.1, 1.0));
    assert_eq!(fitted("xMinYMid slice"), (0.0, -49.5, 10.0, 100.0));

    assert_eq!(fitted("xMinYMax meet"), (0.0, 0.0, 0.1, 1.0));
    assert_eq!(fitted("xMinYMax slice"), (0.0, -99.0, 10.0, 100.0));

    assert_eq!(fitted("xMidYMin meet"), (4.95, 0.0, 0.1, 1.0));
    assert_eq!(fitted("xMidYMin slice"), (0.0, 0.0, 10.0, 100.0));

    assert_eq!(fitted("xMidYMid meet"), (4.95, 0.0, 0.1, 1.0));
    assert_eq!(fitted("xMidYMid slice"), (0.0, -49.5, 10.0, 100.0));

    assert_eq!(fitted("xMidYMax meet"), (4.95, 0.0, 0.1, 1.0));
    assert_eq!(fitted("xMidYMax slice"), (0.0, -99.0, 10.0, 100.0));

    assert_eq!(fitted("xMaxYMin meet"), (9.9, 0.0, 0.1, 1.0));
    assert_eq!(fitted("xMaxYMin slice"), (0.0, 0.0, 10.0, 100.0));

    assert_eq!(fitted("xMaxYMid meet"), (9.9, 0.0, 0.1, 1.0));
    assert_eq!(fitted("xMaxYMid slice"), (0.0, -49.5, 10.0, 100.0));

    assert_eq!(fitted("xMaxYMax meet"), (9.9, 0.0, 0.1, 1.0));
    assert_eq!(fitted("xMaxYMax slice"), (0.0, -99.0, 10.0, 100.0));
}

#[test]
fn unaligned_uses_the_destination_as_it_is() {
    let a = AspectRatio::parse("none", ()).unwrap();
    assert_eq!(a.placement(), None);
    assert_eq!(compute(&a, 1.0, 10.0, 2.0, 3.0, 10.0, 1.0), (2.0, 3.0, 10.0, 1.0));
}

#[test]
fn none_takes_a_fit_and_drops_it() {
    assert_eq!(
        AspectRatio::parse("none slice", ()),
        Ok(AspectRatio { defer: false, align: Align::Unaligned })
    );
    assert_eq!(
        AspectRatio::parse("defer none meet", ()),
        Ok(AspectRatio { defer: true, align: Align::Unaligned })
    );
}

#[test]
fn words_may_be_separated_by_any_white_space() {
    let expected = Ok(AspectRatio {
        defer: true,
        align: Align::Aligned { align: AlignMode::XmaxYmin, fit: FitMode::Slice },
    });
    assert_eq!(AspectRatio::parse("  defer\txMaxYMin\n slice  ", ()), expected);
    assert_eq!(AspectRatio::parse("defer\u{a0}xMaxYMin\u{3000}slice", ()), expected);
    assert_eq!(AspectRatio::parse("defer\u{2003}xMaxYMin\u{85}slice\u{2029}", ()), expected);
}

#[test]
fn a_word_is_not_split_at_other_characters() {
    assert!(AspectRatio::parse("defer,xMidYMid", ()).is_err());
    assert!(AspectRatio::parse("defer\u{200b}xMidYMid", ()).is_err());
    assert!(AspectRatio::parse("   ", ()).is_err());
    assert!(AspectRatio::parse("defer defer xMidYMid", ()).is_err());
    assert!(AspectRatio::parse("meet", ()).is_err());
    assert!(AspectRatio::parse("xMidYMid defer", ()).is_err());
    assert!(AspectRatio::parse("xMidYMid meet slice", ()).is_err());
}

#[test]
fn grammar_error_carries_its_text() {
    match AspectRatio::parse("defer", ()) {
        Err(AttributeError::Parse(e)) => {
            assert_eq!(e.display, "expected \"[defer] <align> [meet | slice]\"")
        }
        other => panic!("unexpected {:?}", other),
    }
}

#[test]
fn splits_into_words() {
    let words: Vec<String> =
        split_whitespace(" ab  c\td ").iter().map(|w| w.iter().collect()).collect();
    assert_eq!(words, vec!["ab".to_string(), "c".to_string(), "d".to_string()]);
    assert!(split_whitespace("").is_empty());
    assert!(split_whitespace(" \n ").is_empty());
    assert!(is_whitespace(' '));
    assert!(is_whitespace('\u{200a}'));
    assert!(!is_whitespace('\u{200b}'));
    assert!(!is_whitespace('a'));
}

#[test]
fn packed_form_has_the_documented_bits() {
    let all = [
        (AlignMode::XminYmin, 1u32 << 0),
        (AlignMode::XmidYmin, 1 << 1),
        (AlignMode::XmaxYmin, 1 << 2),
        (AlignMode::XminYmid, 1 << 3),
        (AlignMode::XmidYmid, 1 << 4),
        (AlignMode::XmaxYmid, 1 << 5),
        (AlignMode::XminYmax, 1 << 6),
        (AlignMode::XmidYmax, 1 << 7),
        (AlignMode::XmaxYmax, 1 << 8),
    ];
    for (align, bit) in all {
        for (fit, slice) in [(FitMode::Meet, 0u32), (FitMode::Slice, 1 << 30)] {
            for (defer, high) in [(false, 0u32), (true, 1 << 31)] {
                let a = AspectRatio { defer, align: Align::Aligned { align, fit } };
                assert_eq!(a.to_u32(), bit | slice | high);
                assert_eq!(AspectRatio::from_u32(bit | slice | high), a);
            }
        }
    }
    let unaligned = AspectRatio { defer: true, align: Align::Unaligned };
    assert_eq!(unaligned.to_u32(), 1 << 31);
    assert_eq!(AspectRatio::from_u32(1 << 31), unaligned);
    assert_eq!(AspectRatio { defer: false, align: Align::Unaligned }.to_u32(), 0);
}

#[test]
fn unpacking_without_an_alignment_bit_gives_unaligned() {
    assert_eq!(AspectRatio::from_u32(0), AspectRatio { defer: false, align: Align::Unaligned });
    assert_eq!(
        AspectRatio::from_u32(1 << 30),
        AspectRatio { defer: false, align: Align::Unaligned }
    );
    assert_eq!(
        AspectRatio::from_u32((1 << 31) | (1 << 30)),
        AspectRatio { defer: true, align: Align::Unaligned }
    );
}

#[test]
fn unpacking_takes_the_lowest_alignment_bit() {
    assert_eq!(
        AspectRatio::from_u32((1 << 2) | (1 << 7)),
        AspectRatio {
            defer: false,
            align: Align::Aligned { align: AlignMode::XmaxYmin, fit: FitMode::Meet }
        }
    );
}

#[test]
fn round_trip_holds_for_every_value() {
    let aligns = [
        AlignMode::XminYmin,
        AlignMode::XmidYmin,
        AlignMode::XmaxYmin,
        AlignMode::XminYmid,
        AlignMode::XmidYmid,
        AlignMode::XmaxYmid,
        AlignMode::XminYmax,
        AlignMode::XmidYmax,
        AlignMode::XmaxYmax,
    ];
    for defer in [false, true] {
        let a = AspectRatio { defer, align: Align::Unaligned };
        assert_eq!(AspectRatio::from_u32(a.to_u32()), a);
        for align in aligns {
            for fit in [FitMode::Meet, FitMode::Slice] {
                let a = AspectRatio { defer, align: Align::Aligned { align, fit } };
                assert_eq!(AspectRatio::from_u32(a.to_u32()), a);
            }
        }
    }
}

#[test]
fn default_is_centred_meet() {
    let a: AspectRatio = Default::default();
    assert_eq!(
        a,
        AspectRatio {
            defer: false,
            align: Align::Aligned { align: AlignMode::XmidYmid, fit: FitMode::Meet }
        }
    );
    assert_eq!(a, AspectRatio::parse("xMidYMid", ()).unwrap());
}

#[test]
fn alignment_splits_into_its_axes() {
    assert_eq!((AlignMode::XminYmax.x(), AlignMode::XminYmax.y()), (Align1D::Min, Align1D::Max));
    assert_eq!((AlignMode::XmaxYmid.x(), AlignMode::XmaxYmid.y()), (Align1D::Max, Align1D::Mid));
    assert_eq!((AlignMode::XmidYmin.x(), AlignMode::XmidYmin.y()), (Align1D::Mid, Align1D::Min));
}

#[test]
fn white_space_is_what_the_standard_library_says() {
    for code in 0..=0x10ffffu32 {
        if let Some(c) = char::from_u32(code) {
            assert_eq!(is_whitespace(c), c.is_whitespace(), "U+{:04X}", code);
        }
    }
}

#[test]
fn words_are_what_the_standard_library_splits() {
    let samples = [
        "",
        " ",
        "a",
        " a",
        "a ",
        "defer xMidYMid meet",
        "\t\tdefer\r\nxMidYMid\u{b}\u{c}meet\u{1680}",
        "\u{2000}a\u{2001}\u{2002}bc\u{200a}d\u{202f}e\u{205f}f\u{3000}",
        "a\u{200b}b \u{feff}c",
        "ünï cödé  wörds",
    ];
    for sample in samples {
        let ours: Vec<String> =
            split_whitespace(sample).iter().map(|w| w.iter().collect()).collect();
        let theirs: Vec<String> = sample.split_whitespace().map(|w| w.to_string()).collect();
        assert_eq!(ours, theirs, "{:?}", sample);
    }
}
