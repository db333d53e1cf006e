use scale_bridge::text::{
    from_chars, replace, same_chars, same_text, space, split, to_chars, trim,
};

const SAMPLES: [&str; 12] = [
    "",
    " ",
    "a",
    "  a  ",
    "a b",
    "\t426 kg G\r\n",
    "   \u{a0}\u{3000} ",
    "x\u{2003}y",
    " one  two   three ",
    "\u{feff}bom",
    "no-space",
    "\u{1680}a\u{205f}b\u{202f}",
];

#[test]
fn white_space_is_what_the_standard_library_calls_white_space() {
    for code in 0..=0x10ffffu32 {
        if let Some(c) = char::from_u32(code) {
            assert_eq!(space(c), c.is_whitespace(), "U+{:04X}", code);
        }
    }
}

#[test]
fn trim_cuts_both_ends_and_nothing_else() {
    for sample in SAMPLES {
        let trimmed = from_chars(&trim(&to_chars(sample)));
        assert_eq!(trimmed, sample.trim(), "{:?}", sample);
    }
}

#[test]
fn split_gives_the_runs_between_white_space() {
    for sample in SAMPLES {
        let tokens: Vec<String> = split(&to_chars(sample)).iter().map(|t| from_chars(t)).collect();
        let expected: Vec<String> = sample.split_whitespace().map(|t| t.to_string()).collect();
        assert_eq!(tokens, expected, "{:?}", sample);
    }
    assert_eq!(split(&to_chars("   ")).len(), 0);
    assert_eq!(split(&to_chars(" one  two   three ")).len(), 3);
}

#[test]
fn replace_turns_every_occurrence() {
    assert_eq!(from_chars(&replace(&to_chars("1,5 k,g ,"), ',', '.')), "1.5 k.g .");
    assert_eq!(from_chars(&replace(&to_chars("abc"), ',', '.')), "abc");
    assert_eq!(from_chars(&replace(&to_chars(""), ',', '.')), "");
}

#[test]
fn text_and_characters_convert_both_ways() {
    for sample in SAMPLES {
        let chars = to_chars(sample);
        assert_eq!(chars, sample.chars().collect::<Vec<char>>());
        assert_eq!(from_chars(&chars), sample);
    }
}

#[test]
fn texts_are_compared_character_by_character() {
    assert!(same_text("tare", "tare"));
    assert!(same_text("", ""));
    assert!(!same_text("tare", "tare "));
    assert!(!same_text("tare", "Tare"));
    assert!(!same_text("tare", "tar"));
    assert!(!same_text("", "x"));
    assert!(same_chars(&['a', 'b'], &['a', 'b']));
    assert!(!same_chars(&['a', 'b'], &['a', 'c']));
    assert!(!same_chars(&['a'], &[]));
}
