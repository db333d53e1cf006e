use scale_bridge::decimal::Decimal;
use scale_bridge::reading::{event_for_line, parse, LineEvent, WeightReading};

fn weight_of(reading: &WeightReading) -> f64 {
    reading.weight().to_text().parse::<f64>().unwrap()
}

fn decimal(text: &str) -> Option<Decimal> {
    let chars: Vec<char> = text.chars().collect();
    Decimal::parse(&chars)
}

#[test]
fn framed_line_gives_weight_unit_and_status() {
    let reading = parse("81050026:    426 kg G").unwrap();
    assert_eq!(weight_of(&reading), 426.0);
    assert_eq!(reading.unit(), "kg");
    assert_eq!(reading.status(), "G");
    assert_eq!(reading.raw(), "426 kg G");
}

#[test]
fn bare_weight_gets_default_unit_and_empty_status() {
    let reading = parse("426").unwrap();
    assert_eq!(weight_of(&reading), 426.0);
    assert_eq!(reading.unit(), "kg");
    assert_eq!(reading.status(), "");
    assert_eq!(reading.raw(), "426");
}

#[test]
fn text_without_a_number_is_passed_on_raw() {
    assert!(parse("hello world").is_none());
    match event_for_line("hello world") {
        LineEvent::Raw(line) => assert_eq!(line.raw(), "hello world"),
        LineEvent::Reading(_) => panic!("no reading was expected"),
    }
}

#[test]
fn comma_counts_as_decimal_point() {
    let reading = parse("12,5 kg G").unwrap();
    assert_eq!(weight_of(&reading), 12.5);
    assert_eq!(reading.weight().digits(), &vec![1u8, 2, 5]);
    assert_eq!(reading.weight().scale(), 1);
    assert!(!reading.weight().is_negative());
}

#[test]
fn raw_keeps_the_comma_and_the_inner_spaces() {
    let reading = parse("7:  12,5   kg  G  ").unwrap();
    assert_eq!(reading.raw(), "12,5   kg  G");
    assert_eq!(weight_of(&reading), 12.5);
    assert_eq!(reading.unit(), "kg");
    assert_eq!(reading.status(), "G");
}

#[test]
fn unframed_line_reads_the_first_token_only() {
    let reading = parse("12,5 kg G").unwrap();
    assert_eq!(reading.unit(), "kg");
    assert_eq!(reading.status(), "");
    assert_eq!(reading.raw(), "12,5 kg G");
    let reading = parse("  3.25 lb ").unwrap();
    assert_eq!(weight_of(&reading), 3.25);
    assert_eq!(reading.unit(), "kg");
    assert_eq!(reading.raw(), "3.25 lb");
}

#[test]
fn framed_line_with_one_token_is_a_weight_alone() {
    let reading = parse("81050026: -0,75\r").unwrap();
    assert_eq!(weight_of(&reading), -0.75);
    assert!(reading.weight().is_negative());
    assert_eq!(reading.unit(), "kg");
    assert_eq!(reading.status(), "");
    assert_eq!(reading.raw(), "-0,75");
}

#[test]
fn framed_line_with_two_tokens_is_no_reading() {
    assert!(parse("81050026: 426 kg").is_none());
    match event_for_line("81050026: 426 kg") {
        LineEvent::Raw(line) => assert_eq!(line.raw(), "426 kg"),
        LineEvent::Reading(_) => panic!("no reading was expected"),
    }
}

#[test]
fn framed_line_with_more_than_three_tokens_reads_the_first_three() {
    let reading = parse("1: 10 g S extra words").unwrap();
    assert_eq!(weight_of(&reading), 10.0);
    assert_eq!(reading.unit(), "g");
    assert_eq!(reading.status(), "S");
    assert_eq!(reading.raw(), "10 g S extra words");
}

#[test]
fn commas_in_unit_and_status_become_points_too() {
    let reading = parse("1: 10 k,g S,T").unwrap();
    assert_eq!(reading.unit(), "k.g");
    assert_eq!(reading.status(), "S.T");
    assert_eq!(reading.raw(), "10 k,g S,T");
}

#[test]
fn only_the_first_colon_parts_the_frame_identifier() {
    let reading = parse("a:7 kg G:x").unwrap();
    assert_eq!(weight_of(&reading), 7.0);
    assert_eq!(reading.status(), "G:x");
    assert_eq!(reading.raw(), "7 kg G:x");
    assert!(parse("a:b: 5").is_none());
    assert!(parse("a:5:6").is_none());
    match event_for_line("a:b: 5") {
        LineEvent::Raw(line) => assert_eq!(line.raw(), "b: 5"),
        LineEvent::Reading(_) => panic!("no reading was expected"),
    }
}

#[test]
fn empty_and_blank_lines_hold_no_reading() {
    assert!(parse("").is_none());
    assert!(parse("   \t ").is_none());
    assert!(parse("81050026:").is_none());
    assert!(parse("81050026:   ").is_none());
    match event_for_line("  \r\n") {
        LineEvent::Raw(line) => assert_eq!(line.raw(), ""),
        LineEvent::Reading(_) => panic!("no reading was expected"),
    }
}

#[test]
fn non_numeric_weight_is_no_reading() {
    assert!(parse("1: abc kg G").is_none());
    assert!(parse("1: 12a kg G").is_none());
    assert!(parse("1: 1.2.3 kg G").is_none());
    assert!(parse("1: 1,234.5 kg G").is_none());
    assert!(parse("1: . kg G").is_none());
    assert!(parse("1: - kg G").is_none());
    assert!(parse("1: +-1 kg G").is_none());
}

#[test]
fn weights_that_are_not_finite_decimals_are_no_reading() {
    assert!(parse("inf").is_none());
    assert!(parse("NaN").is_none());
    assert!(parse("infinity").is_none());
    assert!(parse("1e3").is_none());
    assert!(parse("0x10").is_none());
}

#[test]
fn unicode_white_space_separates_tokens() {
    let reading = parse("1:\u{a0}42\u{2003}kg\u{3000}G\u{85}").unwrap();
    assert_eq!(weight_of(&reading), 42.0);
    assert_eq!(reading.unit(), "kg");
    assert_eq!(reading.status(), "G");
    assert_eq!(reading.raw(), "42\u{2003}kg\u{3000}G");
}

#[test]
fn event_for_a_reading_is_the_reading() {
    match event_for_line("81050026:    426 kg G") {
        LineEvent::Reading(reading) => {
            assert_eq!(Some(reading), parse("81050026:    426 kg G"));
        }
        LineEvent::Raw(_) => panic!("a reading was expected"),
    }
}

#[test]
fn parsing_twice_gives_the_same() {
    for line in ["81050026:    426 kg G", "426", "hello world", "12,5 kg G", "", "x: 1 2"] {
        assert_eq!(parse(line), parse(line));
        assert_eq!(event_for_line(line), event_for_line(line));
    }
}

#[test]
fn a_reading_can_be_cloned() {
    let reading = parse("1: 2,50 t N").unwrap();
    let copy = reading.clone();
    assert_eq!(copy, reading);
    assert_eq!(copy.weight().to_text(), "2.50");
}

#[test]
fn numerals_are_read_digit_for_digit() {
    let d = decimal("426").unwrap();
    assert_eq!((d.is_negative(), d.digits().clone(), d.scale()), (false, vec![4, 2, 6], 0));
    let d = decimal("-12.50").unwrap();
    assert_eq!((d.is_negative(), d.digits().clone(), d.scale()), (true, vec![1, 2, 5, 0], 2));
    let d = decimal("+7").unwrap();
    assert_eq!((d.is_negative(), d.digits().clone(), d.scale()), (false, vec![7], 0));
    let d = decimal("5.").unwrap();
    assert_eq!((d.is_negative(), d.digits().clone(), d.scale()), (false, vec![5], 0));
    let d = decimal(".5").unwrap();
    assert_eq!((d.is_negative(), d.digits().clone(), d.scale()), (false, vec![5], 1));
    let d = decimal("007").unwrap();
    assert_eq!((d.is_negative(), d.digits().clone(), d.scale()), (false, vec![0, 0, 7], 0));
}

#[test]
fn what_is_no_numeral_is_refused() {
    for text in ["", "+", "-", ".", "-.", "1.2.3", "1,5", "12a", " 1", "1 ", "--1", "1e5", "٣"] {
        assert!(decimal(text).is_none(), "{:?}", text);
    }
}

#[test]
fn long_numerals_lose_nothing() {
    let text = "123456789012345678901234567890.000000000000000000001";
    let d = decimal(text).unwrap();
    assert_eq!(d.digits().len(), 51);
    assert_eq!(d.scale(), 21);
    assert_eq!(d.to_text(), text);
}

#[test]
fn written_numerals_read_back_the_same() {
    for (text, written) in [
        ("426", "426"),
        ("-12.50", "-12.50"),
        ("+7", "7"),
        ("5.", "5"),
        (".5", ".5"),
        ("-.25", "-.25"),
        ("0.0", "0.0"),
    ] {
        let d = decimal(text).unwrap();
        assert_eq!(d.to_text(), written);
        assert_eq!(decimal(written), Some(d));
        assert!(written.parse::<f64>().is_ok());
    }
}
