//! The line parser: one line of device output becomes a weight reading, or
//! is passed on as raw text where it holds none.
//!
//! A line is either `<frame-id>:<weight> <unit> <status>`, with white space
//! between its parts, or a bare `<weight>`. A comma in the weight counts as
//! a decimal point.

use crate::decimal::{numeral, Decimal, DecimalView};
use crate::text::{
    find_char, from_chars, lemma_position_of, position_of, replace, replaced, slice_chars, split,
    to_chars, tokens, trim, trimmed, views,
};
use vstd::prelude::*;

verus! {

/// What a weight reading holds.
pub struct ReadingView {
    pub weight: DecimalView,
    pub unit: Seq<char>,
    pub status: Seq<char>,
    pub raw: Seq<char>,
}

/// The unit of a reading that names none.
pub open spec fn default_unit() -> Seq<char> {
    seq!['k', 'g']
}

/// Whether `line` starts with a frame identifier, that is, holds a colon.
pub open spec fn has_frame_id(line: Seq<char>) -> bool {
    position_of(line, ':', 0) < line.len()
}

/// The part of `line` that is read: what follows the first colon, or all of
/// `line` where it holds no colon, without the white space at its two ends.
pub open spec fn payload(line: Seq<char>) -> Seq<char> {
    let colon = position_of(line, ':', 0);
    if colon < line.len() {
        trimmed(line.subrange(colon + 1, line.len() as int))
    } else {
        trimmed(line)
    }
}

/// The tokens in which a reading is looked for: those of the payload, with
/// each comma turned into a decimal point.
pub open spec fn fields(line: Seq<char>) -> Seq<Seq<char>> {
    tokens(replaced(payload(line), ',', '.'))
}

/// The reading that `line` holds, if any.
///
/// Behind a frame identifier, three or more tokens are the weight, the unit
/// and the status, and a single token is the weight alone; two tokens are no
/// reading. Without a frame identifier the first token is the weight,
/// whatever follows it. A weight alone is in `default_unit()` and has an
/// empty status. Where the weight is no decimal numeral there is no
/// reading.
pub open spec fn reading_of(line: Seq<char>) -> Option<ReadingView> {
    let raw = payload(line);
    let f = fields(line);
    if has_frame_id(line) && f.len() >= 3 {
        match numeral(f[0]) {
            Some(weight) => Some(ReadingView { weight, unit: f[1], status: f[2], raw }),
            None => None,
        }
    } else if f.len() == 1 || (!has_frame_id(line) && f.len() >= 1) {
        match numeral(f[0]) {
            Some(weight) => Some(
                ReadingView { weight, unit: default_unit(), status: Seq::empty(), raw },
            ),
            None => None,
        }
    } else {
        None
    }
}

/// What is passed on for one line of device output.
pub enum LineEventView {
    Reading(ReadingView),
    Raw(Seq<char>),
}

/// What is passed on for `line`: its reading, or its payload as raw text.
pub open spec fn event_of(line: Seq<char>) -> LineEventView {
    match reading_of(line) {
        Some(reading) => LineEventView::Reading(reading),
        None => LineEventView::Raw(payload(line)),
    }
}

/// A weight read from the device.
#[derive(Debug, PartialEq, Eq)]
pub struct WeightReading {
    weight: Decimal,
    unit: String,
    status: String,
    raw: String,
}

impl View for WeightReading {
    type V = ReadingView;

    closed spec fn view(&self) -> ReadingView {
        ReadingView {
            weight: self.weight@,
            unit: self.unit@,
            status: self.status@,
            raw: self.raw@,
        }
    }
}

impl Clone for WeightReading {
    fn clone(&self) -> (r: Self)
        ensures
            r@ == self@,
    {
        WeightReading {
            weight: self.weight.clone(),
            unit: self.unit.clone(),
            status: self.status.clone(),
            raw: self.raw.clone(),
        }
    }
}

impl WeightReading {
    /// The weight.
    pub fn weight(&self) -> (r: &Decimal)
        ensures
            r@ == self@.weight,
    {
        &self.weight
    }

    /// The unit of the weight.
    pub fn unit(&self) -> (r: &str)
        ensures
            r@ == self@.unit,
    {
        self.unit.as_str()
    }

    /// The status that the device gave with the weight.
    pub fn status(&self) -> (r: &str)
        ensures
            r@ == self@.status,
    {
        self.status.as_str()
    }

    /// The text that the reading was taken from.
    pub fn raw(&self) -> (r: &str)
        ensures
            r@ == self@.raw,
    {
        self.raw.as_str()
    }
}

/// A line that holds no reading.
#[derive(Debug, PartialEq, Eq)]
pub struct RawLine {
    raw: String,
}

impl View for RawLine {
    type V = Seq<char>;

    closed spec fn view(&self) -> Seq<char> {
        self.raw@
    }
}

impl Clone for RawLine {
    fn clone(&self) -> (r: Self)
        ensures
            r@ == self@,
    {
        RawLine { raw: self.raw.clone() }
    }
}

impl RawLine {
    /// The text of the line.
    pub fn raw(&self) -> (r: &str)
        ensures
            r@ == self@,
    {
        self.raw.as_str()
    }
}

/// What is passed on for one line of device output.
#[derive(Debug, PartialEq, Eq)]
pub enum LineEvent {
    Reading(WeightReading),
    Raw(RawLine),
}

impl View for LineEvent {
    type V = LineEventView;

    open spec fn view(&self) -> LineEventView {
        match self {
            LineEvent::Reading(reading) => LineEventView::Reading(reading@),
            LineEvent::Raw(line) => LineEventView::Raw(line@),
        }
    }
}

/// What an optional reading holds.
pub open spec fn held(r: Option<WeightReading>) -> Option<ReadingView> {
    match r {
        Some(x) => Some(x@),
        None => None,
    }
}

/// The payload of a line, and whether a frame identifier stood before it.
fn payload_chars(line: &[char]) -> (r: (Vec<char>, bool))
    ensures
        r.0@ == payload(line@),
        r.1 == has_frame_id(line@),
{
    let colon = find_char(line, ':', 0);
    if colon < line.len() {
        let rest = slice_chars(line, colon + 1, line.len());
        (trim(rest.as_slice()), true)
    } else {
        (trim(line), false)
    }
}

/// The text `kg`.
fn default_unit_text() -> (r: String)
    ensures
        r@ == default_unit(),
{
    let mut r = String::new();
    r.push('k');
    r.push('g');
    assert(r@ == default_unit());
    r
}

/// The reading in a payload, given whether a frame identifier stood before
/// it.
fn reading_in(raw: &Vec<char>, framed: bool) -> (r: Option<WeightReading>)
    ensures
        forall|line: Seq<char>|
            payload(line) == raw@ && has_frame_id(line) == framed ==> held(r)
                == #[trigger] reading_of(line),
{
    let dotted = replace(raw.as_slice(), ',', '.');
    let f = split(dotted.as_slice());
    assert(forall|i: int| 0 <= i < f@.len() ==> views(f@)[i] == #[trigger] f@[i]@);
    if framed && f.len() >= 3 {
        match Decimal::parse(f[0].as_slice()) {
            Some(weight) => Some(
                WeightReading {
                    weight,
                    unit: from_chars(f[1].as_slice()),
                    status: from_chars(f[2].as_slice()),
                    raw: from_chars(raw.as_slice()),
                },
            ),
            None => None,
        }
    } else if f.len() == 1 || (!framed && f.len() >= 1) {
        match Decimal::parse(f[0].as_slice()) {
            Some(weight) => Some(
                WeightReading {
                    weight,
                    unit: default_unit_text(),
                    status: String::new(),
                    raw: from_chars(raw.as_slice()),
                },
            ),
            None => None,
        }
    } else {
        None
    }
}

/// Reads one line of device output. `None` where the line holds no reading;
/// `event_for_line` then passes the line on as raw text.
pub fn parse(line: &str) -> (r: Option<WeightReading>)
    ensures
        held(r) == reading_of(line@),
{
    let chars = to_chars(line);
    let (raw, framed) = payload_chars(chars.as_slice());
    reading_in(&raw, framed)
}

/// What is passed on for one line of device output: the reading that it
/// holds or, where it holds none, its payload as raw text.
pub fn event_for_line(line: &str) -> (r: LineEvent)
    ensures
        r@ == event_of(line@),
{
    let chars = to_chars(line);
    let (raw, framed) = payload_chars(chars.as_slice());
    match reading_in(&raw, framed) {
        Some(reading) => LineEvent::Reading(reading),
        None => LineEvent::Raw(RawLine { raw: from_chars(raw.as_slice()) }),
    }
}

/// Reading a line twice gives the same: whatever two runs of `parse` return
/// for one line holds the same weight, unit, status and raw text, or both
/// return nothing.
pub proof fn lemma_parse_repeats(
    line: Seq<char>,
    first: Option<WeightReading>,
    second: Option<WeightReading>,
)
    requires
        held(first) == reading_of(line),
        held(second) == reading_of(line),
    ensures
        held(first) == held(second),
        first is Some <==> second is Some,
{
}

/// Passing a line on twice gives the same event.
pub proof fn lemma_event_repeats(line: Seq<char>, first: LineEvent, second: LineEvent)
    requires
        first@ == event_of(line),
        second@ == event_of(line),
    ensures
        first@ == second@,
{
}

/// A reading is of the payload of its line, and its weight is the numeral
/// that the first token writes once commas are decimal points.
pub proof fn lemma_reading_of(line: Seq<char>)
    requires
        reading_of(line) is Some,
    ensures
        reading_of(line)->0.raw == payload(line),
        fields(line).len() >= 1,
        numeral(fields(line)[0]) == Some(reading_of(line)->0.weight),
        reading_of(line)->0.weight.wf(),
{
    crate::decimal::lemma_numeral_wf(fields(line)[0]);
}

/// The payload is cut out of the line: it is a range of the line that lies
/// behind the first colon, if there is one, and it neither starts nor ends
/// with white space.
pub proof fn lemma_payload(line: Seq<char>)
    ensures
        exists|a: int, b: int|
            0 <= a <= b <= line.len() && payload(line) == #[trigger] line.subrange(a, b) && (
            has_frame_id(line) ==> position_of(line, ':', 0) < a),
        payload(line).len() > 0 ==> !crate::text::is_space(payload(line).first())
            && !crate::text::is_space(payload(line).last()),
{
    let colon = position_of(line, ':', 0);
    lemma_position_of(line, ':', 0);
    if colon < line.len() {
        let rest = line.subrange(colon + 1, line.len() as int);
        crate::text::lemma_trimmed(rest);
        let (a, b) = choose|a: int, b: int|
            0 <= a <= b <= rest.len() && trimmed(rest) == #[trigger] rest.subrange(a, b);
        assert(rest.subrange(a, b) =~= line.subrange(colon + 1 + a, colon + 1 + b));
    } else {
        crate::text::lemma_trimmed(line);
        let (a, b) = choose|a: int, b: int|
            0 <= a <= b <= line.len() && trimmed(line) == #[trigger] line.subrange(a, b);
        assert(payload(line) == line.subrange(a, b));
    }
}

} // verus!
