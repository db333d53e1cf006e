//! Decimal numerals: the exact value of a weight as the device wrote it.
//!
//! A weight is kept as its sign, its decimal digits and the number of digits
//! that follow the decimal point, so that no precision is lost and no
//! numeral is too long to hold. The value is finite by construction.

use crate::text::{find_char, lemma_position_of, position_of};
use vstd::prelude::*;

verus! {

/// A decimal number: `digits`, read as one integer, scaled down by
/// `10^scale`, with a sign.
pub struct DecimalView {
    pub negative: bool,
    pub digits: Seq<u8>,
    pub scale: nat,
}

impl DecimalView {
    /// There is at least one digit, each digit is at most 9, and the decimal
    /// point lies within the digits.
    pub open spec fn wf(self) -> bool {
        &&& self.digits.len() >= 1
        &&& self.scale <= self.digits.len()
        &&& forall|i: int| 0 <= i < self.digits.len() ==> #[trigger] self.digits[i] <= 9
    }

    /// The number of digits before the decimal point.
    pub open spec fn whole_len(self) -> int {
        self.digits.len() - self.scale
    }
}

/// Whether `c` is one of the ten decimal digits.
pub open spec fn is_digit(c: char) -> bool {
    '0' <= c <= '9'
}

/// The value of the digit `c`.
pub open spec fn digit_of(c: char) -> u8 {
    (c as u32 - '0' as u32) as u8
}

/// The character that writes the digit `d`.
pub open spec fn numeral_of(d: u8) -> char {
    (d + 48) as u8 as char
}

/// Whether `s` holds decimal digits only.
pub open spec fn all_digits(s: Seq<char>) -> bool {
    forall|i: int| 0 <= i < s.len() ==> is_digit(#[trigger] s[i])
}

/// The values of the digits of `s`.
pub open spec fn digit_values(s: Seq<char>) -> Seq<u8> {
    Seq::new(s.len(), |i: int| digit_of(s[i]))
}

/// The characters that write the digits `d`.
pub open spec fn digit_chars(d: Seq<u8>) -> Seq<char> {
    Seq::new(d.len(), |i: int| numeral_of(d[i]))
}

/// Whether `s` starts with a sign.
pub open spec fn has_sign(s: Seq<char>) -> bool {
    s.len() > 0 && (s[0] == '+' || s[0] == '-')
}

/// The number that `s` writes, if `s` is a decimal numeral: an optional
/// sign, then digits with at most one decimal point among them, before them
/// or behind them, and at least one digit in all. Exponents, infinities and
/// other spellings are no numerals.
pub open spec fn numeral(s: Seq<char>) -> Option<DecimalView> {
    let start: int = if has_sign(s) { 1 } else { 0 };
    let point = position_of(s, '.', start);
    let rest = if point < s.len() { point + 1 } else { point };
    let whole = s.subrange(start, point);
    let fraction = s.subrange(rest, s.len() as int);
    if all_digits(whole) && all_digits(fraction) && whole.len() + fraction.len() > 0 {
        Some(
            DecimalView {
                negative: has_sign(s) && s[0] == '-',
                digits: digit_values(whole + fraction),
                scale: fraction.len(),
            },
        )
    } else {
        None
    }
}

/// The shortest numeral that writes `d` digit for digit: a `-` if `d` is
/// negative, the digits before the decimal point, and, if any digit follows
/// it, the point and those digits.
pub open spec fn numeral_text(d: DecimalView) -> Seq<char> {
    let sign = if d.negative { seq!['-'] } else { Seq::<char>::empty() };
    let chars = digit_chars(d.digits);
    let whole = chars.take(d.whole_len());
    let fraction = if d.scale > 0 { seq!['.'] + chars.skip(d.whole_len()) } else { Seq::<char>::empty() };
    sign + whole + fraction
}

/// What `numeral` accepts is well formed.
pub proof fn lemma_numeral_wf(s: Seq<char>)
    requires
        numeral(s) is Some,
    ensures
        numeral(s)->0.wf(),
{
    let start: int = if has_sign(s) { 1 } else { 0 };
    lemma_position_of(s, '.', start);
}

/// `position_of` is `p` when no `c` lies between `from` and `p` and `p` holds
/// `c` or is the end of `s`.
proof fn lemma_position_found(s: Seq<char>, c: char, from: int, p: int)
    requires
        0 <= from <= p <= s.len(),
        forall|k: int| from <= k < p ==> #[trigger] s[k] != c,
        p < s.len() ==> s[p] == c,
    ensures
        position_of(s, c, from) == p,
    decreases p - from,
{
    if from < p {
        lemma_position_found(s, c, from + 1, p);
    }
}

/// Writing a number and reading the numeral again gives the same number,
/// digit for digit.
pub proof fn lemma_numeral_text_read_back(d: DecimalView)
    requires
        d.wf(),
    ensures
        numeral(numeral_text(d)) == Some(d),
{
    let t = numeral_text(d);
    let chars = digit_chars(d.digits);
    let start: int = if d.negative { 1 } else { 0 };
    let point = start + d.whole_len();
    assert(t.len() == start + d.digits.len() + if d.scale > 0 { 1int } else { 0 });
    assert forall|k: int| start <= k < point implies #[trigger] t[k] == chars[k - start] by {}
    assert forall|k: int| 0 <= k < chars.len() implies is_digit(#[trigger] chars[k]) && digit_of(
        chars[k],
    ) == d.digits[k] by {
        assert(d.digits[k] <= 9);
    }
    if d.scale > 0 {
        assert(t[point] == '.');
        assert forall|k: int| point < k < t.len() implies #[trigger] t[k] == chars[k - start - 1] by {}
    }
    assert(has_sign(t) == d.negative) by {
        if !d.negative {
            if d.whole_len() > 0 {
                assert(t[0] == chars[0]);
            } else {
                assert(t[0] == '.');
            }
        }
    }
    assert forall|k: int| start <= k < point implies #[trigger] t[k] != '.' by {
        assert(is_digit(chars[k - start]));
    }
    lemma_position_found(t, '.', start, point);
    let rest = if point < t.len() { point + 1 } else { point };
    let whole = t.subrange(start, point);
    let fraction = t.subrange(rest, t.len() as int);
    assert(whole =~= chars.take(d.whole_len()));
    assert(fraction =~= chars.skip(d.whole_len()));
    assert(whole + fraction =~= chars);
    assert(digit_values(chars) =~= d.digits);
    assert(all_digits(whole));
    assert(all_digits(fraction));
}

/// A decimal number with its digits as the device wrote them.
#[derive(Debug, PartialEq, Eq)]
pub struct Decimal {
    negative: bool,
    digits: Vec<u8>,
    scale: usize,
}

impl View for Decimal {
    type V = DecimalView;

    closed spec fn view(&self) -> DecimalView {
        DecimalView { negative: self.negative, digits: self.digits@, scale: self.scale as nat }
    }
}

impl Clone for Decimal {
    fn clone(&self) -> (r: Self)
        ensures
            r@ == self@,
    {
        proof {
            use_type_invariant(self);
        }
        Decimal { negative: self.negative, digits: self.digits.clone(), scale: self.scale }
    }
}

impl Decimal {
    #[verifier::type_invariant]
    spec fn well_formed(self) -> bool {
        self@.wf()
    }

    /// Reads a decimal numeral. `None` where `v` is none.
    #[verifier::loop_isolation(false)]
    pub fn parse(v: &[char]) -> (r: Option<Decimal>)
        ensures
            match r {
                Some(d) => numeral(v@) == Some(d@),
                None => numeral(v@) is None,
            },
    {
        let n = v.len();
        let negative = n > 0 && v[0] == '-';
        let start: usize = if n > 0 && (v[0] == '-' || v[0] == '+') { 1 } else { 0 };
        let point = find_char(v, '.', start);
        let rest: usize = if point < n { point + 1 } else { point };
        let ghost whole = v@.subrange(start as int, point as int);
        let ghost fraction = v@.subrange(rest as int, n as int);
        let mut digits: Vec<u8> = Vec::new();
        let mut i: usize = start;
        while i < point
            invariant
                start <= i <= point <= n == v.len(),
                whole == v@.subrange(start as int, point as int),
                all_digits(v@.subrange(start as int, i as int)),
                digits@ == digit_values(v@.subrange(start as int, i as int)),
            decreases point - i,
        {
            match digit(v[i]) {
                Some(d) => {
                    digits.push(d);
                },
                None => {
                    assert(!is_digit(whole[i - start]));
                    return None;
                },
            }
            i += 1;
        }
        assert(v@.subrange(start as int, i as int) == whole);
        let mut j: usize = rest;
        while j < n
            invariant
                rest <= j <= n == v.len(),
                fraction == v@.subrange(rest as int, n as int),
                all_digits(whole),
                all_digits(v@.subrange(rest as int, j as int)),
                digits@ == digit_values(whole + v@.subrange(rest as int, j as int)),
            decreases n - j,
        {
            match digit(v[j]) {
                Some(d) => {
                    digits.push(d);
                },
                None => {
                    assert(!is_digit(fraction[j - rest]));
                    return None;
                },
            }
            j += 1;
        }
        assert(v@.subrange(rest as int, j as int) == fraction);
        if digits.len() == 0 {
            return None;
        }
        proof {
            lemma_numeral_wf(v@);
        }
        Some(Decimal { negative, digits, scale: n - rest })
    }

    /// Writes the number as its shortest numeral, which `parse` reads back
    /// as the same number.
    pub fn to_text(&self) -> (r: String)
        ensures
            r@ == numeral_text(self@),
            numeral(r@) == Some(self@),
    {
        proof {
            use_type_invariant(self);
            lemma_numeral_text_read_back(self@);
        }
        let n = self.digits.len();
        let whole_len = n - self.scale;
        let ghost chars = digit_chars(self.digits@);
        let ghost sign = if self.negative { seq!['-'] } else { Seq::<char>::empty() };
        let mut r = String::new();
        if self.negative {
            r.push('-');
        }
        let mut i: usize = 0;
        while i < whole_len
            invariant
                i <= whole_len <= n == self.digits.len(),
                self@.wf(),
                chars == digit_chars(self.digits@),
                r@ == sign + chars.take(i as int),
            decreases whole_len - i,
        {
            r.push(numeral_char(self.digits[i]));
            i += 1;
        }
        if self.scale > 0 {
            r.push('.');
            let ghost head = sign + chars.take(whole_len as int) + seq!['.'];
            while i < n
                invariant
                    whole_len <= i <= n == self.digits.len(),
                    self@.wf(),
                    chars == digit_chars(self.digits@),
                    head == sign + chars.take(whole_len as int) + seq!['.'],
                    r@ == head + chars.subrange(whole_len as int, i as int),
                decreases n - i,
            {
                r.push(numeral_char(self.digits[i]));
                i += 1;
            }
            assert(chars.subrange(whole_len as int, n as int) == chars.skip(whole_len as int));
            assert(r@ == numeral_text(self@));
        }
        r
    }

    /// Whether the number carries a minus sign.
    pub fn is_negative(&self) -> (r: bool)
        ensures
            r == self@.negative,
    {
        self.negative
    }

    /// The digits, the most significant first.
    pub fn digits(&self) -> (r: &Vec<u8>)
        ensures
            r@ == self@.digits,
            self@.wf(),
    {
        proof {
            use_type_invariant(self);
        }
        &self.digits
    }

    /// The number of digits that follow the decimal point.
    pub fn scale(&self) -> (r: usize)
        ensures
            r == self@.scale,
    {
        self.scale
    }
}

/// The value of a decimal digit, if `c` is one.
pub fn digit(c: char) -> (r: Option<u8>)
    ensures
        r == (if is_digit(c) {
            Some(digit_of(c))
        } else {
            None
        }),
{
    if '0' <= c && c <= '9' {
        Some((c as u32 - '0' as u32) as u8)
    } else {
        None
    }
}

/// The character that writes a digit.
pub(crate) fn numeral_char(d: u8) -> (c: char)
    requires
        d <= 9,
    ensures
        c == numeral_of(d),
{
    (d + 48) as char
}

} // verus!
