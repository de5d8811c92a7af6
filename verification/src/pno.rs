//! The national personal identity number: parsing of the historically used
//! textual encodings, validation, and lossless canonical re-rendering.
//!
//! Accepted shapes are twelve digits `YYYYMMDDNNNN`, or those twelve digits
//! with a single `-` or space immediately before the last four. A form with a
//! two-digit year leaves the century ambiguous and is refused rather than
//! guessed. The canonical rendering is always exactly twelve digits,
//! zero-padded per field, with no separator: the wire format.
use vstd::prelude::*;
use vstd::string::StrSliceExecFns;

use crate::text::dchar;
use crate::text::digit_val;
use crate::text::is_digit_char;
use crate::text::num2;
use crate::text::num4;
use crate::text::pad2;
use crate::text::pad4;
use crate::text::push_pad2;
use crate::text::push_pad4;
use crate::Error;

verus! {

/// A parsed identity number: century-qualified year, month, day, and the
/// four-digit serial. Equal iff all four fields match.
#[derive(Debug, Clone, Copy, PartialEq, Eq, Structural)]
pub struct PersonalNumber {
    pub year: u16,
    pub month: u8,
    pub day: u8,
    pub last_four_digits: u16,
}

/// Exactly twelve decimal digits: the canonical shape.
pub open spec fn is_canonical12(s: Seq<char>) -> bool {
    s.len() == 12 && forall|i: int| 0 <= i < 12 ==> is_digit_char(#[trigger] s[i])
}

/// Twelve digits with one `-` or space immediately before the last four.
pub open spec fn is_separated13(s: Seq<char>) -> bool {
    s.len() == 13 && (s[8] == '-' || s[8] == ' ') && forall|i: int|
        0 <= i < 13 && i != 8 ==> is_digit_char(#[trigger] s[i])
}

/// The whole accepted grammar, anchored at both ends.
pub open spec fn grammar_ok(s: Seq<char>) -> bool {
    is_canonical12(s) || is_separated13(s)
}

/// The twelve digits of a matching string, separator removed.
pub open spec fn digit_groups(s: Seq<char>) -> Seq<char> {
    if s.len() == 13 {
        s.subrange(0, 8) + s.subrange(9, 13)
    } else {
        s
    }
}

/// What parsing yields: the four zero-padded digit groups as numbers, or
/// nothing when the text does not match the grammar.
pub open spec fn parse_spec(s: Seq<char>) -> Option<PersonalNumber> {
    if grammar_ok(s) {
        let d = digit_groups(s);
        Some(
            PersonalNumber {
                year: num4(d, 0) as u16,
                month: num2(d, 4) as u8,
                day: num2(d, 6) as u8,
                last_four_digits: num4(d, 8) as u16,
            },
        )
    } else {
        None
    }
}

impl PersonalNumber {
    /// Each field fits its zero-padded width in the canonical rendering.
    pub open spec fn wf(self) -> bool {
        self.year <= 9999 && self.month <= 99 && self.day <= 99 && self.last_four_digits <= 9999
    }

    /// The canonical twelve-digit rendering.
    pub open spec fn render_spec(self) -> Seq<char> {
        pad4(self.year as int) + pad2(self.month as int) + pad2(self.day as int) + pad4(
            self.last_four_digits as int,
        )
    }

    /// Parses an identity number from one of the accepted textual shapes;
    /// anything else is refused as invalid input.
    pub fn parse(s: &str) -> (r: Result<PersonalNumber, Error>)
        ensures
            match r {
                Ok(p) => parse_spec(s@) == Some(p) && p.wf(),
                Err(e) => parse_spec(s@) is None && e is InvalidPersonalNumber,
            },
    {
        let n = s.unicode_len();
        if n != 12 && n != 13 {
            return Err(Error::InvalidPersonalNumber("Personal number does not match expression"));
        }
        let sep = n == 13;
        let mut i: usize = 0;
        while i < n
            invariant
                i <= n,
                n == s@.len(),
                n == 12 || n == 13,
                sep <==> n == 13,
                forall|j: int| 0 <= j < i && !(sep && j == 8) ==> is_digit_char(#[trigger] s@[j]),
                sep && i > 8 ==> (s@[8] == '-' || s@[8] == ' '),
            decreases n - i,
        {
            let c = s.get_char(i);
            if sep && i == 8 {
                if !(c == '-' || c == ' ') {
                    return Err(
                        Error::InvalidPersonalNumber("Personal number does not match expression"),
                    );
                }
            } else {
                let u = c as u32;
                if !(48 <= u && u <= 57) {
                    return Err(
                        Error::InvalidPersonalNumber("Personal number does not match expression"),
                    );
                }
            }
            i += 1;
        }
        let serial_base: usize = if sep {
            9
        } else {
            8
        };
        let year = ((digit_at(s, 0) * 10 + digit_at(s, 1)) * 10 + digit_at(s, 2)) * 10 + digit_at(
            s,
            3,
        );
        let month = digit_at(s, 4) * 10 + digit_at(s, 5);
        let day = digit_at(s, 6) * 10 + digit_at(s, 7);
        let last = ((digit_at(s, serial_base) * 10 + digit_at(s, serial_base + 1)) * 10 + digit_at(
            s,
            serial_base + 2,
        )) * 10 + digit_at(s, serial_base + 3);
        let p = PersonalNumber {
            year,
            month: month as u8,
            day: day as u8,
            last_four_digits: last,
        };
        proof {
            let d = digit_groups(s@);
            if sep {
                assert(d =~= s@.subrange(0, 8) + s@.subrange(9, 13));
                assert forall|k: int| 0 <= k < 8 implies d[k] == s@[k] by {}
                assert forall|k: int| 8 <= k < 12 implies d[k] == s@[k + 1] by {}
            }
            assert(parse_spec(s@) == Some(p));
        }
        Ok(p)
    }

    /// Emits the canonical twelve-digit, zero-padded wire form.
    pub fn render(&self) -> (r: String)
        requires
            self.wf(),
        ensures
            r@ == self.render_spec(),
    {
        let mut out = String::new();
        push_pad4(&mut out, self.year);
        push_pad2(&mut out, self.month as u16);
        push_pad2(&mut out, self.day as u16);
        push_pad4(&mut out, self.last_four_digits);
        proof {
            assert(out@ =~= self.render_spec());
        }
        out
    }
}

/// The numeric value of the digit at a known-digit position.
fn digit_at(s: &str, i: usize) -> (d: u16)
    requires
        i < s@.len(),
        is_digit_char(s@[i as int]),
    ensures
        d == digit_val(s@[i as int]),
        d < 10,
{
    let c = s.get_char(i);
    let u = c as u32;
    (u - 48) as u16
}

/// Rendering a digit's value gives back the digit character.
proof fn lemma_dchar_digit(c: char)
    requires
        is_digit_char(c),
    ensures
        dchar(digit_val(c)) == c,
{
}

/// The four-digit rendering of a four-digit group is the group itself.
proof fn lemma_pad4_group(s: Seq<char>, i: int)
    requires
        0 <= i,
        i + 4 <= s.len(),
        forall|k: int| i <= k < i + 4 ==> is_digit_char(#[trigger] s[k]),
    ensures
        pad4(num4(s, i)) =~= s.subrange(i, i + 4),
{
    let d0 = digit_val(s[i]);
    let d1 = digit_val(s[i + 1]);
    let d2 = digit_val(s[i + 2]);
    let d3 = digit_val(s[i + 3]);
    let n = num4(s, i);
    assert(n == 1000 * d0 + 100 * d1 + 10 * d2 + d3);
    assert((n / 1000) % 10 == d0 && (n / 100) % 10 == d1 && (n / 10) % 10 == d2 && n % 10 == d3)
        by (nonlinear_arith)
        requires
            n == 1000 * d0 + 100 * d1 + 10 * d2 + d3,
            0 <= d0 < 10,
            0 <= d1 < 10,
            0 <= d2 < 10,
            0 <= d3 < 10,
    ;
    lemma_dchar_digit(s[i]);
    lemma_dchar_digit(s[i + 1]);
    lemma_dchar_digit(s[i + 2]);
    lemma_dchar_digit(s[i + 3]);
}

/// The two-digit rendering of a two-digit group is the group itself.
proof fn lemma_pad2_group(s: Seq<char>, i: int)
    requires
        0 <= i,
        i + 2 <= s.len(),
        forall|k: int| i <= k < i + 2 ==> is_digit_char(#[trigger] s[k]),
    ensures
        pad2(num2(s, i)) =~= s.subrange(i, i + 2),
{
    let d0 = digit_val(s[i]);
    let d1 = digit_val(s[i + 1]);
    let n = num2(s, i);
    assert(n == 10 * d0 + d1);
    assert((n / 10) % 10 == d0 && n % 10 == d1) by (nonlinear_arith)
        requires
            n == 10 * d0 + d1,
            0 <= d0 < 10,
            0 <= d1 < 10,
    ;
    lemma_dchar_digit(s[i]);
    lemma_dchar_digit(s[i + 1]);
}

/// Every string in the canonical twelve-digit shape parses, and re-rendering
/// the parsed value gives back the identical string.
pub proof fn lemma_parse_render_round_trip(s: Seq<char>)
    requires
        is_canonical12(s),
    ensures
        parse_spec(s) is Some,
        parse_spec(s).unwrap().render_spec() == s,
{
    let p = parse_spec(s).unwrap();
    assert(digit_groups(s) == s);
    lemma_pad4_group(s, 0);
    lemma_pad2_group(s, 4);
    lemma_pad2_group(s, 6);
    lemma_pad4_group(s, 8);
    assert(p.render_spec() =~= s);
}

/// The separator carries no information: a separated form parses to exactly
/// what its twelve digits parse to.
pub proof fn lemma_separator_insensitive(s: Seq<char>)
    requires
        is_separated13(s),
    ensures
        parse_spec(s) == parse_spec(digit_groups(s)),
        is_canonical12(digit_groups(s)),
{
    let d = digit_groups(s);
    assert forall|k: int| 0 <= k < 12 implies is_digit_char(#[trigger] d[k]) by {
        if k < 8 {
            assert(d[k] == s[k]);
        } else {
            assert(d[k] == s[k + 1]);
        }
    }
    assert(digit_groups(d) == d);
}

/// The canonical rendering of a well-formed value matches the canonical
/// grammar.
pub proof fn lemma_render_canonical(p: PersonalNumber)
    requires
        p.wf(),
    ensures
        is_canonical12(p.render_spec()),
{
    let s = p.render_spec();
    assert forall|i: int| 0 <= i < 12 implies is_digit_char(#[trigger] s[i]) by {
        assert(forall|d: int| is_digit_char(#[trigger] dchar(d)));
    }
}

/// Canonical rendering is lossless: rendering, parsing, and rendering again
/// gives the same canonical string.
pub proof fn lemma_render_round_trip(p: PersonalNumber)
    requires
        p.wf(),
    ensures
        parse_spec(p.render_spec()) is Some,
        parse_spec(p.render_spec()).unwrap().render_spec() == p.render_spec(),
{
    lemma_render_canonical(p);
    lemma_parse_render_round_trip(p.render_spec());
}

/// A string whose length fits none of the accepted shapes is refused; in
/// particular the ten-character two-digit-year form is ambiguous and refused
/// rather than guessed at.
pub proof fn lemma_parse_rejects_length(s: Seq<char>)
    requires
        s.len() != 12 && s.len() != 13,
    ensures
        parse_spec(s) is None,
{
}

/// A non-digit character anywhere outside the one optional separator
/// position is refused.
pub proof fn lemma_parse_rejects_nondigit(s: Seq<char>, i: int)
    requires
        0 <= i < s.len(),
        !is_digit_char(s[i]),
        !(s.len() == 13 && i == 8),
    ensures
        parse_spec(s) is None,
{
}

impl core::str::FromStr for PersonalNumber {
    type Err = Error;

    fn from_str(s: &str) -> Result<PersonalNumber, Error> {
        PersonalNumber::parse(s)
    }
}

} // verus!
