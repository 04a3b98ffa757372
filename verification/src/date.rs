//! Calendar dates carried in the legacy wire format as `"YYYY-MM-DD"` strings.
//!
//! The legacy schema stores an absent date as the sentinel string
//! `"0000-00-00"`; callers map that sentinel to `None` before parsing.

use vstd::prelude::*;

verus! {

/// A calendar date as plain values, the library's own stand-in for the
/// date type of the surrounding system.
#[derive(Clone, Copy, Debug, PartialEq, Eq, Structural, Hash)]
pub struct Date {
    pub year: u32,
    pub month: u32,
    pub day: u32,
}

impl DeepView for Date {
    type V = Date;

    open spec fn deep_view(&self) -> Date {
        *self
    }
}

impl Date {
    /// Field bounds every date handled by the library satisfies. Month and
    /// day bounds are the structural ones of the wire format; days are not
    /// checked against month lengths.
    pub open spec fn is_valid(self) -> bool {
        &&& 1 <= self.year <= 9999
        &&& 1 <= self.month <= 12
        &&& 1 <= self.day <= 31
    }

    /// Construct a date after checking the field bounds.
    pub fn new(year: u32, month: u32, day: u32) -> (r: Option<Date>)
        ensures
            r == if (Date { year, month, day }).is_valid() {
                Some(Date { year, month, day })
            } else {
                None::<Date>
            },
    {
        let d = Date { year, month, day };
        if 1 <= year && year <= 9999 && 1 <= month && month <= 12 && 1 <= day && day <= 31 {
            Some(d)
        } else {
            None
        }
    }
}

/// The character for one decimal digit.
pub open spec fn digit_char(x: int) -> char {
    if x == 0 {
        '0'
    } else if x == 1 {
        '1'
    } else if x == 2 {
        '2'
    } else if x == 3 {
        '3'
    } else if x == 4 {
        '4'
    } else if x == 5 {
        '5'
    } else if x == 6 {
        '6'
    } else if x == 7 {
        '7'
    } else if x == 8 {
        '8'
    } else {
        '9'
    }
}

/// The decimal digit a character stands for, if any.
pub open spec fn char_digit(c: char) -> Option<int> {
    if c == '0' {
        Some(0int)
    } else if c == '1' {
        Some(1int)
    } else if c == '2' {
        Some(2int)
    } else if c == '3' {
        Some(3int)
    } else if c == '4' {
        Some(4int)
    } else if c == '5' {
        Some(5int)
    } else if c == '6' {
        Some(6int)
    } else if c == '7' {
        Some(7int)
    } else if c == '8' {
        Some(8int)
    } else if c == '9' {
        Some(9int)
    } else {
        None
    }
}

/// Whether a character sequence is all decimal digits.
pub open spec fn all_digits(s: Seq<char>) -> bool {
    forall|i: int| 0 <= i < s.len() ==> char_digit(#[trigger] s[i]).is_some()
}

/// The number a digit sequence denotes, most significant digit first.
pub open spec fn digits_value(s: Seq<char>) -> int
    decreases s.len(),
{
    if s.len() == 0 {
        0
    } else {
        digits_value(s.drop_last()) * 10 + char_digit(s.last()).unwrap_or(0)
    }
}

/// The ten characters `"YYYY-MM-DD"` a date is written as on the wire.
pub open spec fn date_chars(d: Date) -> Seq<char> {
    seq![
        digit_char(d.year as int / 1000 % 10),
        digit_char(d.year as int / 100 % 10),
        digit_char(d.year as int / 10 % 10),
        digit_char(d.year as int % 10),
        '-',
        digit_char(d.month as int / 10 % 10),
        digit_char(d.month as int % 10),
        '-',
        digit_char(d.day as int / 10 % 10),
        digit_char(d.day as int % 10),
    ]
}

/// What parsing a `"YYYY-MM-DD"` string yields: `Some` exactly on well-formed
/// strings whose fields lie in the valid ranges.
pub open spec fn parse_date_spec(s: Seq<char>) -> Option<Date> {
    if s.len() == 10 && s[4] == '-' && s[7] == '-' && all_digits(s.subrange(0, 4))
        && all_digits(s.subrange(5, 7)) && all_digits(s.subrange(8, 10)) {
        let d = Date {
            year: digits_value(s.subrange(0, 4)) as u32,
            month: digits_value(s.subrange(5, 7)) as u32,
            day: digits_value(s.subrange(8, 10)) as u32,
        };
        if d.is_valid() {
            Some(d)
        } else {
            None
        }
    } else {
        None
    }
}

/// The decimal digit a character stands for, if any.
fn char_digit_exec(c: char) -> (r: Option<u32>)
    ensures
        r == match char_digit(c) {
            Some(x) => Some(x as u32),
            None => None::<u32>,
        },
{
    match c {
        '0' => Some(0),
        '1' => Some(1),
        '2' => Some(2),
        '3' => Some(3),
        '4' => Some(4),
        '5' => Some(5),
        '6' => Some(6),
        '7' => Some(7),
        '8' => Some(8),
        '9' => Some(9),
        _ => None,
    }
}

/// Parse a `"YYYY-MM-DD"` string into a date.
pub fn parse_date(s: &str) -> (r: Option<Date>)
    ensures
        r == parse_date_spec(s@),
        r matches Some(d) ==> d.is_valid(),
{
    if s.unicode_len() != 10 {
        return None;
    }
    if s.get_char(4) != '-' || s.get_char(7) != '-' {
        return None;
    }
    let d0 = char_digit_exec(s.get_char(0));
    let d1 = char_digit_exec(s.get_char(1));
    let d2 = char_digit_exec(s.get_char(2));
    let d3 = char_digit_exec(s.get_char(3));
    let m0 = char_digit_exec(s.get_char(5));
    let m1 = char_digit_exec(s.get_char(6));
    let y0 = char_digit_exec(s.get_char(8));
    let y1 = char_digit_exec(s.get_char(9));
    match (d0, d1, d2, d3, m0, m1, y0, y1) {
        (
            Some(d0),
            Some(d1),
            Some(d2),
            Some(d3),
            Some(m0),
            Some(m1),
            Some(y0),
            Some(y1),
        ) => {
            proof {
                let sv = s@;
                let ys = sv.subrange(0, 4);
                let ms = sv.subrange(5, 7);
                let ds = sv.subrange(8, 10);
                assert(ys[0] == sv[0] && ys[1] == sv[1] && ys[2] == sv[2] && ys[3] == sv[3]);
                assert(ms[0] == sv[5] && ms[1] == sv[6]);
                assert(ds[0] == sv[8] && ds[1] == sv[9]);
                assert(all_digits(ys));
                assert(all_digits(ms));
                assert(all_digits(ds));
                lemma_digits_value_4(ys);
                lemma_digits_value_2(ms);
                lemma_digits_value_2(ds);
            }
            let year = ((d0 * 10 + d1) * 10 + d2) * 10 + d3;
            let month = m0 * 10 + m1;
            let day = y0 * 10 + y1;
            Date::new(year, month, day)
        },
        _ => {
            proof {
                let sv = s@;
                let ys = sv.subrange(0, 4);
                let ms = sv.subrange(5, 7);
                let ds = sv.subrange(8, 10);
                assert(ys[0] == sv[0] && ys[1] == sv[1] && ys[2] == sv[2] && ys[3] == sv[3]);
                assert(ms[0] == sv[5] && ms[1] == sv[6]);
                assert(ds[0] == sv[8] && ds[1] == sv[9]);
            }
            None
        },
    }
}

/// Unfolds the value of a four-digit sequence.
proof fn lemma_digits_value_4(s: Seq<char>)
    requires
        s.len() == 4,
    ensures
        digits_value(s) == ((char_digit(s[0]).unwrap_or(0) * 10 + char_digit(s[1]).unwrap_or(0))
            * 10 + char_digit(s[2]).unwrap_or(0)) * 10 + char_digit(s[3]).unwrap_or(0),
{
    let s3 = s.drop_last();
    let s2 = s3.drop_last();
    let s1 = s2.drop_last();
    let s0 = s1.drop_last();
    assert(s0 =~= Seq::<char>::empty());
    assert(digits_value(s0) == 0);
    assert(s1.last() == s[0] && s2.last() == s[1] && s3.last() == s[2] && s.last() == s[3]);
    assert(digits_value(s1) == char_digit(s[0]).unwrap_or(0));
    assert(digits_value(s2) == digits_value(s1) * 10 + char_digit(s[1]).unwrap_or(0));
    assert(digits_value(s3) == digits_value(s2) * 10 + char_digit(s[2]).unwrap_or(0));
    assert(digits_value(s) == digits_value(s3) * 10 + char_digit(s[3]).unwrap_or(0));
}

/// Unfolds the value of a two-digit sequence.
proof fn lemma_digits_value_2(s: Seq<char>)
    requires
        s.len() == 2,
    ensures
        digits_value(s) == char_digit(s[0]).unwrap_or(0) * 10 + char_digit(s[1]).unwrap_or(0),
{
    let s1 = s.drop_last();
    let s0 = s1.drop_last();
    assert(s0 =~= Seq::<char>::empty());
    assert(digits_value(s0) == 0);
    assert(s1.last() == s[0] && s.last() == s[1]);
    assert(digits_value(s1) == char_digit(s[0]).unwrap_or(0));
    assert(digits_value(s) == digits_value(s1) * 10 + char_digit(s[1]).unwrap_or(0));
}

/// The string a digit 0 through 9 is written as.
fn digit_str(x: u32) -> (r: &'static str)
    requires
        x < 10,
    ensures
        r@ =~= seq![digit_char(x as int)],
{
    proof {
        reveal_strlit("0");
        reveal_strlit("1");
        reveal_strlit("2");
        reveal_strlit("3");
        reveal_strlit("4");
        reveal_strlit("5");
        reveal_strlit("6");
        reveal_strlit("7");
        reveal_strlit("8");
        reveal_strlit("9");
    }
    match x {
        0 => "0",
        1 => "1",
        2 => "2",
        3 => "3",
        4 => "4",
        5 => "5",
        6 => "6",
        7 => "7",
        8 => "8",
        _ => "9",
    }
}

/// Write a date in its `"YYYY-MM-DD"` wire form.
pub fn format_date(d: &Date) -> (r: String)
    requires
        d.is_valid(),
    ensures
        r@ == date_chars(*d),
{
    let mut s = String::new();
    s.append(digit_str(d.year / 1000 % 10));
    s.append(digit_str(d.year / 100 % 10));
    s.append(digit_str(d.year / 10 % 10));
    s.append(digit_str(d.year % 10));
    s.append("-");
    s.append(digit_str(d.month / 10 % 10));
    s.append(digit_str(d.month % 10));
    s.append("-");
    s.append(digit_str(d.day / 10 % 10));
    s.append(digit_str(d.day % 10));
    proof {
        reveal_strlit("-");
        assert(s@ =~= date_chars(*d));
    }
    s
}

/// The all-zero sentinel is not a parsable date.
pub proof fn lemma_sentinel_not_a_date()
    ensures
        parse_date_spec("0000-00-00"@) is None,
{
    reveal_strlit("0000-00-00");
    let s = "0000-00-00"@;
    if s.len() == 10 && s[4] == '-' && s[7] == '-' && all_digits(s.subrange(0, 4)) && all_digits(
        s.subrange(5, 7),
    ) && all_digits(s.subrange(8, 10)) {
        lemma_digits_value_2(s.subrange(5, 7));
        assert(s.subrange(5, 7)[0] == s[5] && s.subrange(5, 7)[1] == s[6]);
        assert(digits_value(s.subrange(5, 7)) == 0);
    }
}

/// A valid date is never written as the all-zero sentinel.
pub proof fn lemma_date_chars_not_sentinel(d: Date)
    requires
        d.is_valid(),
    ensures
        date_chars(d) != "0000-00-00"@,
{
    if date_chars(d) == "0000-00-00"@ {
        lemma_date_round_trip(d);
        lemma_sentinel_not_a_date();
    }
}

/// Writing a valid date and parsing the result yields the date again.
pub proof fn lemma_date_round_trip(d: Date)
    requires
        d.is_valid(),
    ensures
        parse_date_spec(date_chars(d)) == Some(d),
{
    let s = date_chars(d);
    let ys = s.subrange(0, 4);
    let ms = s.subrange(5, 7);
    let ds = s.subrange(8, 10);
    assert(ys[0] == s[0] && ys[1] == s[1] && ys[2] == s[2] && ys[3] == s[3]);
    assert(ms[0] == s[5] && ms[1] == s[6]);
    assert(ds[0] == s[8] && ds[1] == s[9]);
    assert forall|x: int| 0 <= x < 10 implies char_digit(digit_char(x)) == Some(x) by {}
    lemma_digits_value_4(ys);
    lemma_digits_value_2(ms);
    lemma_digits_value_2(ds);
    let y = d.year as int;
    assert(((y / 1000 % 10 * 10 + y / 100 % 10) * 10 + y / 10 % 10) * 10 + y % 10 == y) by {
        assert(y / 1000 % 10 == y / 1000) by {
            assert(y / 1000 <= 9);
        }
        assert(y == y / 1000 * 1000 + y / 100 % 10 * 100 + y / 10 % 10 * 10 + y % 10) by {
            assert(y / 10 * 10 + y % 10 == y);
            assert(y / 100 * 10 + y / 10 % 10 == y / 10) by {
                assert(y / 10 / 10 == y / 100) by {
                    vstd::arithmetic::div_mod::lemma_div_denominator(y, 10, 10);
                }
            }
            assert(y / 1000 * 10 + y / 100 % 10 == y / 100) by {
                assert(y / 100 / 10 == y / 1000) by {
                    vstd::arithmetic::div_mod::lemma_div_denominator(y, 100, 10);
                }
            }
        }
    }
    let m = d.month as int;
    assert(m / 10 % 10 * 10 + m % 10 == m) by {
        assert(m / 10 % 10 == m / 10) by {
            assert(m / 10 <= 1);
        }
    }
    let dy = d.day as int;
    assert(dy / 10 % 10 * 10 + dy % 10 == dy) by {
        assert(dy / 10 % 10 == dy / 10) by {
            assert(dy / 10 <= 3);
        }
    }
}

} // verus!
