//! Query filters over the normalized schema, as plain values.
//!
//! These mirror the comparison operators the storage layer offers: exact
//! equality, membership, substring match and date bounds. String matching
//! is character-exact.

use vstd::prelude::*;

use crate::date::Date;
use crate::rows::Gender;
use crate::text::str_eq;

verus! {

/// An equality filter: every populated condition must hold.
#[derive(Clone, Debug, PartialEq)]
pub struct EqualFilter<T> {
    pub equal_to: Option<T>,
    pub not_equal_to: Option<T>,
    pub equal_any: Option<Vec<T>>,
    pub not_equal_all: Option<Vec<T>>,
}

/// The value of an [`EqualFilter`].
#[verifier::ext_equal]
pub struct EqualFilterV<U> {
    pub equal_to: Option<U>,
    pub not_equal_to: Option<U>,
    pub equal_any: Option<Seq<U>>,
    pub not_equal_all: Option<Seq<U>>,
}

impl<T: DeepView> DeepView for EqualFilter<T> {
    type V = EqualFilterV<T::V>;

    open spec fn deep_view(&self) -> EqualFilterV<T::V> {
        EqualFilterV {
            equal_to: self.equal_to.deep_view(),
            not_equal_to: self.not_equal_to.deep_view(),
            equal_any: match self.equal_any {
                Some(ref v) => Some(v.deep_view()),
                None => None,
            },
            not_equal_all: match self.not_equal_all {
                Some(ref v) => Some(v.deep_view()),
                None => None,
            },
        }
    }
}

impl<T> EqualFilter<T> {
    /// A filter asking for exact equality alone.
    pub fn equal_to_value(value: T) -> (r: Self)
        ensures
            r.equal_to == Some(value),
            r.not_equal_to is None,
            r.equal_any is None,
            r.not_equal_all is None,
    {
        EqualFilter { equal_to: Some(value), not_equal_to: None, equal_any: None, not_equal_all: None }
    }
}

/// Whether a string satisfies an equality filter.
pub open spec fn str_equal_filter_matches(f: EqualFilterV<Seq<char>>, x: Seq<char>) -> bool {
    &&& (f.equal_to matches Some(v) ==> x == v)
    &&& (f.not_equal_to matches Some(v) ==> x != v)
    &&& (f.equal_any matches Some(l) ==> l.contains(x))
    &&& (f.not_equal_all matches Some(l) ==> !l.contains(x))
}

/// Whether a gender satisfies an equality filter.
pub open spec fn gender_equal_filter_matches(f: EqualFilterV<Gender>, x: Gender) -> bool {
    &&& (f.equal_to matches Some(v) ==> x == v)
    &&& (f.not_equal_to matches Some(v) ==> x != v)
    &&& (f.equal_any matches Some(l) ==> l.contains(x))
    &&& (f.not_equal_all matches Some(l) ==> !l.contains(x))
}

/// Whether a list of strings holds one.
fn vec_contains_str(v: &Vec<String>, x: &str) -> (r: bool)
    ensures
        r == v.deep_view().contains(x@),
{
    let n = v.len();
    let mut i: usize = 0;
    while i < n
        invariant
            i <= n,
            n == v@.len(),
            forall|j: int| 0 <= j < i ==> v.deep_view()[j] != x@,
        decreases n - i,
    {
        if str_eq(v[i].as_str(), x) {
            assert(v.deep_view()[i as int] == x@);
            return true;
        }
        i += 1;
    }
    false
}

/// Evaluate a string equality filter.
pub fn str_equal_filter_eval(f: &EqualFilter<String>, x: &str) -> (r: bool)
    ensures
        r == str_equal_filter_matches(f.deep_view(), x@),
{
    let mut ok = true;
    if let Some(v) = &f.equal_to {
        if !str_eq(v.as_str(), x) {
            ok = false;
        }
    }
    if let Some(v) = &f.not_equal_to {
        if str_eq(v.as_str(), x) {
            ok = false;
        }
    }
    if let Some(l) = &f.equal_any {
        if !vec_contains_str(l, x) {
            ok = false;
        }
    }
    if let Some(l) = &f.not_equal_all {
        if vec_contains_str(l, x) {
            ok = false;
        }
    }
    ok
}

/// Whether a list of genders holds one.
fn vec_contains_gender(v: &Vec<Gender>, x: Gender) -> (r: bool)
    ensures
        r == v.deep_view().contains(x),
{
    let n = v.len();
    let mut i: usize = 0;
    while i < n
        invariant
            i <= n,
            n == v@.len(),
            forall|j: int| 0 <= j < i ==> v.deep_view()[j] != x,
        decreases n - i,
    {
        if v[i] == x {
            assert(v.deep_view()[i as int] == x);
            return true;
        }
        i += 1;
    }
    false
}

/// Evaluate a gender equality filter.
pub fn gender_equal_filter_eval(f: &EqualFilter<Gender>, x: Gender) -> (r: bool)
    ensures
        r == gender_equal_filter_matches(f.deep_view(), x),
{
    let mut ok = true;
    if let Some(v) = &f.equal_to {
        if !(*v == x) {
            ok = false;
        }
    }
    if let Some(v) = &f.not_equal_to {
        if *v == x {
            ok = false;
        }
    }
    if let Some(l) = &f.equal_any {
        if !vec_contains_gender(l, x) {
            ok = false;
        }
    }
    if let Some(l) = &f.not_equal_all {
        if vec_contains_gender(l, x) {
            ok = false;
        }
    }
    ok
}

/// The needle occurs in the haystack starting at `i`.
pub open spec fn match_at(hay: Seq<char>, needle: Seq<char>, i: int) -> bool {
    &&& 0 <= i
    &&& i + needle.len() <= hay.len()
    &&& forall|j: int| 0 <= j < needle.len() ==> hay[i + j] == needle[j]
}

/// The needle occurs somewhere in the haystack.
pub open spec fn is_substring(hay: Seq<char>, needle: Seq<char>) -> bool {
    exists|i: int| match_at(hay, needle, i)
}

/// Substring search, character for character.
pub fn str_contains_sub(hay: &str, needle: &str) -> (r: bool)
    ensures
        r == is_substring(hay@, needle@),
{
    let hay_len = hay.unicode_len();
    let needle_len = needle.unicode_len();
    if needle_len > hay_len {
        return false;
    }
    if needle_len == 0 {
        assert(match_at(hay@, needle@, 0));
        return true;
    }
    let last_start = hay_len - needle_len;
    let mut i: usize = 0;
    while i <= last_start
        invariant
            needle_len == needle@.len(),
            hay_len == hay@.len(),
            0 < needle_len <= hay_len,
            last_start == hay_len - needle_len,
            i <= last_start + 1,
            forall|k: int| 0 <= k < i ==> !match_at(hay@, needle@, k),
        decreases last_start - i + 1,
    {
        let mut j: usize = 0;
        let mut hit = true;
        while j < needle_len && hit
            invariant
                needle_len == needle@.len(),
                hay_len == hay@.len(),
                i + needle_len <= hay_len,
                j <= needle_len,
                hit ==> forall|q: int| 0 <= q < j ==> hay@[i + q] == needle@[q],
                !hit ==> !match_at(hay@, needle@, i as int),
            decreases needle_len - j + (if hit { 1int } else { 0int }),
        {
            if hay.get_char(i + j) != needle.get_char(j) {
                hit = false;
                let ghost q = j as int;
                assert(hay@[i + q] != needle@[q]);
                assert(!match_at(hay@, needle@, i as int));
            } else {
                j += 1;
            }
        }
        if hit {
            assert(match_at(hay@, needle@, i as int));
            return true;
        }
        i += 1;
    }
    proof {
        if is_substring(hay@, needle@) {
            let w = choose|w: int| match_at(hay@, needle@, w);
            assert(w <= last_start);
            assert(!match_at(hay@, needle@, w));
        }
    }
    false
}

/// A case-exact string filter: equality and substring containment.
#[derive(Clone, Debug, PartialEq)]
pub struct SimpleStringFilter {
    pub equal_to: Option<String>,
    pub like: Option<String>,
}

/// The value of a [`SimpleStringFilter`].
#[verifier::ext_equal]
pub struct SimpleStringFilterV {
    pub equal_to: Option<Seq<char>>,
    pub like: Option<Seq<char>>,
}

impl DeepView for SimpleStringFilter {
    type V = SimpleStringFilterV;

    open spec fn deep_view(&self) -> SimpleStringFilterV {
        SimpleStringFilterV {
            equal_to: self.equal_to.deep_view(),
            like: self.like.deep_view(),
        }
    }
}

impl SimpleStringFilter {
    /// A filter asking for exact equality alone.
    pub fn equal_to(value: &str) -> (r: Self)
        ensures
            r.deep_view() == (SimpleStringFilterV { equal_to: Some(value@), like: None }),
    {
        SimpleStringFilter { equal_to: Some(value.to_owned()), like: None }
    }

    /// A filter asking for substring containment alone.
    pub fn like(value: &str) -> (r: Self)
        ensures
            r.deep_view() == (SimpleStringFilterV { equal_to: None, like: Some(value@) }),
    {
        SimpleStringFilter { equal_to: None, like: Some(value.to_owned()) }
    }
}

/// Whether a string satisfies a simple string filter.
pub open spec fn simple_string_filter_matches(f: SimpleStringFilterV, x: Seq<char>) -> bool {
    &&& (f.equal_to matches Some(v) ==> x == v)
    &&& (f.like matches Some(v) ==> is_substring(x, v))
}

/// Evaluate a simple string filter.
pub fn simple_string_filter_eval(f: &SimpleStringFilter, x: &str) -> (r: bool)
    ensures
        r == simple_string_filter_matches(f.deep_view(), x@),
{
    let mut ok = true;
    if let Some(v) = &f.equal_to {
        if !str_eq(v.as_str(), x) {
            ok = false;
        }
    }
    if let Some(v) = &f.like {
        if !str_contains_sub(x, v.as_str()) {
            ok = false;
        }
    }
    ok
}

/// Day-precision order on dates: year first, then month, then day.
pub open spec fn date_le(a: Date, b: Date) -> bool {
    if a.year != b.year {
        a.year < b.year
    } else if a.month != b.month {
        a.month < b.month
    } else {
        a.day <= b.day
    }
}

/// Compare two dates.
pub fn date_le_eval(a: &Date, b: &Date) -> (r: bool)
    ensures
        r == date_le(*a, *b),
{
    if a.year != b.year {
        a.year < b.year
    } else if a.month != b.month {
        a.month < b.month
    } else {
        a.day <= b.day
    }
}

/// A date filter: every populated bound must hold.
#[derive(Clone, Copy, Debug, PartialEq)]
pub struct DateFilter {
    pub equal_to: Option<Date>,
    pub before_or_equal_to: Option<Date>,
    pub after_or_equal_to: Option<Date>,
}

impl DateFilter {
    /// A filter asking for exact equality alone.
    pub fn equal_to(value: Date) -> (r: Self)
        ensures
            r == (DateFilter {
                equal_to: Some(value),
                before_or_equal_to: None,
                after_or_equal_to: None,
            }),
    {
        DateFilter { equal_to: Some(value), before_or_equal_to: None, after_or_equal_to: None }
    }
}

/// Whether a date satisfies a date filter.
pub open spec fn date_filter_matches(f: DateFilter, x: Date) -> bool {
    &&& (f.equal_to matches Some(v) ==> x == v)
    &&& (f.before_or_equal_to matches Some(v) ==> date_le(x, v))
    &&& (f.after_or_equal_to matches Some(v) ==> date_le(v, x))
}

/// Evaluate a date filter.
pub fn date_filter_eval(f: &DateFilter, x: Date) -> (r: bool)
    ensures
        r == date_filter_matches(*f, x),
{
    let mut ok = true;
    if let Some(v) = &f.equal_to {
        if !(x == *v) {
            ok = false;
        }
    }
    if let Some(v) = &f.before_or_equal_to {
        if !date_le_eval(&x, v) {
            ok = false;
        }
    }
    if let Some(v) = &f.after_or_equal_to {
        if !date_le_eval(v, &x) {
            ok = false;
        }
    }
    ok
}

} // verus!
