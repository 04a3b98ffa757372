//! The legacy wire format: flat records whose fields are scalar values.
//!
//! A record on the wire is a flat object — an ordered list of named scalar
//! fields. Numbers are carried in hundredths of a unit, so that prices, taxes
//! and quantities are all plain integers; a whole number `n` appears as
//! `Scalar::Num(100 * n)`.

use vstd::prelude::*;

use crate::date::parse_date_spec;
use crate::date::Date;
use crate::text::str_eq;
use crate::text::str_is_empty;

verus! {

/// Largest whole number accepted for legacy integer fields such as
/// quantities and pack sizes.
pub const LEGACY_INT_MAX: i64 = 1000000000;

/// One scalar field value of a legacy record. `Num` holds hundredths of a
/// unit: the wire value `12.5` is `Num(1250)`.
#[derive(Debug, PartialEq)]
pub enum Scalar {
    Null,
    Bool(bool),
    Num(i64),
    Str(String),
}

/// The mathematical value of a [`Scalar`].
#[verifier::ext_equal]
pub enum ScalarV {
    Null,
    Bool(bool),
    Num(i64),
    Str(Seq<char>),
}

impl DeepView for Scalar {
    type V = ScalarV;

    open spec fn deep_view(&self) -> ScalarV {
        match self {
            Scalar::Null => ScalarV::Null,
            Scalar::Bool(b) => ScalarV::Bool(*b),
            Scalar::Num(n) => ScalarV::Num(*n),
            Scalar::Str(s) => ScalarV::Str(s@),
        }
    }
}

impl Clone for Scalar {
    /// Field-for-field copy.
    fn clone(&self) -> (r: Self)
        ensures
            r == *self,
    {
        match self {
            Scalar::Null => Scalar::Null,
            Scalar::Bool(b) => Scalar::Bool(*b),
            Scalar::Num(n) => Scalar::Num(*n),
            Scalar::Str(s) => Scalar::Str(s.clone()),
        }
    }
}

impl Scalar {
    /// The scalar a whole number is carried as: its value in hundredths.
    pub fn from_int(n: i64) -> (r: Scalar)
        requires
            -92233720368547758 <= n <= 92233720368547758,
        ensures
            r.deep_view() == ScalarV::Num((100 * n) as i64),
    {
        Scalar::Num(100 * n)
    }

    /// The scalar a string value is carried as.
    pub fn from_str_value(s: &str) -> (r: Scalar)
        ensures
            r.deep_view() == ScalarV::Str(s@),
    {
        Scalar::Str(s.to_owned())
    }
}

/// The mathematical value of a flat legacy record: its fields in order.
pub type ObjectV = Seq<(Seq<char>, ScalarV)>;

/// The value of the first field named `key`, scanning front to back.
pub open spec fn lookup(fields: ObjectV, key: Seq<char>) -> Option<ScalarV>
    decreases fields.len(),
{
    if fields.len() == 0 {
        None
    } else if fields[0].0 == key {
        Some(fields[0].1)
    } else {
        lookup(fields.drop_first(), key)
    }
}

/// Appending a field leaves every present field as it was and fills in the
/// new one where the key was absent.
pub broadcast proof fn lemma_lookup_push(fields: ObjectV, f: (Seq<char>, ScalarV), key: Seq<char>)
    ensures
        #[trigger] lookup(fields.push(f), key) == if lookup(fields, key) is Some {
            lookup(fields, key)
        } else if f.0 == key {
            Some(f.1)
        } else {
            None::<ScalarV>
        },
    decreases fields.len(),
{
    if fields.len() == 0 {
        assert(fields.push(f)[0] == f);
        assert(fields.push(f).drop_first() =~= Seq::<(Seq<char>, ScalarV)>::empty());
    } else {
        assert(fields.push(f)[0] == fields[0]);
        assert(fields.push(f).drop_first() =~= fields.drop_first().push(f));
        lemma_lookup_push(fields.drop_first(), f, key);
    }
}

/// Looking a key up finds its first occurrence.
pub proof fn lemma_lookup_at(fields: ObjectV, key: Seq<char>, i: int)
    requires
        0 <= i < fields.len(),
        fields[i].0 == key,
        forall|j: int| 0 <= j < i ==> (#[trigger] fields[j]).0 != key,
    ensures
        lookup(fields, key) == Some(fields[i].1),
    decreases fields.len(),
{
    if fields[0].0 != key {
        assert(fields.drop_first()[i - 1] == fields[i]);
        assert(forall|j: int|
            0 <= j < i - 1 ==> (#[trigger] fields.drop_first()[j]) == fields[j + 1]);
        lemma_lookup_at(fields.drop_first(), key, i - 1);
    }
}

/// A flat legacy record: an ordered list of named scalar fields.
#[derive(Clone, Debug, PartialEq)]
pub struct LegacyObject {
    fields: Vec<(String, Scalar)>,
}

impl DeepView for LegacyObject {
    type V = ObjectV;

    closed spec fn deep_view(&self) -> ObjectV {
        self.fields.deep_view()
    }
}

impl LegacyObject {
    /// An object with no fields yet.
    pub fn new() -> (r: LegacyObject)
        ensures
            r.deep_view() == Seq::<(Seq<char>, ScalarV)>::empty(),
    {
        let r = LegacyObject { fields: Vec::new() };
        proof {
            assert(r.deep_view() =~= Seq::<(Seq<char>, ScalarV)>::empty());
        }
        r
    }

    /// The value of the first field named `key`, if any.
    pub open spec fn spec_get(&self, key: Seq<char>) -> Option<ScalarV> {
        lookup(self.deep_view(), key)
    }

    /// Append a field at the end of the record.
    pub fn push_field(&mut self, key: &str, value: Scalar)
        ensures
            final(self).deep_view() == old(self).deep_view().push((key@, value.deep_view())),
    {
        let ghost v_dv = value.deep_view();
        self.fields.push((key.to_owned(), value));
        proof {
            assert(self.deep_view() =~= old(self).deep_view().push((key@, v_dv)));
        }
    }

    /// All fields of the record, in order.
    pub fn entries(&self) -> (r: Vec<(String, Scalar)>)
        ensures
            r.deep_view() == self.deep_view(),
    {
        let n = self.fields.len();
        let mut out: Vec<(String, Scalar)> = Vec::new();
        let mut i: usize = 0;
        proof {
            assert(out.deep_view() =~= self.deep_view().take(0));
        }
        while i < n
            invariant
                i <= n,
                n == self.fields@.len(),
                out.deep_view() == self.deep_view().take(i as int),
            decreases n - i,
        {
            let ghost prev = out.deep_view();
            let pair = (self.fields[i].0.clone(), self.fields[i].1.clone());
            out.push(pair);
            proof {
                assert(out.deep_view() =~= prev.push(self.deep_view()[i as int]));
                assert(prev.push(self.deep_view()[i as int]) =~= self.deep_view().take(
                    i as int + 1,
                ));
            }
            i += 1;
        }
        proof {
            assert(self.deep_view().take(n as int) =~= self.deep_view());
        }
        out
    }

    /// Look a field up by name.
    pub fn get(&self, key: &str) -> (r: Option<&Scalar>)
        ensures
            match r {
                Some(v) => self.spec_get(key@) == Some(v.deep_view()),
                None => self.spec_get(key@) is None,
            },
    {
        let ghost dv = self.deep_view();
        let n = self.fields.len();
        let mut i: usize = 0;
        proof {
            assert(dv.skip(0) =~= dv);
        }
        while i < n
            invariant
                i <= n,
                n == self.fields.len(),
                dv == self.deep_view(),
                lookup(dv.skip(i as int), key@) == lookup(dv, key@),
            decreases n - i,
        {
            proof {
                assert(dv.skip(i as int)[0] == dv[i as int]);
                assert(dv.skip(i as int).drop_first() =~= dv.skip(i as int + 1));
            }
            if str_eq(self.fields[i].0.as_str(), key) {
                return Some(&self.fields[i].1);
            }
            i += 1;
        }
        proof {
            assert(dv.skip(n as int) =~= Seq::<(Seq<char>, ScalarV)>::empty());
        }
        None
    }
}

/// A required string field: present and a string.
pub open spec fn str_field(o: ObjectV, key: Seq<char>) -> Option<Seq<char>> {
    match lookup(o, key) {
        Some(ScalarV::Str(s)) => Some(s),
        _ => None,
    }
}

/// An optional string field: absent, null or empty means "no value"; any
/// non-string scalar is a shape error (`None`).
pub open spec fn opt_str_field(o: ObjectV, key: Seq<char>) -> Option<Option<Seq<char>>> {
    match lookup(o, key) {
        None => Some(None),
        Some(ScalarV::Null) => Some(None),
        Some(ScalarV::Str(s)) => if s.len() == 0 {
            Some(None)
        } else {
            Some(Some(s))
        },
        Some(_) => None,
    }
}

/// A required whole-number field: a number that is a whole non-negative
/// count no larger than [`LEGACY_INT_MAX`].
pub open spec fn int_field(o: ObjectV, key: Seq<char>) -> Option<i64> {
    match lookup(o, key) {
        Some(ScalarV::Num(n)) => if 0 <= n && n % 100 == 0 && n / 100 <= LEGACY_INT_MAX as int {
            Some((n / 100) as i64)
        } else {
            None
        },
        _ => None,
    }
}

/// A required number field, kept in hundredths.
pub open spec fn money_field(o: ObjectV, key: Seq<char>) -> Option<i64> {
    match lookup(o, key) {
        Some(ScalarV::Num(n)) => Some(n),
        _ => None,
    }
}

/// An optional number field, kept in hundredths: absent or null means "no
/// value".
pub open spec fn opt_money_field(o: ObjectV, key: Seq<char>) -> Option<Option<i64>> {
    match lookup(o, key) {
        None => Some(None),
        Some(ScalarV::Null) => Some(None),
        Some(ScalarV::Num(n)) => Some(Some(n)),
        Some(_) => None,
    }
}

/// An optional boolean field: absent or null means "no value".
pub open spec fn opt_bool_field(o: ObjectV, key: Seq<char>) -> Option<Option<bool>> {
    match lookup(o, key) {
        None => Some(None),
        Some(ScalarV::Null) => Some(None),
        Some(ScalarV::Bool(b)) => Some(Some(b)),
        Some(_) => None,
    }
}

/// An optional date field carried as `"YYYY-MM-DD"`: absent, null, empty or
/// the all-zero sentinel means "no value"; an unparsable string is a shape
/// error.
pub open spec fn opt_date_field(o: ObjectV, key: Seq<char>) -> Option<Option<Date>> {
    match lookup(o, key) {
        None => Some(None),
        Some(ScalarV::Null) => Some(None),
        Some(ScalarV::Str(s)) => if s.len() == 0 || s == "0000-00-00"@ {
            Some(None)
        } else {
            match parse_date_spec(s) {
                Some(d) => Some(Some(d)),
                None => None,
            }
        },
        Some(_) => None,
    }
}

impl LegacyObject {
    /// Read a required string field.
    pub fn read_str(&self, key: &str) -> (r: Option<String>)
        ensures
            r.deep_view() == str_field(self.deep_view(), key@),
    {
        match self.get(key) {
            Some(Scalar::Str(s)) => Some(s.clone()),
            _ => None,
        }
    }

    /// Read an optional string field.
    pub fn read_opt_str(&self, key: &str) -> (r: Option<Option<String>>)
        ensures
            r.deep_view() == opt_str_field(self.deep_view(), key@),
    {
        match self.get(key) {
            None => Some(None),
            Some(Scalar::Null) => Some(None),
            Some(Scalar::Str(s)) => if str_is_empty(s.as_str()) {
                Some(None)
            } else {
                Some(Some(s.clone()))
            },
            Some(_) => None,
        }
    }

    /// Read a required whole-number field.
    pub fn read_int(&self, key: &str) -> (r: Option<i64>)
        ensures
            r == int_field(self.deep_view(), key@),
    {
        match self.get(key) {
            Some(Scalar::Num(n)) => {
                let n = *n;
                if 0 <= n && n % 100 == 0 && n / 100 <= LEGACY_INT_MAX {
                    Some(n / 100)
                } else {
                    None
                }
            },
            _ => None,
        }
    }

    /// Read a required number field, in hundredths.
    pub fn read_money(&self, key: &str) -> (r: Option<i64>)
        ensures
            r == money_field(self.deep_view(), key@),
    {
        match self.get(key) {
            Some(Scalar::Num(n)) => Some(*n),
            _ => None,
        }
    }

    /// Read an optional number field, in hundredths.
    pub fn read_opt_money(&self, key: &str) -> (r: Option<Option<i64>>)
        ensures
            r.deep_view() == opt_money_field(self.deep_view(), key@),
    {
        match self.get(key) {
            None => Some(None),
            Some(Scalar::Null) => Some(None),
            Some(Scalar::Num(n)) => Some(Some(*n)),
            Some(_) => None,
        }
    }

    /// Read an optional boolean field.
    pub fn read_opt_bool(&self, key: &str) -> (r: Option<Option<bool>>)
        ensures
            r.deep_view() == opt_bool_field(self.deep_view(), key@),
    {
        match self.get(key) {
            None => Some(None),
            Some(Scalar::Null) => Some(None),
            Some(Scalar::Bool(b)) => Some(Some(*b)),
            Some(_) => None,
        }
    }

    /// Read an optional date field.
    pub fn read_opt_date(&self, key: &str) -> (r: Option<Option<Date>>)
        ensures
            r.deep_view() == opt_date_field(self.deep_view(), key@),
    {
        match self.get(key) {
            None => Some(None),
            Some(Scalar::Null) => Some(None),
            Some(Scalar::Str(s)) => {
                if str_is_empty(s.as_str()) || str_eq(s.as_str(), "0000-00-00") {
                    Some(None)
                } else {
                    match crate::date::parse_date(s.as_str()) {
                        Some(d) => Some(Some(d)),
                        None => None,
                    }
                }
            },
            Some(_) => None,
        }
    }
}

} // verus!
