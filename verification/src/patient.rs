//! Patient queries over the normalized name table.
//!
//! A patient is a name row of the patient type. Queries run against the
//! in-memory name table in table order; ordering beyond that is left to
//! the storage layer in the surrounding system.

use vstd::prelude::*;

use crate::date::Date;
use crate::filters::date_filter_matches;
use crate::filters::date_filter_eval;
use crate::filters::gender_equal_filter_matches;
use crate::filters::gender_equal_filter_eval;
use crate::filters::simple_string_filter_matches;
use crate::filters::simple_string_filter_eval;
use crate::filters::str_equal_filter_matches;
use crate::filters::str_equal_filter_eval;
use crate::filters::DateFilter;
use crate::filters::EqualFilter;
use crate::filters::SimpleStringFilter;
use crate::rows::Gender;
use crate::rows::NameRow;
use crate::rows::NameRowV;
use crate::rows::NameType;
use crate::store::NormalizedStore;

verus! {

/// A page of results: how many rows, starting where.
#[derive(Clone, Copy, Debug, PartialEq, Eq, Structural, Hash)]
pub struct PaginationOption {
    pub limit: Option<u32>,
    pub offset: Option<u32>,
}

/// The pagination a query runs with when none is given: everything, from
/// the start.
pub open spec fn effective_pagination(p: Option<PaginationOption>) -> (int, Option<int>) {
    match p {
        None => (0, None),
        Some(p) => (
            match p.offset {
                Some(o) => o as int,
                None => 0,
            },
            match p.limit {
                Some(l) => Some(l as int),
                None => None,
            },
        ),
    }
}

/// A filter over patients; every populated condition must hold.
#[derive(Clone, Debug, PartialEq)]
pub struct PatientFilter {
    pub id: Option<EqualFilter<String>>,
    pub first_name: Option<SimpleStringFilter>,
    pub last_name: Option<SimpleStringFilter>,
    pub gender: Option<EqualFilter<Gender>>,
    pub date_of_birth: Option<DateFilter>,
    pub phone: Option<SimpleStringFilter>,
    pub address1: Option<SimpleStringFilter>,
    pub address2: Option<SimpleStringFilter>,
    pub country: Option<SimpleStringFilter>,
    pub email: Option<SimpleStringFilter>,
}

/// The value of a [`PatientFilter`].
#[verifier::ext_equal]
pub struct PatientFilterV {
    pub id: Option<crate::filters::EqualFilterV<Seq<char>>>,
    pub first_name: Option<crate::filters::SimpleStringFilterV>,
    pub last_name: Option<crate::filters::SimpleStringFilterV>,
    pub gender: Option<crate::filters::EqualFilterV<Gender>>,
    pub date_of_birth: Option<DateFilter>,
    pub phone: Option<crate::filters::SimpleStringFilterV>,
    pub address1: Option<crate::filters::SimpleStringFilterV>,
    pub address2: Option<crate::filters::SimpleStringFilterV>,
    pub country: Option<crate::filters::SimpleStringFilterV>,
    pub email: Option<crate::filters::SimpleStringFilterV>,
}

impl DeepView for PatientFilter {
    type V = PatientFilterV;

    open spec fn deep_view(&self) -> PatientFilterV {
        PatientFilterV {
            id: match self.id {
                Some(ref f) => Some(f.deep_view()),
                None => None,
            },
            first_name: match self.first_name {
                Some(ref f) => Some(f.deep_view()),
                None => None,
            },
            last_name: match self.last_name {
                Some(ref f) => Some(f.deep_view()),
                None => None,
            },
            gender: match self.gender {
                Some(ref f) => Some(f.deep_view()),
                None => None,
            },
            date_of_birth: self.date_of_birth,
            phone: match self.phone {
                Some(ref f) => Some(f.deep_view()),
                None => None,
            },
            address1: match self.address1 {
                Some(ref f) => Some(f.deep_view()),
                None => None,
            },
            address2: match self.address2 {
                Some(ref f) => Some(f.deep_view()),
                None => None,
            },
            country: match self.country {
                Some(ref f) => Some(f.deep_view()),
                None => None,
            },
            email: match self.email {
                Some(ref f) => Some(f.deep_view()),
                None => None,
            },
        }
    }
}

/// A filter over the whole name table; what the patient filter lowers to.
#[derive(Clone, Debug, PartialEq)]
pub struct NameFilter {
    pub id: Option<EqualFilter<String>>,
    pub name: Option<SimpleStringFilter>,
    pub code: Option<SimpleStringFilter>,
    pub name_type: Option<EqualFilter<NameType>>,
    pub first_name: Option<SimpleStringFilter>,
    pub last_name: Option<SimpleStringFilter>,
    pub gender: Option<EqualFilter<Gender>>,
    pub date_of_birth: Option<DateFilter>,
    pub phone: Option<SimpleStringFilter>,
    pub address1: Option<SimpleStringFilter>,
    pub address2: Option<SimpleStringFilter>,
    pub country: Option<SimpleStringFilter>,
    pub email: Option<SimpleStringFilter>,
}

impl PatientFilter {
    /// A filter selecting every patient.
    pub fn new() -> (r: PatientFilter)
        ensures
            r == (PatientFilter {
                id: None,
                first_name: None,
                last_name: None,
                gender: None,
                date_of_birth: None,
                phone: None,
                address1: None,
                address2: None,
                country: None,
                email: None,
            }),
    {
        PatientFilter {
            id: None,
            first_name: None,
            last_name: None,
            gender: None,
            date_of_birth: None,
            phone: None,
            address1: None,
            address2: None,
            country: None,
            email: None,
        }
    }

    /// Restrict by patient id.
    pub fn id(self, filter: EqualFilter<String>) -> (r: Self)
        ensures
            r == (PatientFilter { id: Some(filter), ..self }),
    {
        PatientFilter { id: Some(filter), ..self }
    }

    /// Restrict by first name.
    pub fn first_name(self, filter: SimpleStringFilter) -> (r: Self)
        ensures
            r == (PatientFilter { first_name: Some(filter), ..self }),
    {
        PatientFilter { first_name: Some(filter), ..self }
    }

    /// Restrict by last name.
    pub fn last_name(self, filter: SimpleStringFilter) -> (r: Self)
        ensures
            r == (PatientFilter { last_name: Some(filter), ..self }),
    {
        PatientFilter { last_name: Some(filter), ..self }
    }

    /// Restrict by gender.
    pub fn gender(self, filter: EqualFilter<Gender>) -> (r: Self)
        ensures
            r == (PatientFilter { gender: Some(filter), ..self }),
    {
        PatientFilter { gender: Some(filter), ..self }
    }

    /// Restrict by date of birth.
    pub fn date_of_birth(self, filter: DateFilter) -> (r: Self)
        ensures
            r == (PatientFilter { date_of_birth: Some(filter), ..self }),
    {
        PatientFilter { date_of_birth: Some(filter), ..self }
    }

    /// Restrict by phone number.
    pub fn phone(self, filter: SimpleStringFilter) -> (r: Self)
        ensures
            r == (PatientFilter { phone: Some(filter), ..self }),
    {
        PatientFilter { phone: Some(filter), ..self }
    }

    /// Restrict by first address line.
    pub fn address1(self, filter: SimpleStringFilter) -> (r: Self)
        ensures
            r == (PatientFilter { address1: Some(filter), ..self }),
    {
        PatientFilter { address1: Some(filter), ..self }
    }

    /// Restrict by second address line.
    pub fn address2(self, filter: SimpleStringFilter) -> (r: Self)
        ensures
            r == (PatientFilter { address2: Some(filter), ..self }),
    {
        PatientFilter { address2: Some(filter), ..self }
    }

    /// Restrict by country.
    pub fn country(self, filter: SimpleStringFilter) -> (r: Self)
        ensures
            r == (PatientFilter { country: Some(filter), ..self }),
    {
        PatientFilter { country: Some(filter), ..self }
    }

    /// Restrict by email address.
    pub fn email(self, filter: SimpleStringFilter) -> (r: Self)
        ensures
            r == (PatientFilter { email: Some(filter), ..self }),
    {
        PatientFilter { email: Some(filter), ..self }
    }

    /// Lower a patient filter to the name table's filter: the same
    /// conditions, restricted to rows of the patient type.
    pub fn to_name_filter(self) -> (r: NameFilter)
        ensures
            r.id == self.id,
            r.name is None,
            r.code is None,
            r.name_type matches Some(ef) && ef.equal_to == Some(NameType::Patient)
                && ef.not_equal_to is None && ef.equal_any is None && ef.not_equal_all is None,
            r.first_name == self.first_name,
            r.last_name == self.last_name,
            r.gender == self.gender,
            r.date_of_birth == self.date_of_birth,
            r.phone == self.phone,
            r.address1 == self.address1,
            r.address2 == self.address2,
            r.country == self.country,
            r.email == self.email,
    {
        let PatientFilter {
            id,
            first_name,
            last_name,
            gender,
            date_of_birth,
            phone,
            address1,
            address2,
            country,
            email,
        } = self;
        NameFilter {
            id,
            name: None,
            code: None,
            name_type: Some(
                EqualFilter {
                    equal_to: Some(NameType::Patient),
                    not_equal_to: None,
                    equal_any: None,
                    not_equal_all: None,
                },
            ),
            first_name,
            last_name,
            gender,
            date_of_birth,
            phone,
            address1,
            address2,
            country,
            email,
        }
    }
}

/// An optional string field matches an optional filter: a populated filter
/// requires a populated field.
pub open spec fn opt_simple_matches(
    f: Option<crate::filters::SimpleStringFilterV>,
    x: Option<Seq<char>>,
) -> bool {
    match f {
        None => true,
        Some(f) => match x {
            Some(x) => simple_string_filter_matches(f, x),
            None => false,
        },
    }
}

/// Whether a name row is a patient satisfying a patient filter.
pub open spec fn patient_matches(f: PatientFilterV, n: NameRowV) -> bool {
    &&& n.name_type == NameType::Patient
    &&& (f.id matches Some(ef) ==> str_equal_filter_matches(ef, n.id))
    &&& opt_simple_matches(f.first_name, n.first_name)
    &&& opt_simple_matches(f.last_name, n.last_name)
    &&& (f.gender matches Some(ef) ==> (n.gender matches Some(g)
        && gender_equal_filter_matches(ef, g)))
    &&& (f.date_of_birth matches Some(df) ==> (n.date_of_birth matches Some(d)
        && date_filter_matches(df, d)))
    &&& opt_simple_matches(f.phone, n.phone)
    &&& opt_simple_matches(f.address1, n.address1)
    &&& opt_simple_matches(f.address2, n.address2)
    &&& opt_simple_matches(f.country, n.country)
    &&& opt_simple_matches(f.email, n.email)
}

/// One patient: a name row of the patient type.
#[derive(Clone, Debug, PartialEq)]
pub struct Patient {
    pub name_row: NameRow,
}

impl DeepView for Patient {
    type V = NameRowV;

    open spec fn deep_view(&self) -> NameRowV {
        self.name_row.deep_view()
    }
}

impl Patient {
    /// The identifier the surrounding system shows for a patient.
    pub fn id(&self) -> (r: &String)
        ensures
            r@ == self.name_row.name@,
    {
        &self.name_row.name
    }

    /// The patient's first name.
    pub fn first_name(&self) -> (r: Option<String>)
        ensures
            r.deep_view() == self.name_row.first_name.deep_view(),
    {
        match &self.name_row.first_name {
            Some(s) => Some(s.clone()),
            None => None,
        }
    }

    /// The patient's last name.
    pub fn last_name(&self) -> (r: Option<String>)
        ensures
            r.deep_view() == self.name_row.last_name.deep_view(),
    {
        match &self.name_row.last_name {
            Some(s) => Some(s.clone()),
            None => None,
        }
    }

    /// The patient's date of birth.
    pub fn date_of_birth(&self) -> (r: Option<Date>)
        ensures
            r == self.name_row.date_of_birth,
    {
        self.name_row.date_of_birth
    }
}

/// Evaluate a patient filter against one name row.
pub fn patient_matches_eval(f: &PatientFilter, n: &NameRow) -> (r: bool)
    ensures
        r == patient_matches(f.deep_view(), n.deep_view()),
{
    let mut ok = matches!(n.name_type, NameType::Patient);
    if let Some(ef) = &f.id {
        if !str_equal_filter_eval(ef, n.id.as_str()) {
            ok = false;
        }
    }
    if let Some(sf) = &f.first_name {
        match &n.first_name {
            Some(x) => if !simple_string_filter_eval(sf, x.as_str()) {
                ok = false;
            },
            None => {
                ok = false;
            },
        }
    }
    if let Some(sf) = &f.last_name {
        match &n.last_name {
            Some(x) => if !simple_string_filter_eval(sf, x.as_str()) {
                ok = false;
            },
            None => {
                ok = false;
            },
        }
    }
    if let Some(ef) = &f.gender {
        match n.gender {
            Some(g) => if !gender_equal_filter_eval(ef, g) {
                ok = false;
            },
            None => {
                ok = false;
            },
        }
    }
    if let Some(df) = &f.date_of_birth {
        match n.date_of_birth {
            Some(d) => if !date_filter_eval(df, d) {
                ok = false;
            },
            None => {
                ok = false;
            },
        }
    }
    if let Some(sf) = &f.phone {
        match &n.phone {
            Some(x) => if !simple_string_filter_eval(sf, x.as_str()) {
                ok = false;
            },
            None => {
                ok = false;
            },
        }
    }
    if let Some(sf) = &f.address1 {
        match &n.address1 {
            Some(x) => if !simple_string_filter_eval(sf, x.as_str()) {
                ok = false;
            },
            None => {
                ok = false;
            },
        }
    }
    if let Some(sf) = &f.address2 {
        match &n.address2 {
            Some(x) => if !simple_string_filter_eval(sf, x.as_str()) {
                ok = false;
            },
            None => {
                ok = false;
            },
        }
    }
    if let Some(sf) = &f.country {
        match &n.country {
            Some(x) => if !simple_string_filter_eval(sf, x.as_str()) {
                ok = false;
            },
            None => {
                ok = false;
            },
        }
    }
    if let Some(sf) = &f.email {
        match &n.email {
            Some(x) => if !simple_string_filter_eval(sf, x.as_str()) {
                ok = false;
            },
            None => {
                ok = false;
            },
        }
    }
    ok
}

/// The patients a filter selects, in table order.
pub open spec fn selected_patients(names: Seq<NameRowV>, f: Option<PatientFilterV>) -> Seq<
    NameRowV,
> {
    names.filter(
        |n: NameRowV|
            match f {
                Some(f) => patient_matches(f, n),
                None => n.name_type == NameType::Patient,
            },
    )
}

/// One page of a row sequence.
pub open spec fn page_of(rows: Seq<NameRowV>, offset: int, limit: Option<int>) -> Seq<NameRowV> {
    let rest = if offset >= rows.len() {
        Seq::empty()
    } else {
        rows.skip(offset)
    };
    match limit {
        None => rest,
        Some(l) => if l >= rest.len() {
            rest
        } else {
            rest.take(l)
        },
    }
}

/// List the patients a filter selects, one page of them, in table order.
///
/// Patient visibility is store-independent, so the store id selects
/// nothing here; it names the store the query is asked from, as the
/// surrounding system supplies it.
pub fn get_patients(
    store: &NormalizedStore,
    _store_id: &str,
    pagination: Option<PaginationOption>,
    filter: Option<PatientFilter>,
) -> (r: Vec<Patient>)
    requires
        store.wf(),
    ensures
        r.deep_view() == page_of(
            selected_patients(store.names_dv(), match filter {
                Some(f) => Some(f.deep_view()),
                None => None,
            }),
            effective_pagination(pagination).0,
            effective_pagination(pagination).1,
        ),
{
    let ghost names = store.names_dv();
    let ghost fv: Option<PatientFilterV> = match filter {
        Some(ref f) => Some(f.deep_view()),
        None => None,
    };
    let ghost pred = |n: NameRowV|
        match fv {
            Some(f) => patient_matches(f, n),
            None => n.name_type == NameType::Patient,
        };
    let mut matched: Vec<NameRow> = Vec::new();
    let n = store.names_len();
    let mut i: usize = 0;
    proof {
        reveal_with_fuel(Seq::<NameRowV>::filter, 2);
        assert(names.take(0) =~= Seq::<NameRowV>::empty());
        assert(matched.deep_view() =~= Seq::<NameRowV>::empty());
    }
    while i < n
        invariant
            i <= n,
            n == store.names_dv().len(),
            names == store.names_dv(),
            store.wf(),
            fv == (match filter {
                Some(ref f) => Some(f.deep_view()),
                None => None::<PatientFilterV>,
            }),
            pred == (|n: NameRowV|
                match fv {
                    Some(f) => patient_matches(f, n),
                    None => n.name_type == NameType::Patient,
                }),
            matched.deep_view() == names.take(i as int).filter(pred),
        decreases n - i,
    {
        proof {
            reveal_with_fuel(Seq::<NameRowV>::filter, 2);
            assert(names.take(i as int + 1).drop_last() =~= names.take(i as int));
            assert(names.take(i as int + 1).last() == names[i as int]);
        }
        let row = store.name_at(i);
        let keep = match &filter {
            Some(f) => patient_matches_eval(f, row),
            None => matches!(row.name_type, NameType::Patient),
        };
        if keep {
            let ghost prev = matched.deep_view();
            matched.push(row.clone());
            proof {
                assert(matched.deep_view() =~= prev.push(names[i as int]));
            }
        }
        i += 1;
    }
    proof {
        assert(names.take(n as int) =~= names);
    }
    // Apply pagination over the selected rows.
    let ghost selected = selected_patients(names, fv);
    proof {
        assert(matched.deep_view() == selected);
    }
    let len = matched.len();
    let offset: usize = match &pagination {
        None => 0,
        Some(p) => match p.offset {
            Some(o) => o as usize,
            None => 0,
        },
    };
    let start_idx: usize = if offset > len {
        len
    } else {
        offset
    };
    let end_idx: usize = match &pagination {
        None => len,
        Some(p) => match p.limit {
            Some(l) => {
                let lim = l as usize;
                if lim >= len - start_idx {
                    len
                } else {
                    start_idx + lim
                }
            },
            None => len,
        },
    };
    let mut out: Vec<Patient> = Vec::new();
    let mut k: usize = start_idx;
    proof {
        assert(out.deep_view() =~= selected.subrange(start_idx as int, start_idx as int));
    }
    while k < end_idx
        invariant
            start_idx <= k <= end_idx,
            end_idx <= matched@.len(),
            matched.deep_view() == selected,
            out.deep_view() =~= selected.subrange(start_idx as int, k as int),
        decreases end_idx - k,
    {
        let ghost prev = out.deep_view();
        out.push(Patient { name_row: matched[k].clone() });
        proof {
            assert(out.deep_view() =~= prev.push(selected[k as int]));
            assert(selected.subrange(start_idx as int, k as int).push(selected[k as int])
                =~= selected.subrange(start_idx as int, k as int + 1));
        }
        k += 1;
    }
    proof {
        let o = effective_pagination(pagination).0;
        let l = effective_pagination(pagination).1;
        let pg = page_of(selected, o, l);
        if o >= selected.len() {
            assert(out.deep_view() =~= pg);
        } else {
            assert(selected.skip(o) =~= selected.subrange(o, selected.len() as int));
            match l {
                None => {
                    assert(out.deep_view() =~= pg);
                },
                Some(lv) => {
                    if lv >= selected.len() - o {
                        assert(out.deep_view() =~= pg);
                    } else {
                        assert(selected.skip(o).take(lv) =~= selected.subrange(o, o + lv));
                        assert(out.deep_view() =~= pg);
                    }
                },
            }
        }
    }
    out
}

} // verus!
