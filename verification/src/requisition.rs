//! Request requisitions: creating one against a supplying store and
//! updating it until it is sent.
//!
//! The storage engine's clock and transaction scope belong to the caller:
//! the current time arrives as a plain value, and each function returns the
//! row it wrote.

use vstd::prelude::*;

use crate::rows::NameStoreJoinRowV;
use crate::rows::NumberRow;
use crate::rows::NumberRowV;
use crate::rows::RequisitionRow;
use crate::rows::RequisitionRowV;
use crate::rows::RequisitionStatus;
use crate::rows::RequisitionType;
use crate::rows::StoreRowV;
use crate::store::NormalizedStore;
use crate::store::StoreV;
use crate::text::str_eq;

verus! {

/// What a new request requisition is created from.
#[derive(Clone, Debug, PartialEq)]
pub struct InsertRequestRequisition {
    pub id: String,
    pub other_party_id: String,
    pub colour: Option<String>,
    pub their_reference: Option<String>,
    pub comment: Option<String>,
    /// Hundredths of a month.
    pub max_months_of_stock: i64,
    /// Hundredths of a month.
    pub min_months_of_stock: i64,
}

/// The value of an [`InsertRequestRequisition`].
#[verifier::ext_equal]
pub struct InsertRequestRequisitionV {
    pub id: Seq<char>,
    pub other_party_id: Seq<char>,
    pub colour: Option<Seq<char>>,
    pub their_reference: Option<Seq<char>>,
    pub comment: Option<Seq<char>>,
    pub max_months_of_stock: i64,
    pub min_months_of_stock: i64,
}

impl DeepView for InsertRequestRequisition {
    type V = InsertRequestRequisitionV;

    open spec fn deep_view(&self) -> InsertRequestRequisitionV {
        InsertRequestRequisitionV {
            id: self.id@,
            other_party_id: self.other_party_id@,
            colour: self.colour.deep_view(),
            their_reference: self.their_reference.deep_view(),
            comment: self.comment.deep_view(),
            max_months_of_stock: self.max_months_of_stock,
            min_months_of_stock: self.min_months_of_stock,
        }
    }
}

/// Why a request requisition cannot be created.
#[derive(Clone, Copy, Debug, PartialEq, Eq, Structural, Hash)]
pub enum InsertRequestRequisitionError {
    RequisitionAlreadyExists,
    OtherPartyNotASupplier,
    OtherPartyDoesNotExist,
    OtherPartyNotVisible,
    OtherPartyIsNotAStore,
}

/// The status an update may move a request requisition to.
#[derive(Clone, Copy, Debug, PartialEq, Eq, Structural, Hash)]
pub enum UpdateRequestRequstionStatus {
    Sent,
}

/// What an update changes on a request requisition; absent fields stay.
#[derive(Clone, Debug, PartialEq)]
pub struct UpdateRequestRequisition {
    pub id: String,
    pub colour: Option<String>,
    pub their_reference: Option<String>,
    pub comment: Option<String>,
    /// Hundredths of a month.
    pub max_months_of_stock: Option<i64>,
    /// Hundredths of a month; updates the minimum months of stock.
    pub threshold_months_of_stock: Option<i64>,
    pub status: Option<UpdateRequestRequstionStatus>,
}

/// Why a request requisition cannot be updated.
#[derive(Clone, Copy, Debug, PartialEq, Eq, Structural, Hash)]
pub enum UpdateRequestRequisitionError {
    RequisitionDoesNotExist,
    NotThisStoreRequisition,
    CannotEditRequisition,
    NotARequestRequisition,
}

/// The first visibility join of a name at a store, in table order.
pub open spec fn first_join_for(
    joins: Seq<NameStoreJoinRowV>,
    name_id: Seq<char>,
    store_id: Seq<char>,
) -> Option<NameStoreJoinRowV>
    decreases joins.len(),
{
    if joins.len() == 0 {
        None
    } else if joins[0].name_id == name_id && joins[0].store_id == store_id {
        Some(joins[0])
    } else {
        first_join_for(joins.drop_first(), name_id, store_id)
    }
}

/// Whether some store belongs to a name.
pub open spec fn has_store_for_name(stores: Seq<StoreRowV>, name_id: Seq<char>) -> bool {
    exists|i: int| 0 <= i < stores.len() && stores[i].name_id == name_id
}

/// Find the first visibility join of a name at a store.
fn find_join_for(store: &NormalizedStore, name_id: &str, store_id: &str) -> (r: Option<
    crate::rows::NameStoreJoinRow,
>)
    ensures
        r.deep_view() == first_join_for(store.name_store_joins_dv(), name_id@, store_id@),
{
    let ghost joins = store.name_store_joins_dv();
    let n = store.name_store_joins_len();
    let mut i: usize = 0;
    proof {
        assert(joins.skip(0) =~= joins);
    }
    while i < n
        invariant
            i <= n,
            n == store.name_store_joins_dv().len(),
            joins == store.name_store_joins_dv(),
            first_join_for(joins.skip(i as int), name_id@, store_id@) == first_join_for(
                joins,
                name_id@,
                store_id@,
            ),
        decreases n - i,
    {
        proof {
            assert(joins.skip(i as int)[0] == joins[i as int]);
            assert(joins.skip(i as int).drop_first() =~= joins.skip(i as int + 1));
        }
        let row = store.name_store_join_at(i);
        if str_eq(row.name_id.as_str(), name_id) && str_eq(row.store_id.as_str(), store_id) {
            return Some(row.clone());
        }
        i += 1;
    }
    proof {
        assert(joins.skip(n as int) =~= Seq::<NameStoreJoinRowV>::empty());
    }
    None
}

/// Whether any store belongs to a name.
fn exists_store_for_name(store: &NormalizedStore, name_id: &str) -> (r: bool)
    ensures
        r == has_store_for_name(store.stores_dv(), name_id@),
{
    let ghost stores = store.stores_dv();
    let n = store.stores_len();
    let mut i: usize = 0;
    while i < n
        invariant
            i <= n,
            n == store.stores_dv().len(),
            stores == store.stores_dv(),
            forall|j: int| 0 <= j < i ==> stores[j].name_id != name_id@,
        decreases n - i,
    {
        let row = store.store_at(i);
        if str_eq(row.name_id.as_str(), name_id) {
            assert(stores[i as int].name_id == name_id@);
            return true;
        }
        i += 1;
    }
    false
}

/// The first reason a creation must be refused, if any: the id must be
/// fresh, and the other party must exist, be visible at the store, be a
/// supplier there, and itself be a store.
pub open spec fn insert_validate_spec(
    st: NormalizedStore,
    input: InsertRequestRequisitionV,
    store_id: Seq<char>,
) -> Option<InsertRequestRequisitionError> {
    if st@.requisitions.contains_key(input.id) {
        Some(InsertRequestRequisitionError::RequisitionAlreadyExists)
    } else if !st@.names.contains_key(input.other_party_id) {
        Some(InsertRequestRequisitionError::OtherPartyDoesNotExist)
    } else {
        match first_join_for(st.name_store_joins_dv(), input.other_party_id, store_id) {
            None => Some(InsertRequestRequisitionError::OtherPartyNotVisible),
            Some(join) => if !join.name_is_supplier {
                Some(InsertRequestRequisitionError::OtherPartyNotASupplier)
            } else if !has_store_for_name(st.stores_dv(), input.other_party_id) {
                Some(InsertRequestRequisitionError::OtherPartyIsNotAStore)
            } else {
                None
            },
        }
    }
}

/// Check whether a creation is admissible.
pub fn validate(
    store: &NormalizedStore,
    store_id: &str,
    input: &InsertRequestRequisition,
) -> (r: Option<InsertRequestRequisitionError>)
    requires
        store.wf(),
    ensures
        r == insert_validate_spec(*store, input.deep_view(), store_id@),
{
    if store.get_requisition(input.id.as_str()).is_some() {
        return Some(InsertRequestRequisitionError::RequisitionAlreadyExists);
    }
    if store.get_name(input.other_party_id.as_str()).is_none() {
        return Some(InsertRequestRequisitionError::OtherPartyDoesNotExist);
    }
    match find_join_for(store, input.other_party_id.as_str(), store_id) {
        None => Some(InsertRequestRequisitionError::OtherPartyNotVisible),
        Some(join) => if !join.name_is_supplier {
            Some(InsertRequestRequisitionError::OtherPartyNotASupplier)
        } else if !exists_store_for_name(store, input.other_party_id.as_str()) {
            Some(InsertRequestRequisitionError::OtherPartyIsNotAStore)
        } else {
            None
        },
    }
}

/// The counter a store draws its request-requisition numbers from.
pub open spec fn requisition_counter_key(store_id: Seq<char>) -> Seq<char> {
    "request_requisition_"@ + store_id
}

/// The number the counter hands out next: one past what it stands at,
/// starting at one, held at the top of the range.
pub open spec fn next_number_spec(s: StoreV, key: Seq<char>) -> i64 {
    if s.numbers.contains_key(key) {
        let cur = s.numbers[key].value;
        if cur < i64::MAX {
            (cur + 1) as i64
        } else {
            cur
        }
    } else {
        1
    }
}

/// Draw the next number from a named counter and persist its new stand.
pub fn next_number(store: &mut NormalizedStore, key: &str) -> (r: i64)
    requires
        old(store).wf(),
    ensures
        final(store).wf(),
        r == next_number_spec(old(store)@, key@),
        final(store)@ == (StoreV {
            numbers: old(store)@.numbers.insert(key@, NumberRowV { id: key@, value: r }),
            ..old(store)@
        }),
        final(store).names_dv() == old(store).names_dv(),
{
    let value: i64 = match store.get_number(key) {
        Some(row) => if row.value < i64::MAX {
            row.value + 1
        } else {
            row.value
        },
        None => 1,
    };
    store.upsert_number(NumberRow { id: key.to_owned(), value });
    value
}

/// The row a creation writes.
pub open spec fn generate_spec(
    input: InsertRequestRequisitionV,
    store_id: Seq<char>,
    user_id: Seq<char>,
    now: i64,
    number: i64,
) -> RequisitionRowV {
    RequisitionRowV {
        id: input.id,
        user_id: Some(user_id),
        requisition_number: number,
        name_id: input.other_party_id,
        store_id: store_id,
        requisition_type: RequisitionType::Request,
        status: RequisitionStatus::Draft,
        created_datetime: now,
        sent_datetime: None,
        finalised_datetime: None,
        colour: input.colour,
        comment: input.comment,
        their_reference: input.their_reference,
        max_months_of_stock: input.max_months_of_stock,
        min_months_of_stock: input.min_months_of_stock,
        linked_requisition_id: None,
    }
}

/// Create a draft request requisition at a store, numbered from the
/// store's counter, stamped with the caller's clock.
pub fn insert_request_requisition(
    store: &mut NormalizedStore,
    store_id: &str,
    user_id: &str,
    input: InsertRequestRequisition,
    now: i64,
) -> (r: Result<RequisitionRow, InsertRequestRequisitionError>)
    requires
        old(store).wf(),
    ensures
        final(store).wf(),
        match insert_validate_spec(*old(store), input.deep_view(), store_id@) {
            Some(e) => r == Err::<RequisitionRow, _>(e) && final(store)@ == old(store)@,
            None => ({
                let number = next_number_spec(old(store)@, requisition_counter_key(store_id@));
                let row = generate_spec(input.deep_view(), store_id@, user_id@, now, number);
                &&& r matches Ok(out) && out.deep_view() == row
                &&& final(store)@ == (StoreV {
                    numbers: old(store)@.numbers.insert(
                        requisition_counter_key(store_id@),
                        NumberRowV { id: requisition_counter_key(store_id@), value: number },
                    ),
                    requisitions: old(store)@.requisitions.insert(input.id@, row),
                    ..old(store)@
                })
            }),
        },
{
    if let Some(e) = validate(store, store_id, &input) {
        return Err(e);
    }
    let key: String = "request_requisition_".to_owned().concat(store_id);
    let number = next_number(store, key.as_str());
    let new_requisition = RequisitionRow {
        id: input.id.clone(),
        user_id: Some(user_id.to_owned()),
        requisition_number: number,
        name_id: input.other_party_id,
        store_id: store_id.to_owned(),
        requisition_type: RequisitionType::Request,
        status: RequisitionStatus::Draft,
        created_datetime: now,
        sent_datetime: None,
        finalised_datetime: None,
        colour: input.colour,
        comment: input.comment,
        their_reference: input.their_reference,
        max_months_of_stock: input.max_months_of_stock,
        min_months_of_stock: input.min_months_of_stock,
        linked_requisition_id: None,
    };
    store.upsert_requisition(new_requisition.clone());
    Ok(new_requisition)
}

/// The first reason an update must be refused, if any: the requisition
/// must exist at this store, be a request, and still be a draft.
pub open spec fn update_validate_spec(
    s: StoreV,
    id: Seq<char>,
    store_id: Seq<char>,
) -> Option<UpdateRequestRequisitionError> {
    if !s.requisitions.contains_key(id) {
        Some(UpdateRequestRequisitionError::RequisitionDoesNotExist)
    } else {
        let row = s.requisitions[id];
        if row.store_id != store_id {
            Some(UpdateRequestRequisitionError::NotThisStoreRequisition)
        } else if row.requisition_type != RequisitionType::Request {
            Some(UpdateRequestRequisitionError::NotARequestRequisition)
        } else if row.status != RequisitionStatus::Draft {
            Some(UpdateRequestRequisitionError::CannotEditRequisition)
        } else {
            None
        }
    }
}

/// The row an update leaves: populated fields replace the old values,
/// absent fields keep them; moving to `Sent` stamps the sent time.
pub open spec fn update_generate_spec(
    row: RequisitionRowV,
    colour: Option<Seq<char>>,
    their_reference: Option<Seq<char>>,
    comment: Option<Seq<char>>,
    max_months_of_stock: Option<i64>,
    threshold_months_of_stock: Option<i64>,
    status: Option<UpdateRequestRequstionStatus>,
    now: i64,
) -> RequisitionRowV {
    RequisitionRowV {
        colour: match colour {
            Some(c) => Some(c),
            None => row.colour,
        },
        their_reference: match their_reference {
            Some(v) => Some(v),
            None => row.their_reference,
        },
        comment: match comment {
            Some(v) => Some(v),
            None => row.comment,
        },
        max_months_of_stock: match max_months_of_stock {
            Some(v) => v,
            None => row.max_months_of_stock,
        },
        min_months_of_stock: match threshold_months_of_stock {
            Some(v) => v,
            None => row.min_months_of_stock,
        },
        status: match status {
            Some(UpdateRequestRequstionStatus::Sent) => RequisitionStatus::Sent,
            None => row.status,
        },
        sent_datetime: match status {
            Some(UpdateRequestRequstionStatus::Sent) => Some(now),
            None => row.sent_datetime,
        },
        ..row
    }
}

/// Update a draft request requisition at a store, stamped with the
/// caller's clock when it moves to `Sent`.
pub fn update_request_requisition(
    store: &mut NormalizedStore,
    store_id: &str,
    input: UpdateRequestRequisition,
    now: i64,
) -> (r: Result<RequisitionRow, UpdateRequestRequisitionError>)
    requires
        old(store).wf(),
    ensures
        final(store).wf(),
        match update_validate_spec(old(store)@, input.id@, store_id@) {
            Some(e) => r == Err::<RequisitionRow, _>(e) && final(store)@ == old(store)@,
            None => ({
                let row = update_generate_spec(
                    old(store)@.requisitions[input.id@],
                    input.colour.deep_view(),
                    input.their_reference.deep_view(),
                    input.comment.deep_view(),
                    input.max_months_of_stock,
                    input.threshold_months_of_stock,
                    input.status,
                    now,
                );
                &&& r matches Ok(out) && out.deep_view() == row
                &&& final(store)@ == (StoreV {
                    requisitions: old(store)@.requisitions.insert(input.id@, row),
                    ..old(store)@
                })
            }),
        },
{
    let requisition_row = match store.get_requisition(input.id.as_str()) {
        Some(row) => row,
        None => {
            return Err(UpdateRequestRequisitionError::RequisitionDoesNotExist);
        },
    };
    if !str_eq(requisition_row.store_id.as_str(), store_id) {
        return Err(UpdateRequestRequisitionError::NotThisStoreRequisition);
    }
    if !matches!(requisition_row.requisition_type, RequisitionType::Request) {
        return Err(UpdateRequestRequisitionError::NotARequestRequisition);
    }
    if !matches!(requisition_row.status, RequisitionStatus::Draft) {
        return Err(UpdateRequestRequisitionError::CannotEditRequisition);
    }
    let mut updated = requisition_row.clone();
    let UpdateRequestRequisition {
        id: _,
        colour,
        their_reference,
        comment,
        max_months_of_stock,
        threshold_months_of_stock,
        status,
    } = input;
    if let Some(c) = colour {
        updated.colour = Some(c);
    }
    if let Some(v) = their_reference {
        updated.their_reference = Some(v);
    }
    if let Some(v) = comment {
        updated.comment = Some(v);
    }
    if let Some(v) = max_months_of_stock {
        updated.max_months_of_stock = v;
    }
    if let Some(v) = threshold_months_of_stock {
        updated.min_months_of_stock = v;
    }
    if let Some(UpdateRequestRequstionStatus::Sent) = status {
        updated.status = RequisitionStatus::Sent;
        updated.sent_datetime = Some(now);
    }
    store.upsert_requisition(updated.clone());
    Ok(updated)
}

} // verus!
