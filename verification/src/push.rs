//! Outbound translation: change-log entries back into the legacy wire
//! shape.
//!
//! For each entry the current normalized row is looked up and converted into
//! the legacy record for its table — the inverse of the pull translators,
//! field renames and `om_`-prefixed extension fields included. A delete
//! entry emits a minimal payload carrying only the identifying field, since
//! the row may already be gone.

use vstd::prelude::*;

use crate::date::date_chars;
use crate::date::format_date;
use crate::date::Date;
use crate::errors::PushError;
use crate::legacy::LegacyObject;
use crate::legacy::ObjectV;
use crate::legacy::Scalar;
use crate::legacy::ScalarV;
use crate::legacy::LEGACY_INT_MAX;
use crate::rows::InvoiceLineRow;
use crate::rows::InvoiceLineRowV;
use crate::rows::NameStoreJoinRow;
use crate::rows::NameStoreJoinRowV;
use crate::store::NormalizedStore;
use crate::store::StoreV;
use crate::trans_line::line_type_str;
use crate::rows::InvoiceLineType;

verus! {

/// A local mutation recorded by the normalized schema, consumed once per
/// push cycle.
#[derive(Clone, Debug, PartialEq)]
pub struct ChangelogRow {
    /// Monotonically increasing sequence id.
    pub id: u64,
    pub table_name: ChangelogTableName,
    pub row_id: String,
    pub row_action: ChangelogAction,
}

/// The normalized tables whose mutations are pushed.
#[derive(Clone, Copy, Debug, PartialEq, Eq, Structural, Hash)]
pub enum ChangelogTableName {
    InvoiceLine,
    NameStoreJoin,
}

/// What a change-log entry did to its row.
#[derive(Clone, Copy, Debug, PartialEq, Eq, Structural, Hash)]
pub enum ChangelogAction {
    Upsert,
    Delete,
}

/// The value of a [`ChangelogRow`].
#[verifier::ext_equal]
pub struct ChangelogRowV {
    pub id: u64,
    pub table_name: ChangelogTableName,
    pub row_id: Seq<char>,
    pub row_action: ChangelogAction,
}

impl DeepView for ChangelogRow {
    type V = ChangelogRowV;

    open spec fn deep_view(&self) -> ChangelogRowV {
        ChangelogRowV {
            id: self.id,
            table_name: self.table_name,
            row_id: self.row_id@,
            row_action: self.row_action,
        }
    }
}

/// One outbound record: the legacy table it belongs to, its id there, and
/// its payload in the legacy shape.
#[derive(Clone, Debug, PartialEq)]
pub struct PushRecord {
    pub table_name: String,
    pub record_id: String,
    pub data: LegacyObject,
}

/// The value of a [`PushRecord`].
#[verifier::ext_equal]
pub struct PushRecordV {
    pub table_name: Seq<char>,
    pub record_id: Seq<char>,
    pub data: ObjectV,
}

impl DeepView for PushRecord {
    type V = PushRecordV;

    open spec fn deep_view(&self) -> PushRecordV {
        PushRecordV {
            table_name: self.table_name@,
            record_id: self.record_id@,
            data: self.data.deep_view(),
        }
    }
}

/// The legacy table name a normalized table maps to: a fixed lookup, not
/// inferred.
pub open spec fn legacy_table_name_spec(t: ChangelogTableName) -> Seq<char> {
    match t {
        ChangelogTableName::InvoiceLine => "trans_line"@,
        ChangelogTableName::NameStoreJoin => "name_store_join"@,
    }
}

/// Map a normalized table to its legacy name.
pub fn table_name_to_central(t: &ChangelogTableName) -> (r: &'static str)
    ensures
        r@ == legacy_table_name_spec(*t),
{
    match t {
        ChangelogTableName::InvoiceLine => "trans_line",
        ChangelogTableName::NameStoreJoin => "name_store_join",
    }
}

/// The scalar an optional string is carried as: null when absent.
pub open spec fn opt_str_scalar(v: Option<Seq<char>>) -> ScalarV {
    match v {
        Some(s) => ScalarV::Str(s),
        None => ScalarV::Null,
    }
}

/// The scalar an optional number is carried as: null when absent.
pub open spec fn opt_money_scalar(v: Option<i64>) -> ScalarV {
    match v {
        Some(n) => ScalarV::Num(n),
        None => ScalarV::Null,
    }
}

/// The scalar an optional date is carried as: null when absent.
pub open spec fn opt_date_scalar(v: Option<Date>) -> ScalarV {
    match v {
        Some(d) => ScalarV::Str(date_chars(d)),
        None => ScalarV::Null,
    }
}

/// Whether an invoice line can be carried on the legacy wire: whole counts
/// within the legacy range and a well-formed expiry date.
pub open spec fn line_push_wf(row: InvoiceLineRowV) -> bool {
    &&& 0 <= row.pack_size <= LEGACY_INT_MAX
    &&& 0 <= row.number_of_packs <= LEGACY_INT_MAX
    &&& (row.expiry_date matches Some(d) ==> d.is_valid())
}

/// The legacy `trans_line` payload a normalized invoice line is pushed as.
pub open spec fn push_trans_line_spec(row: InvoiceLineRowV) -> ObjectV {
    seq![
        ("ID"@, ScalarV::Str(row.id)),
        ("transaction_ID"@, ScalarV::Str(row.invoice_id)),
        ("item_ID"@, ScalarV::Str(row.item_id)),
        ("item_name"@, ScalarV::Str(row.item_name)),
        ("item_line_ID"@, opt_str_scalar(row.stock_line_id)),
        ("location_ID"@, opt_str_scalar(row.location_id)),
        ("batch"@, opt_str_scalar(row.batch)),
        ("expiry_date"@, opt_date_scalar(row.expiry_date)),
        ("pack_size"@, ScalarV::Num((100 * row.pack_size) as i64)),
        ("cost_price"@, ScalarV::Num(row.cost_price_per_pack)),
        ("sell_price"@, ScalarV::Num(row.sell_price_per_pack)),
        ("type"@, ScalarV::Str(line_type_str(row.line_type))),
        ("quantity"@, ScalarV::Num((100 * row.number_of_packs) as i64)),
        ("note"@, opt_str_scalar(row.note)),
        ("om_item_code"@, ScalarV::Str(row.item_code)),
        ("om_tax"@, opt_money_scalar(row.tax)),
        ("om_total_before_tax"@, ScalarV::Num(row.total_before_tax)),
        ("om_total_after_tax"@, ScalarV::Num(row.total_after_tax)),
    ]
}

/// The legacy `name_store_join` payload a normalized join is pushed as. The
/// extension fields always carry the normalized flags.
pub open spec fn push_name_store_join_spec(row: NameStoreJoinRowV) -> ObjectV {
    seq![
        ("ID"@, ScalarV::Str(row.id)),
        ("store_ID"@, ScalarV::Str(row.store_id)),
        ("name_ID"@, ScalarV::Str(row.name_id)),
        ("om_name_is_customer"@, ScalarV::Bool(row.name_is_customer)),
        ("om_name_is_supplier"@, ScalarV::Bool(row.name_is_supplier)),
    ]
}

/// The minimal payload a delete entry is pushed as: the identifying field
/// alone.
pub open spec fn push_delete_spec(row_id: Seq<char>) -> ObjectV {
    seq![("ID"@, ScalarV::Str(row_id))]
}

/// An optional string as a wire scalar.
fn opt_str_to_scalar(v: &Option<String>) -> (r: Scalar)
    ensures
        r.deep_view() == opt_str_scalar(v.deep_view()),
{
    match v {
        Some(s) => Scalar::Str(s.clone()),
        None => Scalar::Null,
    }
}

/// An optional number as a wire scalar.
fn opt_money_to_scalar(v: &Option<i64>) -> (r: Scalar)
    ensures
        r.deep_view() == opt_money_scalar(*v),
{
    match v {
        Some(n) => Scalar::Num(*n),
        None => Scalar::Null,
    }
}

/// An optional date as a wire scalar.
fn opt_date_to_scalar(v: &Option<Date>) -> (r: Scalar)
    requires
        v matches Some(d) ==> d.is_valid(),
    ensures
        r.deep_view() == opt_date_scalar(*v),
{
    match v {
        Some(d) => Scalar::Str(format_date(d)),
        None => Scalar::Null,
    }
}

/// Write an invoice line in its legacy `trans_line` shape.
pub fn push_trans_line(row: &InvoiceLineRow) -> (r: LegacyObject)
    requires
        line_push_wf(row.deep_view()),
    ensures
        r.deep_view() == push_trans_line_spec(row.deep_view()),
{
    let mut o = LegacyObject::new();
    o.push_field("ID", Scalar::Str(row.id.clone()));
    o.push_field("transaction_ID", Scalar::Str(row.invoice_id.clone()));
    o.push_field("item_ID", Scalar::Str(row.item_id.clone()));
    o.push_field("item_name", Scalar::Str(row.item_name.clone()));
    o.push_field("item_line_ID", opt_str_to_scalar(&row.stock_line_id));
    o.push_field("location_ID", opt_str_to_scalar(&row.location_id));
    o.push_field("batch", opt_str_to_scalar(&row.batch));
    o.push_field("expiry_date", opt_date_to_scalar(&row.expiry_date));
    o.push_field("pack_size", Scalar::Num(100 * row.pack_size));
    o.push_field("cost_price", Scalar::Num(row.cost_price_per_pack));
    o.push_field("sell_price", Scalar::Num(row.sell_price_per_pack));
    o.push_field(
        "type",
        match row.line_type {
            InvoiceLineType::StockIn => Scalar::Str("stock_in".to_owned()),
            InvoiceLineType::StockOut => Scalar::Str("stock_out".to_owned()),
        },
    );
    o.push_field("quantity", Scalar::Num(100 * row.number_of_packs));
    o.push_field("note", opt_str_to_scalar(&row.note));
    o.push_field("om_item_code", Scalar::Str(row.item_code.clone()));
    o.push_field("om_tax", opt_money_to_scalar(&row.tax));
    o.push_field("om_total_before_tax", Scalar::Num(row.total_before_tax));
    o.push_field("om_total_after_tax", Scalar::Num(row.total_after_tax));
    proof {
        assert(o.deep_view() =~= push_trans_line_spec(row.deep_view()));
    }
    o
}

/// Write a name-store join in its legacy shape.
pub fn push_name_store_join(row: &NameStoreJoinRow) -> (r: LegacyObject)
    ensures
        r.deep_view() == push_name_store_join_spec(row.deep_view()),
{
    let mut o = LegacyObject::new();
    o.push_field("ID", Scalar::Str(row.id.clone()));
    o.push_field("store_ID", Scalar::Str(row.store_id.clone()));
    o.push_field("name_ID", Scalar::Str(row.name_id.clone()));
    o.push_field("om_name_is_customer", Scalar::Bool(row.name_is_customer));
    o.push_field("om_name_is_supplier", Scalar::Bool(row.name_is_supplier));
    proof {
        assert(o.deep_view() =~= push_name_store_join_spec(row.deep_view()));
    }
    o
}

/// Write the minimal delete payload.
pub fn push_delete(row_id: &str) -> (r: LegacyObject)
    ensures
        r.deep_view() == push_delete_spec(row_id@),
{
    let mut o = LegacyObject::new();
    o.push_field("ID", Scalar::Str(row_id.to_owned()));
    proof {
        assert(o.deep_view() =~= push_delete_spec(row_id@));
    }
    o
}

/// What pushing one change-log entry yields: the legacy record, or why the
/// entry cannot be emitted. An upsert entry needs its row present and
/// carriable on the wire; a delete entry never looks the row up.
pub open spec fn push_entry_spec(s: StoreV, e: ChangelogRowV) -> Result<PushRecordV, PushError> {
    match e.row_action {
        ChangelogAction::Delete => Ok(
            PushRecordV {
                table_name: legacy_table_name_spec(e.table_name),
                record_id: e.row_id,
                data: push_delete_spec(e.row_id),
            },
        ),
        ChangelogAction::Upsert => match e.table_name {
            ChangelogTableName::InvoiceLine => if !s.invoice_lines.contains_key(e.row_id) {
                Err(PushError::RowNotFound)
            } else {
                Ok(
                    PushRecordV {
                        table_name: legacy_table_name_spec(e.table_name),
                        record_id: e.row_id,
                        data: push_trans_line_spec(s.invoice_lines[e.row_id]),
                    },
                )
            },
            ChangelogTableName::NameStoreJoin => if !s.name_store_joins.contains_key(e.row_id) {
                Err(PushError::RowNotFound)
            } else {
                Ok(
                    PushRecordV {
                        table_name: legacy_table_name_spec(e.table_name),
                        record_id: e.row_id,
                        data: push_name_store_join_spec(s.name_store_joins[e.row_id]),
                    },
                )
            },
        },
    }
}

/// What pushing a list of entries yields: one record per entry in order, or
/// the first failure.
pub open spec fn push_all_spec(s: StoreV, es: Seq<ChangelogRowV>) -> Result<
    Seq<PushRecordV>,
    PushError,
>
    decreases es.len(),
{
    if es.len() == 0 {
        Ok(Seq::empty())
    } else {
        match push_all_spec(s, es.drop_last()) {
            Err(e) => Err(e),
            Ok(recs) => match push_entry_spec(s, es.last()) {
                Err(e) => Err(e),
                Ok(rec) => Ok(recs.push(rec)),
            },
        }
    }
}

/// Whether every invoice line of the store can be carried on the legacy
/// wire.
pub open spec fn store_push_wf(s: StoreV) -> bool {
    forall|id: Seq<char>|
        s.invoice_lines.contains_key(id) ==> line_push_wf(#[trigger] s.invoice_lines[id])
}

/// Translate change-log entries into outbound legacy records, one per
/// entry, in sequence order.
pub fn translate_changelogs_to_push_records(
    store: &NormalizedStore,
    changelogs: &Vec<ChangelogRow>,
) -> (r: Result<Vec<PushRecord>, PushError>)
    requires
        store.wf(),
        store_push_wf(store@),
    ensures
        match r {
            Ok(recs) => push_all_spec(store@, changelogs.deep_view()) == Ok::<_, PushError>(
                recs.deep_view(),
            ),
            Err(e) => push_all_spec(store@, changelogs.deep_view()) == Err::<Seq<PushRecordV>, _>(
                e,
            ),
        },
{
    let ghost edv = changelogs.deep_view();
    let mut out: Vec<PushRecord> = Vec::new();
    let n = changelogs.len();
    let mut i: usize = 0;
    proof {
        assert(edv.take(0) =~= Seq::<ChangelogRowV>::empty());
        assert(out.deep_view() =~= Seq::<PushRecordV>::empty());
    }
    while i < n
        invariant
            i <= n,
            n == changelogs@.len(),
            edv == changelogs.deep_view(),
            store.wf(),
            store_push_wf(store@),
            push_all_spec(store@, edv.take(i as int)) == Ok::<_, PushError>(out.deep_view()),
        decreases n - i,
    {
        proof {
            assert(edv.take(i as int + 1).drop_last() =~= edv.take(i as int));
            assert(edv.take(i as int + 1).last() == edv[i as int]);
            assert(changelogs@[i as int].deep_view() == edv[i as int]);
        }
        let entry = &changelogs[i];
        let rec = match push_changelog_entry(store, entry) {
            Ok(rec) => rec,
            Err(e) => {
                proof {
                    lemma_push_all_error_stable(store@, edv, i as int + 1);
                }
                return Err(e);
            },
        };
        let ghost prev_out = out.deep_view();
        let ghost rec_dv = rec.deep_view();
        out.push(rec);
        proof {
            assert(out.deep_view() =~= prev_out.push(rec_dv));
        }
        i += 1;
    }
    proof {
        assert(edv.take(n as int) =~= edv);
    }
    Ok(out)
}

/// Once pushing a prefix has failed, the entries after the failing one do
/// not change the outcome.
proof fn lemma_push_all_error_stable(s: StoreV, es: Seq<ChangelogRowV>, k: int)
    requires
        0 <= k <= es.len(),
        push_all_spec(s, es.take(k)) is Err,
    ensures
        push_all_spec(s, es) == push_all_spec(s, es.take(k)),
    decreases es.len() - k,
{
    if k == es.len() {
        assert(es.take(k) =~= es);
    } else {
        assert(es.take(k + 1).drop_last() =~= es.take(k));
        assert(es.take(k + 1).last() == es[k]);
        lemma_push_all_error_stable(s, es, k + 1);
    }
}

/// Push one change-log entry: look the row up for an upsert, emit the
/// minimal payload for a delete.
pub fn push_changelog_entry(store: &NormalizedStore, entry: &ChangelogRow) -> (r: Result<
    PushRecord,
    PushError,
>)
    requires
        store.wf(),
        store_push_wf(store@),
    ensures
        match r {
            Ok(rec) => push_entry_spec(store@, entry.deep_view()) == Ok::<_, PushError>(
                rec.deep_view(),
            ),
            Err(e) => push_entry_spec(store@, entry.deep_view()) == Err::<PushRecordV, _>(e),
        },
{
    let table_name = table_name_to_central(&entry.table_name).to_owned();
    match entry.row_action {
        ChangelogAction::Delete => Ok(
            PushRecord {
                table_name,
                record_id: entry.row_id.clone(),
                data: push_delete(entry.row_id.as_str()),
            },
        ),
        ChangelogAction::Upsert => match entry.table_name {
            ChangelogTableName::InvoiceLine => match store.get_invoice_line(
                entry.row_id.as_str(),
            ) {
                None => Err(PushError::RowNotFound),
                Some(row) => Ok(
                    PushRecord {
                        table_name,
                        record_id: entry.row_id.clone(),
                        data: push_trans_line(row),
                    },
                ),
            },
            ChangelogTableName::NameStoreJoin => match store.get_name_store_join(
                entry.row_id.as_str(),
            ) {
                None => Err(PushError::RowNotFound),
                Some(row) => Ok(
                    PushRecord {
                        table_name,
                        record_id: entry.row_id.clone(),
                        data: push_name_store_join(row),
                    },
                ),
            },
        },
    }
}

} // verus!
