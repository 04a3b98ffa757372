//! The library's stated laws: what holds of dispatch, integration and the
//! push path over every input, proved once and for all.

use vstd::prelude::*;

use crate::buffer::PayloadV;
use crate::buffer::SyncBufferRowV;
use crate::errors::ProcessingOutcome;
use crate::errors::RepositoryError;
use crate::errors::TranslationError;
use crate::integrate::apply_batch_spec;
use crate::integrate::apply_upsert_to;
use crate::integrate::upsert_fk_ok;
use crate::name_store_join::legacy_nsj_of;
use crate::name_store_join::nsj_table_name;
use crate::pull::dispatch_list_spec;
use crate::pull::dispatch_spec;
use crate::pull::registry;
use crate::pull::IntegrationRecordV;
use crate::pull::IntegrationUpsertRecordV;
use crate::pull::RemotePullTranslation;
use crate::pull::Translator;
use crate::store::StoreV;
use crate::trans_line::trans_line_fields_of;
use crate::trans_line::trans_line_row_spec;
use crate::trans_line::trans_line_table_name;
use crate::trans_line::line_type_of;
use crate::translation_and_integration::bump_error;
use crate::translation_and_integration::bump_success;
use crate::translation_and_integration::process_record_spec;
use crate::translation_and_integration::run_spec;
use crate::translation_and_integration::CountersV;

verus! {

/// The two registered legacy table names differ.
proof fn lemma_table_names_differ()
    ensures
        nsj_table_name() != trans_line_table_name(),
{
    reveal_strlit("name_store_join");
    reveal_strlit("trans_line");
    assert(nsj_table_name().len() == 15);
    assert(trans_line_table_name().len() == 10);
}

/// The registry's documented order, as dispatch observes it: the
/// name-store-join translator is asked first, the transaction-line
/// translator second, and the first claim or error wins.
pub proof fn lemma_dispatch_unfold(s: StoreV, rec: SyncBufferRowV)
    ensures
        dispatch_spec(s, rec) == match (Translator::NameStoreJoin(
            crate::name_store_join::NameStoreJoinTranslation {  },
        )).pull_spec(s, rec) {
            Err(e) => Err::<Option<IntegrationRecordV>, TranslationError>(e),
            Ok(Some(r)) => Ok(Some(r)),
            Ok(None) => match (Translator::TransLine(
                crate::trans_line::TransLineTranslation {  },
            )).pull_spec(s, rec) {
                Err(e) => Err(e),
                Ok(Some(r)) => Ok(Some(r)),
                Ok(None) => Ok(None),
            },
        },
{
    reveal_with_fuel(dispatch_list_spec, 4);
    let ts = registry();
    assert(ts.drop_first() =~= seq![
        Translator::TransLine(crate::trans_line::TransLineTranslation {  }),
    ]);
    assert(ts.drop_first().drop_first() =~= Seq::<Translator>::empty());
    assert(dispatch_list_spec(Seq::<Translator>::empty(), s, rec) == Ok::<
        Option<IntegrationRecordV>,
        TranslationError,
    >(None));
    assert(ts[0] == Translator::NameStoreJoin(
        crate::name_store_join::NameStoreJoinTranslation {},
    ));
    assert(ts.drop_first()[0] == Translator::TransLine(
        crate::trans_line::TransLineTranslation {},
    ));
}

/// A record of a legacy table no translator is registered for is never
/// claimed and never an error.
pub proof fn lemma_unknown_table_unclaimed(s: StoreV, rec: SyncBufferRowV)
    requires
        rec.table_name != nsj_table_name(),
        rec.table_name != trans_line_table_name(),
    ensures
        dispatch_spec(s, rec) == Ok::<Option<IntegrationRecordV>, TranslationError>(None),
{
    lemma_dispatch_unfold(s, rec);
}

/// An unclaimed record changes nothing: the store and the counters stay as
/// they were, and the recorded outcome says so. No partial row is written.
pub proof fn lemma_unclaimed_leaves_store(s: StoreV, counters: CountersV, rec: SyncBufferRowV)
    requires
        dispatch_spec(s, rec) == Ok::<Option<IntegrationRecordV>, TranslationError>(None),
    ensures
        process_record_spec(s, counters, rec) == (s, counters, ProcessingOutcome::Unclaimed),
{
}

/// A `name_store_join` record whose referenced name is absent from the
/// schema is unclaimed, not an error, and therefore writes nothing.
pub proof fn lemma_nsj_missing_dependency_unclaimed(
    s: StoreV,
    counters: CountersV,
    rec: SyncBufferRowV,
    o: crate::legacy::ObjectV,
)
    requires
        rec.table_name == nsj_table_name(),
        rec.data == PayloadV::Object(o),
        legacy_nsj_of(o) matches Some(data) && !s.names.contains_key(data.name_ID),
    ensures
        dispatch_spec(s, rec) == Ok::<Option<IntegrationRecordV>, TranslationError>(None),
        process_record_spec(s, counters, rec) == (s, counters, ProcessingOutcome::Unclaimed),
{
    lemma_table_names_differ();
    lemma_dispatch_unfold(s, rec);
}

/// A `trans_line` record whose referenced item is absent from the schema is
/// unclaimed, not an error, and therefore writes nothing.
pub proof fn lemma_trans_line_missing_dependency_unclaimed(
    s: StoreV,
    counters: CountersV,
    rec: SyncBufferRowV,
    o: crate::legacy::ObjectV,
)
    requires
        rec.table_name == trans_line_table_name(),
        rec.data == PayloadV::Object(o),
        trans_line_fields_of(o) matches Some(f) && line_type_of(f.line_type) is Some
            && !s.items.contains_key(f.item_id),
    ensures
        dispatch_spec(s, rec) == Ok::<Option<IntegrationRecordV>, TranslationError>(None),
        process_record_spec(s, counters, rec) == (s, counters, ProcessingOutcome::Unclaimed),
{
    lemma_table_names_differ();
    lemma_dispatch_unfold(s, rec);
}

/// A record claimed by a translator, all of whose upserts apply, is marked
/// `Integrated`; the store afterwards is the batch applied, and the
/// record's table gains one success.
pub proof fn lemma_claimed_record_integrates(
    s: StoreV,
    counters: CountersV,
    rec: SyncBufferRowV,
    irec: IntegrationRecordV,
)
    requires
        dispatch_spec(s, rec) == Ok::<Option<IntegrationRecordV>, TranslationError>(Some(irec)),
        apply_batch_spec(s, irec.upserts).1 is None,
    ensures
        process_record_spec(s, counters, rec) == (
            apply_batch_spec(s, irec.upserts).0,
            bump_success(counters, rec.table_name),
            ProcessingOutcome::Integrated,
        ),
{
}

/// A claimed `trans_line` record whose mapped row applies lands that exact
/// row — the documented field mapping — in the schema under its id.
pub proof fn lemma_trans_line_integrates(
    s: StoreV,
    counters: CountersV,
    rec: SyncBufferRowV,
    o: crate::legacy::ObjectV,
    row: crate::rows::InvoiceLineRowV,
)
    requires
        rec.table_name == trans_line_table_name(),
        rec.data == PayloadV::Object(o),
        trans_line_fields_of(o) matches Some(f) && line_type_of(f.line_type) matches Some(t)
            && trans_line_row_spec(s, f, t) == Ok::<Option<crate::rows::InvoiceLineRowV>,
        TranslationError>(Some(row)),
        upsert_fk_ok(s, IntegrationUpsertRecordV::InvoiceLine(row)),
    ensures
        ({
            let stepped = process_record_spec(s, counters, rec);
            &&& stepped.2 == ProcessingOutcome::Integrated
            &&& stepped.0.invoice_lines.contains_key(row.id)
            &&& stepped.0.invoice_lines[row.id] == row
            &&& stepped.1 == bump_success(counters, rec.table_name)
        }),
{
    lemma_table_names_differ();
    lemma_dispatch_unfold(s, rec);
    let ups = seq![IntegrationUpsertRecordV::InvoiceLine(row)];
    assert(ups.drop_last() =~= Seq::<IntegrationUpsertRecordV>::empty());
    assert(apply_batch_spec(s, Seq::<IntegrationUpsertRecordV>::empty()) == (
        s,
        None::<RepositoryError>,
    ));
    assert(ups.last() == IntegrationUpsertRecordV::InvoiceLine(row));
    assert(apply_batch_spec(s, ups).1 is None);
}

/// Processing decomposes over concatenation: a batch runs as its first part
/// followed by its second, each record against the store the ones before it
/// left.
pub proof fn lemma_run_concat(
    s: StoreV,
    counters: CountersV,
    xs: Seq<SyncBufferRowV>,
    ys: Seq<SyncBufferRowV>,
)
    ensures
        ({
            let a = run_spec(s, counters, xs);
            let b = run_spec(a.0, a.1, ys);
            run_spec(s, counters, xs + ys) == (b.0, b.1, a.2 + b.2)
        }),
    decreases ys.len(),
{
    let a = run_spec(s, counters, xs);
    if ys.len() == 0 {
        assert(xs + ys =~= xs);
        assert(a.2 + run_spec(a.0, a.1, ys).2 =~= a.2);
    } else {
        assert((xs + ys).drop_last() =~= xs + ys.drop_last());
        lemma_run_concat(s, counters, xs, ys.drop_last());
        let b1 = run_spec(a.0, a.1, ys.drop_last());
        assert((xs + ys).last() == ys.last());
        let step = process_record_spec(b1.0, b1.1, ys.last());
        assert(a.2 + b1.2.push(step.2) =~= (a.2 + b1.2).push(step.2));
    }
}

/// Per-record fault isolation: a batch that opens with a structurally
/// invalid record runs exactly as the batch without it, except that the bad
/// record is marked with a translation error and one error is counted
/// against its table. The records after it are untouched by it.
pub proof fn lemma_translation_error_isolated(
    s: StoreV,
    counters: CountersV,
    bad: SyncBufferRowV,
    rest: Seq<SyncBufferRowV>,
    e: TranslationError,
)
    requires
        dispatch_spec(s, bad) == Err::<Option<IntegrationRecordV>, TranslationError>(e),
    ensures
        ({
            let full = run_spec(s, counters, seq![bad] + rest);
            let tail = run_spec(s, bump_error(counters, bad.table_name), rest);
            &&& full.0 == tail.0
            &&& full.1 == tail.1
            &&& full.2 == seq![ProcessingOutcome::TranslationError(e)] + tail.2
        }),
{
    let one = seq![bad];
    assert(one.drop_last() =~= Seq::<SyncBufferRowV>::empty());
    assert(run_spec(s, counters, Seq::<SyncBufferRowV>::empty()) == (
        s,
        counters,
        Seq::<ProcessingOutcome>::empty(),
    ));
    assert(one.last() == bad);
    let a = run_spec(s, counters, one);
    assert(a.0 == s && a.1 == bump_error(counters, bad.table_name));
    assert(a.2 =~= seq![ProcessingOutcome::TranslationError(e)]);
    lemma_run_concat(s, counters, one, rest);
}

/// A claimed `name_store_join` record whose mapped row applies lands that
/// exact row — the documented field mapping, with extension fields
/// overriding the name's flags — in the schema under its id.
pub proof fn lemma_nsj_integrates(
    s: StoreV,
    counters: CountersV,
    rec: SyncBufferRowV,
    o: crate::legacy::ObjectV,
)
    requires
        rec.table_name == nsj_table_name(),
        rec.data == PayloadV::Object(o),
        legacy_nsj_of(o) matches Some(data) && (s.names.contains_key(data.name_ID)
            && upsert_fk_ok(
            s,
            IntegrationUpsertRecordV::NameStoreJoin(
                crate::name_store_join::nsj_row_spec(data, s.names[data.name_ID]),
            ),
        )),
    ensures
        ({
            let data = legacy_nsj_of(o).unwrap();
            let row = crate::name_store_join::nsj_row_spec(data, s.names[data.name_ID]);
            let stepped = process_record_spec(s, counters, rec);
            &&& stepped.2 == ProcessingOutcome::Integrated
            &&& stepped.0.name_store_joins.contains_key(row.id)
            &&& stepped.0.name_store_joins[row.id] == row
            &&& stepped.1 == bump_success(counters, rec.table_name)
        }),
{
    lemma_table_names_differ();
    lemma_dispatch_unfold(s, rec);
    let data = legacy_nsj_of(o).unwrap();
    let row = crate::name_store_join::nsj_row_spec(data, s.names[data.name_ID]);
    let ups = seq![IntegrationUpsertRecordV::NameStoreJoin(row)];
    assert(ups.drop_last() =~= Seq::<IntegrationUpsertRecordV>::empty());
    assert(apply_batch_spec(s, Seq::<IntegrationUpsertRecordV>::empty()) == (
        s,
        None::<RepositoryError>,
    ));
    assert(ups.last() == IntegrationUpsertRecordV::NameStoreJoin(row));
    assert(apply_batch_spec(s, ups).1 is None);
}

/// Round trip for `name_store_join`: a normalized join row pushed into its
/// legacy payload and pulled back through dispatch yields the row again,
/// field for field, whenever the referenced name is present. The pushed
/// extension fields carry the flags, so no store default can creep in.
pub proof fn lemma_nsj_round_trip(s: StoreV, row: crate::rows::NameStoreJoinRowV, rec: SyncBufferRowV)
    requires
        s.names.contains_key(row.name_id),
        rec.table_name == nsj_table_name(),
        rec.data == PayloadV::Object(crate::push::push_name_store_join_spec(row)),
    ensures
        dispatch_spec(s, rec) == Ok::<Option<IntegrationRecordV>, TranslationError>(
            Some(
                IntegrationRecordV {
                    upserts: seq![IntegrationUpsertRecordV::NameStoreJoin(row)],
                },
            ),
        ),
{
    lemma_table_names_differ();
    lemma_dispatch_unfold(s, rec);
    reveal_strlit("ID");
    reveal_strlit("store_ID");
    reveal_strlit("name_ID");
    reveal_strlit("om_name_is_customer");
    reveal_strlit("om_name_is_supplier");
    assert("ID"@.len() == 2);
    assert("store_ID"@.len() == 8);
    assert("name_ID"@.len() == 7);
    assert("om_name_is_customer"@.len() == 19);
    assert("om_name_is_supplier"@.len() == 19);
    assert("om_name_is_customer"@[11] == 'c');
    assert("om_name_is_supplier"@[11] == 's');
    let o = crate::push::push_name_store_join_spec(row);
    crate::legacy::lemma_lookup_at(o, "ID"@, 0);
    crate::legacy::lemma_lookup_at(o, "store_ID"@, 1);
    crate::legacy::lemma_lookup_at(o, "name_ID"@, 2);
    crate::legacy::lemma_lookup_at(o, "om_name_is_customer"@, 3);
    crate::legacy::lemma_lookup_at(o, "om_name_is_supplier"@, 4);
    assert(legacy_nsj_of(o) matches Some(data) && data.name_ID == row.name_id);
    let t = Translator::NameStoreJoin(crate::name_store_join::NameStoreJoinTranslation {});
    assert(t.pull_spec(s, rec) matches Ok(Some(irec)) && irec.upserts =~= seq![
        IntegrationUpsertRecordV::NameStoreJoin(row),
    ]);
}

/// Round trip for `trans_line`: a normalized invoice line pushed into its
/// legacy payload and pulled back through dispatch yields the row again,
/// field for field, whenever the referenced item is present, the row is
/// carriable on the wire, and no optional field is the empty string the
/// wire cannot distinguish from "absent".
pub proof fn lemma_trans_line_round_trip(
    s: StoreV,
    row: crate::rows::InvoiceLineRowV,
    rec: SyncBufferRowV,
)
    requires
        s.items.contains_key(row.item_id),
        crate::push::line_push_wf(row),
        row.item_code.len() > 0,
        row.stock_line_id != Some(Seq::<char>::empty()),
        row.location_id != Some(Seq::<char>::empty()),
        row.batch != Some(Seq::<char>::empty()),
        row.note != Some(Seq::<char>::empty()),
        rec.table_name == trans_line_table_name(),
        rec.data == PayloadV::Object(crate::push::push_trans_line_spec(row)),
    ensures
        dispatch_spec(s, rec) == Ok::<Option<IntegrationRecordV>, TranslationError>(
            Some(
                IntegrationRecordV {
                    upserts: seq![IntegrationUpsertRecordV::InvoiceLine(row)],
                },
            ),
        ),
{
    lemma_table_names_differ();
    lemma_dispatch_unfold(s, rec);
    reveal_strlit("ID");
    reveal_strlit("transaction_ID");
    reveal_strlit("item_ID");
    reveal_strlit("item_name");
    reveal_strlit("item_line_ID");
    reveal_strlit("location_ID");
    reveal_strlit("batch");
    reveal_strlit("expiry_date");
    reveal_strlit("pack_size");
    reveal_strlit("cost_price");
    reveal_strlit("sell_price");
    reveal_strlit("type");
    reveal_strlit("quantity");
    reveal_strlit("note");
    reveal_strlit("om_item_code");
    reveal_strlit("om_tax");
    reveal_strlit("om_total_before_tax");
    reveal_strlit("om_total_after_tax");
    reveal_strlit("stock_in");
    reveal_strlit("stock_out");
    assert("ID"@.len() == 2);
    assert("transaction_ID"@.len() == 14);
    assert("item_ID"@.len() == 7);
    assert("item_name"@.len() == 9);
    assert("item_line_ID"@.len() == 12);
    assert("location_ID"@.len() == 11);
    assert("batch"@.len() == 5);
    assert("expiry_date"@.len() == 11);
    assert("pack_size"@.len() == 9);
    assert("cost_price"@.len() == 10);
    assert("sell_price"@.len() == 10);
    assert("type"@.len() == 4);
    assert("quantity"@.len() == 8);
    assert("note"@.len() == 4);
    assert("om_item_code"@.len() == 12);
    assert("om_tax"@.len() == 6);
    assert("om_total_before_tax"@.len() == 19);
    assert("om_total_after_tax"@.len() == 18);
    assert("item_name"@[0] == 'i' && "pack_size"@[0] == 'p');
    assert("location_ID"@[0] == 'l' && "expiry_date"@[0] == 'e');
    assert("item_line_ID"@[0] == 'i' && "om_item_code"@[0] == 'o');
    assert("cost_price"@[0] == 'c' && "sell_price"@[0] == 's');
    assert("type"@[0] == 't' && "note"@[0] == 'n');
    let o = crate::push::push_trans_line_spec(row);
    crate::legacy::lemma_lookup_at(o, "ID"@, 0);
    crate::legacy::lemma_lookup_at(o, "transaction_ID"@, 1);
    crate::legacy::lemma_lookup_at(o, "item_ID"@, 2);
    crate::legacy::lemma_lookup_at(o, "item_name"@, 3);
    crate::legacy::lemma_lookup_at(o, "item_line_ID"@, 4);
    crate::legacy::lemma_lookup_at(o, "location_ID"@, 5);
    crate::legacy::lemma_lookup_at(o, "batch"@, 6);
    crate::legacy::lemma_lookup_at(o, "expiry_date"@, 7);
    crate::legacy::lemma_lookup_at(o, "pack_size"@, 8);
    crate::legacy::lemma_lookup_at(o, "cost_price"@, 9);
    crate::legacy::lemma_lookup_at(o, "sell_price"@, 10);
    crate::legacy::lemma_lookup_at(o, "type"@, 11);
    crate::legacy::lemma_lookup_at(o, "quantity"@, 12);
    crate::legacy::lemma_lookup_at(o, "note"@, 13);
    crate::legacy::lemma_lookup_at(o, "om_item_code"@, 14);
    crate::legacy::lemma_lookup_at(o, "om_tax"@, 15);
    crate::legacy::lemma_lookup_at(o, "om_total_before_tax"@, 16);
    crate::legacy::lemma_lookup_at(o, "om_total_after_tax"@, 17);
    // Optional strings pushed as `Some` are non-empty, so the wire reads
    // them back as `Some`.
    match row.stock_line_id {
        Some(v) => {
            if v.len() == 0 {
                assert(v =~= Seq::<char>::empty());
            }
        },
        None => {},
    }
    match row.location_id {
        Some(v) => {
            if v.len() == 0 {
                assert(v =~= Seq::<char>::empty());
            }
        },
        None => {},
    }
    match row.batch {
        Some(v) => {
            if v.len() == 0 {
                assert(v =~= Seq::<char>::empty());
            }
        },
        None => {},
    }
    match row.note {
        Some(v) => {
            if v.len() == 0 {
                assert(v =~= Seq::<char>::empty());
            }
        },
        None => {},
    }
    // A pushed date is never empty, never the all-zero sentinel, and parses
    // back to itself.
    match row.expiry_date {
        Some(d) => {
            crate::date::lemma_date_chars_not_sentinel(d);
            crate::date::lemma_date_round_trip(d);
        },
        None => {},
    }
    // Whole counts scaled to hundredths read back exactly.
    assert(100 * row.pack_size % 100 == 0 && 100 * row.pack_size / 100 == row.pack_size);
    assert(100 * row.number_of_packs % 100 == 0 && 100 * row.number_of_packs / 100
        == row.number_of_packs);
    assert("stock_in"@.len() == 8);
    assert("stock_out"@.len() == 9);
    assert(crate::trans_line::line_type_of(crate::trans_line::line_type_str(row.line_type))
        == Some(row.line_type));
    assert(crate::trans_line::trans_line_fields_of(o) matches Some(f) && (f.item_id
        == row.item_id && (trans_line_row_spec(s, f, row.line_type) matches Ok(Some(rr)) && rr
        =~= row)));
    let t = Translator::TransLine(crate::trans_line::TransLineTranslation {});
    assert(t.pull_spec(s, rec) matches Ok(Some(irec)) && irec.upserts =~= seq![
        IntegrationUpsertRecordV::InvoiceLine(row),
    ]);
}

/// The table an upsert writes to.
pub enum TableKind {
    Units,
    Items,
    Names,
    Stores,
    StockLines,
    Invoices,
    InvoiceLines,
    NameStoreJoins,
}

/// The table and key an upsert writes.
pub open spec fn upsert_target(u: IntegrationUpsertRecordV) -> (TableKind, Seq<char>) {
    match u {
        IntegrationUpsertRecordV::Unit(r) => (TableKind::Units, r.id),
        IntegrationUpsertRecordV::Item(r) => (TableKind::Items, r.id),
        IntegrationUpsertRecordV::Name(r) => (TableKind::Names, r.id),
        IntegrationUpsertRecordV::Store(r) => (TableKind::Stores, r.id),
        IntegrationUpsertRecordV::StockLine(r) => (TableKind::StockLines, r.id),
        IntegrationUpsertRecordV::Invoice(r) => (TableKind::Invoices, r.id),
        IntegrationUpsertRecordV::InvoiceLine(r) => (TableKind::InvoiceLines, r.id),
        IntegrationUpsertRecordV::NameStoreJoin(r) => (TableKind::NameStoreJoins, r.id),
    }
}

/// No two upserts write the same row.
pub open spec fn distinct_targets(us: Seq<IntegrationUpsertRecordV>) -> bool {
    forall|i: int, j: int|
        0 <= i < j < us.len() ==> upsert_target(us[i]) != upsert_target(us[j])
}

/// The store already holds exactly the row an upsert writes.
pub open spec fn store_reflects(s: StoreV, u: IntegrationUpsertRecordV) -> bool {
    match u {
        IntegrationUpsertRecordV::Unit(r) => s.units.contains_key(r.id) && s.units[r.id] == r,
        IntegrationUpsertRecordV::Item(r) => s.items.contains_key(r.id) && s.items[r.id] == r,
        IntegrationUpsertRecordV::Name(r) => s.names.contains_key(r.id) && s.names[r.id] == r,
        IntegrationUpsertRecordV::Store(r) => s.stores.contains_key(r.id) && s.stores[r.id] == r,
        IntegrationUpsertRecordV::StockLine(r) => s.stock_lines.contains_key(r.id)
            && s.stock_lines[r.id] == r,
        IntegrationUpsertRecordV::Invoice(r) => s.invoices.contains_key(r.id)
            && s.invoices[r.id] == r,
        IntegrationUpsertRecordV::InvoiceLine(r) => s.invoice_lines.contains_key(r.id)
            && s.invoice_lines[r.id] == r,
        IntegrationUpsertRecordV::NameStoreJoin(r) => s.name_store_joins.contains_key(r.id)
            && s.name_store_joins[r.id] == r,
    }
}

/// Every table of `s` has all its keys in `t`.
pub open spec fn dom_superset(t: StoreV, s: StoreV) -> bool {
    &&& s.units.dom().subset_of(t.units.dom())
    &&& s.items.dom().subset_of(t.items.dom())
    &&& s.names.dom().subset_of(t.names.dom())
    &&& s.stores.dom().subset_of(t.stores.dom())
    &&& s.stock_lines.dom().subset_of(t.stock_lines.dom())
    &&& s.invoices.dom().subset_of(t.invoices.dom())
    &&& s.invoice_lines.dom().subset_of(t.invoice_lines.dom())
    &&& s.name_store_joins.dom().subset_of(t.name_store_joins.dom())
}

/// Upserting never removes a key.
proof fn lemma_apply_to_dom_grows(s: StoreV, u: IntegrationUpsertRecordV)
    ensures
        dom_superset(apply_upsert_to(s, u), s),
{
}

/// Referential checks look at keys alone, so they survive growth.
proof fn lemma_fk_monotone(s: StoreV, t: StoreV, u: IntegrationUpsertRecordV)
    requires
        upsert_fk_ok(s, u),
        dom_superset(t, s),
    ensures
        upsert_fk_ok(t, u),
{
}

/// After a batch applies cleanly, the final store dominates the initial
/// one and satisfies every upsert's referential checks.
proof fn lemma_batch_ok_final_facts(s: StoreV, us: Seq<IntegrationUpsertRecordV>)
    requires
        apply_batch_spec(s, us).1 is None,
    ensures
        dom_superset(apply_batch_spec(s, us).0, s),
        forall|i: int|
            0 <= i < us.len() ==> upsert_fk_ok(apply_batch_spec(s, us).0, #[trigger] us[i]),
    decreases us.len(),
{
    if us.len() > 0 {
        let xs = us.drop_last();
        let x = us.last();
        lemma_batch_ok_final_facts(s, xs);
        let p = apply_batch_spec(s, xs).0;
        let f = apply_batch_spec(s, us).0;
        assert(f == apply_upsert_to(p, x));
        lemma_apply_to_dom_grows(p, x);
        assert forall|i: int| 0 <= i < us.len() implies upsert_fk_ok(f, #[trigger] us[i]) by {
            if i < us.len() - 1 {
                assert(xs[i] == us[i]);
                lemma_fk_monotone(p, f, us[i]);
            } else {
                lemma_fk_monotone(p, f, x);
            }
        }
    }
}

/// Writing elsewhere leaves a reflected row reflected.
proof fn lemma_reflects_preserved(
    s: StoreV,
    u: IntegrationUpsertRecordV,
    u2: IntegrationUpsertRecordV,
)
    requires
        store_reflects(s, u),
        upsert_target(u2) != upsert_target(u),
    ensures
        store_reflects(apply_upsert_to(s, u2), u),
{
}

/// After a batch with pairwise distinct targets applies cleanly, the final
/// store holds exactly the row of every upsert in it.
proof fn lemma_batch_ok_reflects(s: StoreV, us: Seq<IntegrationUpsertRecordV>)
    requires
        apply_batch_spec(s, us).1 is None,
        distinct_targets(us),
    ensures
        forall|i: int|
            0 <= i < us.len() ==> store_reflects(apply_batch_spec(s, us).0, #[trigger] us[i]),
    decreases us.len(),
{
    if us.len() > 0 {
        let xs = us.drop_last();
        let x = us.last();
        assert(forall|i: int, j: int|
            0 <= i < j < xs.len() ==> xs[i] == us[i] && xs[j] == us[j]);
        lemma_batch_ok_reflects(s, xs);
        let p = apply_batch_spec(s, xs).0;
        let f = apply_batch_spec(s, us).0;
        assert(f == apply_upsert_to(p, x));
        assert forall|i: int| 0 <= i < us.len() implies store_reflects(f, #[trigger] us[i]) by {
            if i < us.len() - 1 {
                assert(xs[i] == us[i]);
                assert(upsert_target(x) != upsert_target(us[i]));
                lemma_reflects_preserved(p, us[i], x);
            }
        }
    }
}

/// Re-writing a row the store already holds changes nothing.
proof fn lemma_apply_noop(s: StoreV, u: IntegrationUpsertRecordV)
    requires
        store_reflects(s, u),
    ensures
        apply_upsert_to(s, u) == s,
{
    match u {
        IntegrationUpsertRecordV::Unit(r) => {
            assert(s.units.insert(r.id, r) =~= s.units);
        },
        IntegrationUpsertRecordV::Item(r) => {
            assert(s.items.insert(r.id, r) =~= s.items);
        },
        IntegrationUpsertRecordV::Name(r) => {
            assert(s.names.insert(r.id, r) =~= s.names);
        },
        IntegrationUpsertRecordV::Store(r) => {
            assert(s.stores.insert(r.id, r) =~= s.stores);
        },
        IntegrationUpsertRecordV::StockLine(r) => {
            assert(s.stock_lines.insert(r.id, r) =~= s.stock_lines);
        },
        IntegrationUpsertRecordV::Invoice(r) => {
            assert(s.invoices.insert(r.id, r) =~= s.invoices);
        },
        IntegrationUpsertRecordV::InvoiceLine(r) => {
            assert(s.invoice_lines.insert(r.id, r) =~= s.invoice_lines);
        },
        IntegrationUpsertRecordV::NameStoreJoin(r) => {
            assert(s.name_store_joins.insert(r.id, r) =~= s.name_store_joins);
        },
    }
    assert(apply_upsert_to(s, u) =~= s);
}

/// A batch whose every upsert is already reflected and referentially sound
/// applies as a no-op.
proof fn lemma_batch_absorbed(t: StoreV, us: Seq<IntegrationUpsertRecordV>)
    requires
        forall|i: int| 0 <= i < us.len() ==> store_reflects(t, #[trigger] us[i]),
        forall|i: int| 0 <= i < us.len() ==> upsert_fk_ok(t, #[trigger] us[i]),
    ensures
        apply_batch_spec(t, us) == (t, None::<RepositoryError>),
    decreases us.len(),
{
    if us.len() > 0 {
        let xs = us.drop_last();
        assert(forall|i: int| 0 <= i < xs.len() ==> xs[i] == us[i]);
        lemma_batch_absorbed(t, xs);
        lemma_apply_noop(t, us.last());
    }
}

/// Idempotence at the apply level: a batch of upserts to pairwise distinct
/// rows that applied cleanly applies again, on its own result, as a no-op.
/// Upserts are keyed by stable id, so re-applying cannot corrupt state.
pub proof fn lemma_apply_batch_idempotent(s: StoreV, us: Seq<IntegrationUpsertRecordV>)
    requires
        apply_batch_spec(s, us).1 is None,
        distinct_targets(us),
    ensures
        apply_batch_spec(apply_batch_spec(s, us).0, us) == (
            apply_batch_spec(s, us).0,
            None::<RepositoryError>,
        ),
{
    lemma_batch_ok_final_facts(s, us);
    lemma_batch_ok_reflects(s, us);
    lemma_batch_absorbed(apply_batch_spec(s, us).0, us);
}

/// Applying decomposes over concatenation, the second part from the first
/// part's result; an error in the first part stops everything after it.
proof fn lemma_apply_batch_concat(
    s: StoreV,
    a: Seq<IntegrationUpsertRecordV>,
    b: Seq<IntegrationUpsertRecordV>,
)
    ensures
        apply_batch_spec(s, a + b) == if apply_batch_spec(s, a).1 is Some {
            apply_batch_spec(s, a)
        } else {
            apply_batch_spec(apply_batch_spec(s, a).0, b)
        },
    decreases b.len(),
{
    if b.len() == 0 {
        assert(a + b =~= a);
    } else {
        assert((a + b).drop_last() =~= a + b.drop_last());
        assert((a + b).last() == b.last());
        lemma_apply_batch_concat(s, a, b.drop_last());
    }
}

/// The upserts one record's dispatch claims; none when it is unclaimed or
/// in error.
pub open spec fn claimed_upserts(s: StoreV, rec: SyncBufferRowV) -> Seq<
    IntegrationUpsertRecordV,
> {
    match dispatch_spec(s, rec) {
        Ok(Some(irec)) => irec.upserts,
        _ => Seq::empty(),
    }
}

/// Every upsert a run claims, in the order the run applies them; each
/// record dispatched against the store the records before it left.
pub open spec fn run_upserts(s: StoreV, counters: CountersV, recs: Seq<SyncBufferRowV>) -> Seq<
    IntegrationUpsertRecordV,
>
    decreases recs.len(),
{
    if recs.len() == 0 {
        Seq::empty()
    } else {
        let prev = run_spec(s, counters, recs.drop_last());
        run_upserts(s, counters, recs.drop_last()) + claimed_upserts(prev.0, recs.last())
    }
}

/// Every record of the run was integrated.
pub open spec fn all_integrated(outs: Seq<ProcessingOutcome>) -> bool {
    forall|i: int| 0 <= i < outs.len() ==> outs[i] == ProcessingOutcome::Integrated
}

/// A run records one outcome per record.
proof fn lemma_run_len(s: StoreV, counters: CountersV, recs: Seq<SyncBufferRowV>)
    ensures
        run_spec(s, counters, recs).2.len() == recs.len(),
    decreases recs.len(),
{
    if recs.len() > 0 {
        lemma_run_len(s, counters, recs.drop_last());
    }
}

/// One more record processed: the run over a prefix extended by one step.
proof fn lemma_run_take_succ(s: StoreV, counters: CountersV, recs: Seq<SyncBufferRowV>, i: int)
    requires
        0 <= i < recs.len(),
    ensures
        ({
            let p = run_spec(s, counters, recs.take(i));
            let st = process_record_spec(p.0, p.1, recs[i]);
            run_spec(s, counters, recs.take(i + 1)) == (st.0, st.1, p.2.push(st.2))
        }),
{
    assert(recs.take(i + 1).drop_last() =~= recs.take(i));
    assert(recs.take(i + 1).last() == recs[i]);
}

/// Each outcome of a run is its record's own step, taken against the store
/// and counters the records before it left.
proof fn lemma_run_outcome_at(s: StoreV, counters: CountersV, recs: Seq<SyncBufferRowV>, i: int)
    requires
        0 <= i < recs.len(),
    ensures
        ({
            let p = run_spec(s, counters, recs.take(i));
            run_spec(s, counters, recs).2[i] == process_record_spec(p.0, p.1, recs[i]).2
        }),
{
    lemma_run_take_succ(s, counters, recs, i);
    assert(recs =~= recs.take(i + 1) + recs.skip(i + 1));
    lemma_run_concat(s, counters, recs.take(i + 1), recs.skip(i + 1));
    lemma_run_len(s, counters, recs.take(i));
}

/// When every record integrates, the run's store is the one big batch of
/// all claimed upserts applied in order, and that batch applies cleanly.
proof fn lemma_run_store_is_apply(s: StoreV, counters: CountersV, recs: Seq<SyncBufferRowV>)
    requires
        all_integrated(run_spec(s, counters, recs).2),
    ensures
        apply_batch_spec(s, run_upserts(s, counters, recs)) == (
            run_spec(s, counters, recs).0,
            None::<RepositoryError>,
        ),
    decreases recs.len(),
{
    if recs.len() > 0 {
        let xs = recs.drop_last();
        let x = recs.last();
        let full = run_spec(s, counters, recs);
        let prev = run_spec(s, counters, xs);
        lemma_run_len(s, counters, xs);
        assert(full.2 == prev.2.push(process_record_spec(prev.0, prev.1, x).2));
        assert(all_integrated(prev.2)) by {
            assert(forall|i: int| 0 <= i < prev.2.len() ==> full.2[i] == prev.2[i]);
        }
        lemma_run_store_is_apply(s, counters, xs);
        let step = process_record_spec(prev.0, prev.1, x);
        assert(full.2.last() == step.2);
        assert(step.2 == ProcessingOutcome::Integrated);
        let claimed = claimed_upserts(prev.0, x);
        assert(apply_batch_spec(prev.0, claimed).1 is None);
        lemma_apply_batch_concat(s, run_upserts(s, counters, xs), claimed);
    }
}

/// Every upsert one record of a run claims is among the run's upserts.
proof fn lemma_run_upserts_contains(
    s: StoreV,
    counters: CountersV,
    recs: Seq<SyncBufferRowV>,
    k: int,
)
    requires
        0 <= k < recs.len(),
    ensures
        ({
            let inter = run_spec(s, counters, recs.take(k)).0;
            forall|j: int|
                0 <= j < claimed_upserts(inter, recs[k]).len() ==> run_upserts(
                    s,
                    counters,
                    recs,
                ).contains(#[trigger] claimed_upserts(inter, recs[k])[j])
        }),
    decreases recs.len(),
{
    let u = run_upserts(s, counters, recs);
    let xs = recs.drop_last();
    let prev_ups = run_upserts(s, counters, xs);
    if k == recs.len() - 1 {
        assert(recs.take(k) =~= xs);
        let inter = run_spec(s, counters, recs.take(k)).0;
        let claimed = claimed_upserts(inter, recs[k]);
        assert(recs.last() == recs[k]);
        assert(u == prev_ups + claimed);
        assert forall|j: int| 0 <= j < claimed.len() implies u.contains(
            #[trigger] claimed[j],
        ) by {
            assert(u[prev_ups.len() + j] == claimed[j]);
        }
    } else {
        assert(xs.take(k) =~= recs.take(k));
        assert(xs[k] == recs[k]);
        lemma_run_upserts_contains(s, counters, xs, k);
        let inter = run_spec(s, counters, recs.take(k)).0;
        let claimed = claimed_upserts(inter, recs[k]);
        assert forall|j: int| 0 <= j < claimed.len() implies u.contains(
            #[trigger] claimed[j],
        ) by {
            assert(prev_ups.contains(claimed[j]));
            let w = choose|w: int| 0 <= w < prev_ups.len() && prev_ups[w] == claimed[j];
            assert(u == prev_ups + claimed_upserts(run_spec(s, counters, xs).0, recs.last()));
            assert(u[w] == prev_ups[w]);
        }
    }
}

/// Idempotence of a whole run: when every record of a batch integrated,
/// each record translates after the run as it did during it, and no two
/// claimed upserts write the same row, then running the identical batch
/// again leaves the normalized schema exactly as the first run left it —
/// and every record integrates again.
pub proof fn lemma_integrate_idempotent(
    s: StoreV,
    c0: CountersV,
    c1: CountersV,
    recs: Seq<SyncBufferRowV>,
)
    requires
        all_integrated(run_spec(s, c0, recs).2),
        distinct_targets(run_upserts(s, c0, recs)),
        forall|i: int|
            0 <= i < recs.len() ==> dispatch_spec(run_spec(s, c0, recs).0, #[trigger] recs[i])
                == dispatch_spec(run_spec(s, c0, recs.take(i)).0, recs[i]),
    ensures
        run_spec(run_spec(s, c0, recs).0, c1, recs).0 == run_spec(s, c0, recs).0,
        all_integrated(run_spec(run_spec(s, c0, recs).0, c1, recs).2),
{
    let s1 = run_spec(s, c0, recs).0;
    let u = run_upserts(s, c0, recs);
    lemma_run_store_is_apply(s, c0, recs);
    lemma_batch_ok_final_facts(s, u);
    lemma_batch_ok_reflects(s, u);
    lemma_run_len(run_spec(s, c0, recs).0, c1, recs);
    assert forall|k: int| 0 <= k <= recs.len() implies run_spec(s1, c1, recs.take(k)).0 == s1
        && all_integrated(run_spec(s1, c1, recs.take(k)).2) by {
        lemma_second_run_prefix(s, c0, c1, recs, k);
    }
    assert(recs.take(recs.len() as int) =~= recs);
}

/// The second run's prefix keeps the store at the first run's result and
/// integrates every record again.
proof fn lemma_second_run_prefix(
    s: StoreV,
    c0: CountersV,
    c1: CountersV,
    recs: Seq<SyncBufferRowV>,
    k: int,
)
    requires
        0 <= k <= recs.len(),
        all_integrated(run_spec(s, c0, recs).2),
        distinct_targets(run_upserts(s, c0, recs)),
        forall|i: int|
            0 <= i < recs.len() ==> dispatch_spec(run_spec(s, c0, recs).0, #[trigger] recs[i])
                == dispatch_spec(run_spec(s, c0, recs.take(i)).0, recs[i]),
    ensures
        run_spec(run_spec(s, c0, recs).0, c1, recs.take(k)).0 == run_spec(s, c0, recs).0,
        all_integrated(run_spec(run_spec(s, c0, recs).0, c1, recs.take(k)).2),
    decreases k,
{
    let s1 = run_spec(s, c0, recs).0;
    let u = run_upserts(s, c0, recs);
    lemma_run_store_is_apply(s, c0, recs);
    lemma_batch_ok_final_facts(s, u);
    lemma_batch_ok_reflects(s, u);
    if k == 0 {
        assert(recs.take(0) =~= Seq::<SyncBufferRowV>::empty());
    } else {
        lemma_second_run_prefix(s, c0, c1, recs, k - 1);
        let p2 = run_spec(s1, c1, recs.take(k - 1));
        lemma_run_take_succ(s1, c1, recs, k - 1);
        // What the first run decided for this record.
        lemma_run_outcome_at(s, c0, recs, k - 1);
        lemma_run_len(s, c0, recs);
        let inter = run_spec(s, c0, recs.take(k - 1)).0;
        let step1 = process_record_spec(
            inter,
            run_spec(s, c0, recs.take(k - 1)).1,
            recs[k - 1],
        );
        assert(step1.2 == ProcessingOutcome::Integrated);
        let irec_ups = claimed_upserts(inter, recs[k - 1]);
        // The record dispatches the same against the final store.
        assert(dispatch_spec(s1, recs[k - 1]) == dispatch_spec(inter, recs[k - 1]));
        // Its upserts are all among the run's, hence reflected and sound.
        lemma_run_upserts_contains(s, c0, recs, k - 1);
        assert forall|j: int| 0 <= j < irec_ups.len() implies store_reflects(
            s1,
            #[trigger] irec_ups[j],
        ) && upsert_fk_ok(s1, irec_ups[j]) by {
            assert(u.contains(irec_ups[j]));
            let w = choose|w: int| 0 <= w < u.len() && u[w] == irec_ups[j];
            assert(store_reflects(s1, u[w]));
            assert(upsert_fk_ok(s1, u[w]));
        }
        lemma_batch_absorbed(s1, irec_ups);
        lemma_run_len(s1, c1, recs.take(k - 1));
        assert(forall|i: int|
            0 <= i < k - 1 ==> run_spec(s1, c1, recs.take(k)).2[i] == run_spec(
                s1,
                c1,
                recs.take(k - 1),
            ).2[i]);
    }
}

} // verus!
