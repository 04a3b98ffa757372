//! Inbound translation: dispatching buffered records across the translator
//! registry and importing the resulting upserts.
//!
//! Dispatch tries the registered translators in a fixed, documented order;
//! the first translator to claim a record wins and dispatch stops. The
//! registry order is part of the contract: each legacy table name is claimed
//! by exactly one translator.

use vstd::prelude::*;

use crate::buffer::SyncBufferRow;
use crate::buffer::SyncBufferRowV;
use crate::errors::TranslationError;
use crate::integrate::apply_skip_spec;
use crate::name_store_join::NameStoreJoinTranslation;
use crate::rows::InvoiceLineRow;
use crate::rows::InvoiceLineRowV;
use crate::rows::InvoiceRow;
use crate::rows::InvoiceRowV;
use crate::rows::ItemRow;
use crate::rows::ItemRowV;
use crate::rows::NameRow;
use crate::rows::NameRowV;
use crate::rows::NameStoreJoinRow;
use crate::rows::NameStoreJoinRowV;
use crate::rows::StockLineRow;
use crate::rows::StockLineRowV;
use crate::rows::StoreRow;
use crate::rows::StoreRowV;
use crate::rows::UnitRow;
use crate::rows::UnitRowV;
use crate::store::NormalizedStore;
use crate::store::StoreV;
use crate::trans_line::TransLineTranslation;

verus! {

/// One normalized upsert: a closed variant type with one case per target
/// table. Exactly one variant is populated per value.
#[derive(Clone, Debug, PartialEq)]
pub enum IntegrationUpsertRecord {
    Unit(UnitRow),
    Item(ItemRow),
    Name(NameRow),
    Store(StoreRow),
    StockLine(StockLineRow),
    Invoice(InvoiceRow),
    InvoiceLine(InvoiceLineRow),
    NameStoreJoin(NameStoreJoinRow),
}

/// The value of an [`IntegrationUpsertRecord`].
#[verifier::ext_equal]
pub enum IntegrationUpsertRecordV {
    Unit(UnitRowV),
    Item(ItemRowV),
    Name(NameRowV),
    Store(StoreRowV),
    StockLine(StockLineRowV),
    Invoice(InvoiceRowV),
    InvoiceLine(InvoiceLineRowV),
    NameStoreJoin(NameStoreJoinRowV),
}

impl DeepView for IntegrationUpsertRecord {
    type V = IntegrationUpsertRecordV;

    open spec fn deep_view(&self) -> IntegrationUpsertRecordV {
        match self {
            IntegrationUpsertRecord::Unit(r) => IntegrationUpsertRecordV::Unit(r.deep_view()),
            IntegrationUpsertRecord::Item(r) => IntegrationUpsertRecordV::Item(r.deep_view()),
            IntegrationUpsertRecord::Name(r) => IntegrationUpsertRecordV::Name(r.deep_view()),
            IntegrationUpsertRecord::Store(r) => IntegrationUpsertRecordV::Store(r.deep_view()),
            IntegrationUpsertRecord::StockLine(r) => IntegrationUpsertRecordV::StockLine(
                r.deep_view(),
            ),
            IntegrationUpsertRecord::Invoice(r) => IntegrationUpsertRecordV::Invoice(
                r.deep_view(),
            ),
            IntegrationUpsertRecord::InvoiceLine(r) => IntegrationUpsertRecordV::InvoiceLine(
                r.deep_view(),
            ),
            IntegrationUpsertRecord::NameStoreJoin(r) => IntegrationUpsertRecordV::NameStoreJoin(
                r.deep_view(),
            ),
        }
    }
}

/// The ordered batch of upserts one buffered record translates into;
/// usually one, occasionally more when a legacy record fans out.
#[derive(Clone, Debug, PartialEq)]
pub struct IntegrationRecord {
    pub upserts: Vec<IntegrationUpsertRecord>,
}

/// The value of an [`IntegrationRecord`].
#[verifier::ext_equal]
pub struct IntegrationRecordV {
    pub upserts: Seq<IntegrationUpsertRecordV>,
}

impl DeepView for IntegrationRecord {
    type V = IntegrationRecordV;

    open spec fn deep_view(&self) -> IntegrationRecordV {
        IntegrationRecordV { upserts: self.upserts.deep_view() }
    }
}

impl IntegrationRecord {
    /// A batch of exactly one upsert.
    pub fn from_upsert(record: IntegrationUpsertRecord) -> (r: Self)
        ensures
            r.deep_view().upserts =~= seq![record.deep_view()],
    {
        let ghost dv = record.deep_view();
        let mut upserts: Vec<IntegrationUpsertRecord> = Vec::new();
        upserts.push(record);
        proof {
            assert(upserts.deep_view() =~= seq![dv]);
        }
        IntegrationRecord { upserts }
    }
}

/// The value of a pull-translation result.
pub open spec fn pull_result_dv(r: Result<Option<IntegrationRecord>, TranslationError>) -> Result<
    Option<IntegrationRecordV>,
    TranslationError,
> {
    match r {
        Ok(Some(rec)) => Ok(Some(rec.deep_view())),
        Ok(None) => Ok(None),
        Err(e) => Err(e),
    }
}

/// A per-table-shape translator from the legacy wire format into normalized
/// upserts.
///
/// A translator returns `Ok(None)` promptly when the record's table name is
/// not its own, and also when a dependency the record references has not
/// arrived (the record is then unclaimed, not an error). It returns `Err`
/// only when it claims the record and finds the payload structurally
/// invalid.
pub trait RemotePullTranslation: Sized {
    /// What this translator yields on every store and record.
    spec fn pull_spec(&self, store: StoreV, record: SyncBufferRowV) -> Result<
        Option<IntegrationRecordV>,
        TranslationError,
    >;

    /// Translate one buffered record, claiming it or passing.
    fn try_translate_pull(&self, store: &NormalizedStore, record: &SyncBufferRow) -> (r: Result<
        Option<IntegrationRecord>,
        TranslationError,
    >)
        requires
            store.wf(),
        ensures
            pull_result_dv(r) == self.pull_spec(store@, record.deep_view()),
    ;
}

/// One entry of the translator registry.
#[derive(Clone, Copy)]
pub enum Translator {
    NameStoreJoin(NameStoreJoinTranslation),
    TransLine(TransLineTranslation),
}

impl RemotePullTranslation for Translator {
    open spec fn pull_spec(&self, store: StoreV, record: SyncBufferRowV) -> Result<
        Option<IntegrationRecordV>,
        TranslationError,
    > {
        match self {
            Translator::NameStoreJoin(t) => t.pull_spec(store, record),
            Translator::TransLine(t) => t.pull_spec(store, record),
        }
    }

    fn try_translate_pull(&self, store: &NormalizedStore, record: &SyncBufferRow) -> (r: Result<
        Option<IntegrationRecord>,
        TranslationError,
    >) {
        match self {
            Translator::NameStoreJoin(t) => t.try_translate_pull(store, record),
            Translator::TransLine(t) => t.try_translate_pull(store, record),
        }
    }
}

/// The registry value: name-store joins first, then transaction lines.
pub open spec fn registry() -> Seq<Translator> {
    seq![
        Translator::NameStoreJoin(NameStoreJoinTranslation {  }),
        Translator::TransLine(TransLineTranslation {  }),
    ]
}

/// The translator registry, in its fixed, documented order.
///
/// Order is a correctness-relevant part of the contract: the first
/// translator to claim a record wins. Each legacy table name is claimed by
/// exactly one registered translator:
/// `"name_store_join"` by [`NameStoreJoinTranslation`],
/// `"trans_line"` by [`TransLineTranslation`].
pub fn all_translators() -> (r: Vec<Translator>)
    ensures
        r@ =~= registry(),
{
    let mut v: Vec<Translator> = Vec::new();
    v.push(Translator::NameStoreJoin(NameStoreJoinTranslation {}));
    v.push(Translator::TransLine(TransLineTranslation {}));
    v
}

/// What trying a translator list in order yields: the first claim or error
/// wins; a list that never claims leaves the record unclaimed.
pub open spec fn dispatch_list_spec(
    translators: Seq<Translator>,
    store: StoreV,
    record: SyncBufferRowV,
) -> Result<Option<IntegrationRecordV>, TranslationError>
    decreases translators.len(),
{
    if translators.len() == 0 {
        Ok(None)
    } else {
        match translators[0].pull_spec(store, record) {
            Err(e) => Err(e),
            Ok(Some(rec)) => Ok(Some(rec)),
            Ok(None) => dispatch_list_spec(translators.drop_first(), store, record),
        }
    }
}

/// What dispatching one record across the full registry yields.
pub open spec fn dispatch_spec(store: StoreV, record: SyncBufferRowV) -> Result<
    Option<IntegrationRecordV>,
    TranslationError,
> {
    dispatch_list_spec(registry(), store, record)
}

/// Try each registered translator in turn; the first to claim the record
/// wins.
pub fn dispatch_pull(
    translators: &Vec<Translator>,
    store: &NormalizedStore,
    record: &SyncBufferRow,
) -> (r: Result<Option<IntegrationRecord>, TranslationError>)
    requires
        store.wf(),
    ensures
        pull_result_dv(r) == dispatch_list_spec(translators@, store@, record.deep_view()),
{
    let n = translators.len();
    let mut i: usize = 0;
    proof {
        assert(translators@.skip(0) =~= translators@);
    }
    while i < n
        invariant
            i <= n,
            n == translators@.len(),
            store.wf(),
            dispatch_list_spec(translators@.skip(i as int), store@, record.deep_view())
                == dispatch_list_spec(translators@, store@, record.deep_view()),
        decreases n - i,
    {
        proof {
            assert(translators@.skip(i as int)[0] == translators@[i as int]);
            assert(translators@.skip(i as int).drop_first() =~= translators@.skip(i as int + 1));
        }
        match translators[i].try_translate_pull(store, record) {
            Err(e) => {
                return Err(e);
            },
            Ok(Some(rec)) => {
                return Ok(Some(rec));
            },
            Ok(None) => {
                i += 1;
            },
        }
    }
    proof {
        assert(translators@.skip(n as int) =~= Seq::<Translator>::empty());
    }
    Ok(None)
}

/// What translating a record list against one fixed store yields: the
/// concatenation of every claimed record's upserts, in arrival order, or
/// the first structural error. Unclaimed records contribute nothing.
pub open spec fn translate_all_spec(store: StoreV, records: Seq<SyncBufferRowV>) -> Result<
    Seq<IntegrationUpsertRecordV>,
    TranslationError,
>
    decreases records.len(),
{
    if records.len() == 0 {
        Ok(Seq::empty())
    } else {
        match translate_all_spec(store, records.drop_last()) {
            Err(e) => Err(e),
            Ok(ups) => match dispatch_spec(store, records.last()) {
                Err(e) => Err(e),
                Ok(None) => Ok(ups),
                Ok(Some(rec)) => Ok(ups + rec.upserts),
            },
        }
    }
}

/// Once translation of a prefix has failed, the records after the failing
/// one do not change the outcome.
proof fn lemma_translate_all_error_stable(store: StoreV, records: Seq<SyncBufferRowV>, k: int)
    requires
        0 <= k <= records.len(),
        translate_all_spec(store, records.take(k)) is Err,
    ensures
        translate_all_spec(store, records) == translate_all_spec(store, records.take(k)),
    decreases records.len() - k,
{
    if k == records.len() {
        assert(records.take(k) =~= records);
    } else {
        assert(records.take(k + 1).drop_last() =~= records.take(k));
        assert(records.take(k + 1).last() == records[k]);
        lemma_translate_all_error_stable(store, records, k + 1);
    }
}

/// Translate one buffered record and append what it claims to the batch
/// being collected. An unclaimed record is logged by the caller and skipped.
pub fn do_translation(
    store: &NormalizedStore,
    sync_record: &SyncBufferRow,
    records: &mut IntegrationRecord,
) -> (r: Result<(), TranslationError>)
    requires
        store.wf(),
    ensures
        match dispatch_spec(store@, sync_record.deep_view()) {
            Err(e) => r == Err::<(), TranslationError>(e) && *final(records) == *old(records),
            Ok(None) => r is Ok && *final(records) == *old(records),
            Ok(Some(rec)) => r is Ok && final(records).deep_view().upserts == old(
                records,
            ).deep_view().upserts + rec.upserts,
        },
{
    let translators = all_translators();
    proof {
        assert(dispatch_list_spec(translators@, store@, sync_record.deep_view())
            == dispatch_spec(store@, sync_record.deep_view()));
    }
    match dispatch_pull(&translators, store, sync_record)? {
        Some(mut result) => {
            let ghost old_ups = records.deep_view().upserts;
            let ghost new_ups = result.deep_view().upserts;
            records.upserts.append(&mut result.upserts);
            proof {
                assert(records.deep_view().upserts =~= old_ups + new_ups);
            }
            Ok(())
        },
        None => Ok(()),
    }
}

/// Import a batch of buffered records: translate every record against the
/// store as it stands, then apply all collected upserts, skipping the ones
/// whose referenced rows are still missing.
///
/// A structural translation error aborts the import before anything is
/// applied; missing dependencies never do.
pub fn import_sync_pull_records(store: &mut NormalizedStore, records: &Vec<SyncBufferRow>) -> (r:
    Result<(), TranslationError>)
    requires
        old(store).wf(),
    ensures
        final(store).wf(),
        match translate_all_spec(old(store)@, records.deep_view()) {
            Ok(ups) => r is Ok && final(store)@ == apply_skip_spec(old(store)@, ups),
            Err(e) => r == Err::<(), TranslationError>(e) && final(store)@ == old(store)@,
        },
{
    let mut integration_records = IntegrationRecord { upserts: Vec::new() };
    proof {
        assert(integration_records.deep_view().upserts =~= Seq::<
            IntegrationUpsertRecordV,
        >::empty());
    }
    let n = records.len();
    let mut i: usize = 0;
    while i < n
        invariant
            i <= n,
            n == records@.len(),
            store.wf(),
            store == old(store),
            translate_all_spec(store@, records.deep_view().take(i as int)) == Ok::<
                _,
                TranslationError,
            >(integration_records.deep_view().upserts),
        decreases n - i,
    {
        proof {
            let rdv = records.deep_view();
            assert(rdv.take(i as int + 1).drop_last() =~= rdv.take(i as int));
            assert(rdv.take(i as int + 1).last() == rdv[i as int]);
            assert(records@[i as int].deep_view() == rdv[i as int]);
        }
        match do_translation(store, &records[i], &mut integration_records) {
            Ok(_) => {},
            Err(e) => {
                proof {
                    lemma_translate_all_error_stable(
                        old(store)@,
                        records.deep_view(),
                        i as int + 1,
                    );
                }
                return Err(e);
            },
        }
        i += 1;
    }
    proof {
        assert(records.deep_view().take(n as int) =~= records.deep_view());
    }
    crate::integrate::store_integration_records(store, &integration_records);
    Ok(())
}

} // verus!
