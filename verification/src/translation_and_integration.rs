//! The integration engine: translate each buffered record, apply what it
//! yields, and aggregate per-table success and error counts.
//!
//! Every failure is caught at the per-record boundary: one malformed or
//! unappliable record never aborts the batch around it.

use vstd::prelude::*;

use crate::buffer::SyncBufferRow;
use crate::buffer::SyncBufferRowV;
use crate::errors::ProcessingOutcome;
use crate::errors::TranslationError;
use crate::integrate::apply_batch_spec;
use crate::pull::all_translators;
use crate::pull::dispatch_list_spec;
use crate::pull::dispatch_pull;
use crate::pull::dispatch_spec;
use crate::pull::pull_result_dv;
use crate::pull::IntegrationRecord;
use crate::pull::Translator;
use crate::store::NormalizedStore;
use crate::store::StoreV;
use crate::table::KeyedRow;
use crate::table::Table;

verus! {

/// Success and error counts for one table, rebuilt fresh per processing
/// run. Increments saturate at the counter range's top.
#[derive(Clone, Copy, Debug, PartialEq, Eq, Structural, Hash)]
pub struct TranslationAndIntegrationResult {
    pub integrated_count: u64,
    pub errors_count: u64,
}

/// The zero counters a table starts a run with.
pub open spec fn zero_counts() -> TranslationAndIntegrationResult {
    TranslationAndIntegrationResult { integrated_count: 0, errors_count: 0 }
}

/// Per-table counters as a map from table name to counts.
pub type CountersV = Map<Seq<char>, TranslationAndIntegrationResult>;

/// Counters with one table's success count bumped.
pub open spec fn bump_success(m: CountersV, table: Seq<char>) -> CountersV {
    let cur = if m.contains_key(table) {
        m[table]
    } else {
        zero_counts()
    };
    m.insert(
        table,
        TranslationAndIntegrationResult {
            integrated_count: if cur.integrated_count < u64::MAX {
                (cur.integrated_count + 1) as u64
            } else {
                cur.integrated_count
            },
            errors_count: cur.errors_count,
        },
    )
}

/// Counters with one table's error count bumped.
pub open spec fn bump_error(m: CountersV, table: Seq<char>) -> CountersV {
    let cur = if m.contains_key(table) {
        m[table]
    } else {
        zero_counts()
    };
    m.insert(
        table,
        TranslationAndIntegrationResult {
            integrated_count: cur.integrated_count,
            errors_count: if cur.errors_count < u64::MAX {
                (cur.errors_count + 1) as u64
            } else {
                cur.errors_count
            },
        },
    )
}

/// One table's counters keyed by table name.
#[derive(Clone, Debug, PartialEq)]
struct CounterRow {
    table_name: String,
    counts: TranslationAndIntegrationResult,
}

impl DeepView for CounterRow {
    type V = TranslationAndIntegrationResult;

    closed spec fn deep_view(&self) -> TranslationAndIntegrationResult {
        self.counts
    }
}

impl KeyedRow for CounterRow {
    closed spec fn key_spec(&self) -> Seq<char> {
        self.table_name@
    }

    fn key(&self) -> (r: &str) {
        self.table_name.as_str()
    }
}

/// Per-table success and error counts of one processing run; observability
/// only, it carries no control-flow meaning back to the caller.
#[derive(Debug)]
pub struct TranslationAndIntegrationResults {
    counters: Table<CounterRow>,
}

impl View for TranslationAndIntegrationResults {
    type V = CountersV;

    closed spec fn view(&self) -> CountersV {
        self.counters.as_map()
    }
}

impl TranslationAndIntegrationResults {
    /// The table keeps one entry per table name.
    pub closed spec fn wf(&self) -> bool {
        self.counters.wf()
    }

    /// Fresh counters, all zero.
    pub fn new() -> (r: TranslationAndIntegrationResults)
        ensures
            r.wf(),
            r@ == Map::<Seq<char>, TranslationAndIntegrationResult>::empty(),
    {
        TranslationAndIntegrationResults { counters: Table::new() }
    }

    /// The counts recorded for one table; zero where nothing was recorded.
    pub fn counts_for(&self, table_name: &str) -> (r: TranslationAndIntegrationResult)
        requires
            self.wf(),
        ensures
            r == if self@.contains_key(table_name@) {
                self@[table_name@]
            } else {
                zero_counts()
            },
    {
        match self.counters.get(table_name) {
            Some(row) => row.counts,
            None => TranslationAndIntegrationResult { integrated_count: 0, errors_count: 0 },
        }
    }

    /// Bump the error count of one table.
    pub fn insert_error(&mut self, table_name: &str)
        requires
            old(self).wf(),
        ensures
            final(self).wf(),
            final(self)@ == bump_error(old(self)@, table_name@),
    {
        let cur = self.counts_for(table_name);
        let next = TranslationAndIntegrationResult {
            integrated_count: cur.integrated_count,
            errors_count: if cur.errors_count < u64::MAX {
                cur.errors_count + 1
            } else {
                cur.errors_count
            },
        };
        self.counters.upsert(CounterRow { table_name: table_name.to_owned(), counts: next });
    }

    /// Bump the success count of one table.
    pub fn insert_success(&mut self, table_name: &str)
        requires
            old(self).wf(),
        ensures
            final(self).wf(),
            final(self)@ == bump_success(old(self)@, table_name@),
    {
        let cur = self.counts_for(table_name);
        let next = TranslationAndIntegrationResult {
            integrated_count: if cur.integrated_count < u64::MAX {
                cur.integrated_count + 1
            } else {
                cur.integrated_count
            },
            errors_count: cur.errors_count,
        };
        self.counters.upsert(CounterRow { table_name: table_name.to_owned(), counts: next });
    }
}

/// What processing one buffered record does to the store and the counters,
/// and the outcome it records:
/// a structural translation error is recorded and counted against the
/// record's table; an unclaimed record is skipped without counting; a
/// claimed record has its upserts applied in order, each in its own nested
/// scope, and is `Integrated` when all of them land.
pub open spec fn process_record_spec(
    s: StoreV,
    counters: CountersV,
    rec: SyncBufferRowV,
) -> (StoreV, CountersV, ProcessingOutcome) {
    match dispatch_spec(s, rec) {
        Err(e) => (s, bump_error(counters, rec.table_name), ProcessingOutcome::TranslationError(e)),
        Ok(None) => (s, counters, ProcessingOutcome::Unclaimed),
        Ok(Some(irec)) => {
            let applied = apply_batch_spec(s, irec.upserts);
            match applied.1 {
                None => (applied.0, bump_success(counters, rec.table_name),
                ProcessingOutcome::Integrated),
                Some(e) => (applied.0, bump_error(counters, rec.table_name),
                ProcessingOutcome::IntegrationError(e)),
            }
        },
    }
}

/// What one whole run does: records processed strictly in arrival order,
/// each against the store as the records before it left it.
pub open spec fn run_spec(s: StoreV, counters: CountersV, recs: Seq<SyncBufferRowV>) -> (
    StoreV,
    CountersV,
    Seq<ProcessingOutcome>,
)
    decreases recs.len(),
{
    if recs.len() == 0 {
        (s, counters, Seq::empty())
    } else {
        let prev = run_spec(s, counters, recs.drop_last());
        let step = process_record_spec(prev.0, prev.1, recs.last());
        (step.0, step.1, prev.2.push(step.2))
    }
}

/// The integration engine of one sync session.
pub struct TranslationAndIntegration {}

impl TranslationAndIntegration {
    /// An engine over the fixed translator registry.
    pub fn new() -> TranslationAndIntegration {
        TranslationAndIntegration {}
    }

    /// Try each registered translator on one record; the first to claim it
    /// wins.
    pub fn translate_sync_record(
        &self,
        store: &NormalizedStore,
        sync_record: &SyncBufferRow,
        translators: &Vec<Translator>,
    ) -> (r: Result<Option<IntegrationRecord>, TranslationError>)
        requires
            store.wf(),
        ensures
            pull_result_dv(r) == dispatch_list_spec(translators@, store@, sync_record.deep_view()),
    {
        dispatch_pull(translators, store, sync_record)
    }

    /// Process a batch of buffered records in arrival order. Returns the
    /// per-table counters and, record for record, the outcome to persist
    /// against each buffer entry.
    pub fn translate_and_integrate_sync_records(
        &self,
        store: &mut NormalizedStore,
        sync_records: &Vec<SyncBufferRow>,
    ) -> (r: (TranslationAndIntegrationResults, Vec<ProcessingOutcome>))
        requires
            old(store).wf(),
        ensures
            final(store).wf(),
            r.0.wf(),
            ({
                let run = run_spec(old(store)@, Map::empty(), sync_records.deep_view());
                &&& final(store)@ == run.0
                &&& r.0@ == run.1
                &&& r.1@ == run.2
            }),
    {
        let translators = all_translators();
        let mut result = TranslationAndIntegrationResults::new();
        let mut outcomes: Vec<ProcessingOutcome> = Vec::new();
        let ghost rdv = sync_records.deep_view();
        let n = sync_records.len();
        let mut i: usize = 0;
        proof {
            assert(rdv.take(0) =~= Seq::<SyncBufferRowV>::empty());
        }
        while i < n
            invariant
                i <= n,
                n == sync_records@.len(),
                rdv == sync_records.deep_view(),
                translators@ == crate::pull::registry(),
                store.wf(),
                result.wf(),
                ({
                    let run = run_spec(old(store)@, Map::empty(), rdv.take(i as int));
                    &&& store@ == run.0
                    &&& result@ == run.1
                    &&& outcomes@ == run.2
                }),
            decreases n - i,
        {
            proof {
                assert(rdv.take(i as int + 1).drop_last() =~= rdv.take(i as int));
                assert(rdv.take(i as int + 1).last() == rdv[i as int]);
                assert(sync_records@[i as int].deep_view() == rdv[i as int]);
            }
            let sync_record = &sync_records[i];
            let translation_result = self.translate_sync_record(store, sync_record, &translators);
            match translation_result {
                Err(e) => {
                    // Record the error against the record's table and move
                    // to the next record: a malformed payload never aborts
                    // the run.
                    result.insert_error(sync_record.table_name.as_str());
                    outcomes.push(ProcessingOutcome::TranslationError(e));
                },
                Ok(None) => {
                    // Unclaimed: either no translator knows the table, or a
                    // dependency has not arrived. Skipped, not an error.
                    outcomes.push(ProcessingOutcome::Unclaimed);
                },
                Ok(Some(integration_records)) => {
                    match integration_records.integrate(store) {
                        Ok(_) => {
                            result.insert_success(sync_record.table_name.as_str());
                            outcomes.push(ProcessingOutcome::Integrated);
                        },
                        Err(e) => {
                            result.insert_error(sync_record.table_name.as_str());
                            outcomes.push(ProcessingOutcome::IntegrationError(e));
                        },
                    }
                },
            }
            i += 1;
        }
        proof {
            assert(rdv.take(n as int) =~= rdv);
        }
        (result, outcomes)
    }
}

} // verus!
