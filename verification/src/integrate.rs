//! Applying normalized upserts to the schema with per-upsert fault
//! isolation.
//!
//! Every upsert runs in its own nested scope: a referential-integrity
//! failure rolls back that upsert alone and never the batch around it,
//! mirroring a savepoint per record inside the outer batch transaction.

use vstd::prelude::*;

use crate::errors::RepositoryError;
use crate::pull::IntegrationRecord;
use crate::pull::IntegrationUpsertRecord;
use crate::pull::IntegrationUpsertRecordV;
use crate::store::NormalizedStore;
use crate::store::StoreV;

verus! {

/// Whether every row an upsert references is present in the schema.
pub open spec fn upsert_fk_ok(s: StoreV, u: IntegrationUpsertRecordV) -> bool {
    match u {
        IntegrationUpsertRecordV::Unit(_) => true,
        IntegrationUpsertRecordV::Item(r) => match r.unit_id {
            Some(uid) => s.units.contains_key(uid),
            None => true,
        },
        IntegrationUpsertRecordV::Name(_) => true,
        IntegrationUpsertRecordV::Store(r) => s.names.contains_key(r.name_id),
        IntegrationUpsertRecordV::StockLine(r) => s.items.contains_key(r.item_id)
            && s.stores.contains_key(r.store_id),
        IntegrationUpsertRecordV::Invoice(r) => s.names.contains_key(r.name_id)
            && s.stores.contains_key(r.store_id),
        IntegrationUpsertRecordV::InvoiceLine(r) => s.invoices.contains_key(r.invoice_id)
            && s.items.contains_key(r.item_id) && match r.stock_line_id {
            Some(sl) => s.stock_lines.contains_key(sl),
            None => true,
        },
        IntegrationUpsertRecordV::NameStoreJoin(r) => s.names.contains_key(r.name_id)
            && s.stores.contains_key(r.store_id),
    }
}

/// The store after one upsert, ignoring referential checks: insertion into
/// the variant's table under the row's id.
pub open spec fn apply_upsert_to(s: StoreV, u: IntegrationUpsertRecordV) -> StoreV {
    match u {
        IntegrationUpsertRecordV::Unit(r) => StoreV { units: s.units.insert(r.id, r), ..s },
        IntegrationUpsertRecordV::Item(r) => StoreV { items: s.items.insert(r.id, r), ..s },
        IntegrationUpsertRecordV::Name(r) => StoreV { names: s.names.insert(r.id, r), ..s },
        IntegrationUpsertRecordV::Store(r) => StoreV { stores: s.stores.insert(r.id, r), ..s },
        IntegrationUpsertRecordV::StockLine(r) => StoreV {
            stock_lines: s.stock_lines.insert(r.id, r),
            ..s
        },
        IntegrationUpsertRecordV::Invoice(r) => StoreV {
            invoices: s.invoices.insert(r.id, r),
            ..s
        },
        IntegrationUpsertRecordV::InvoiceLine(r) => StoreV {
            invoice_lines: s.invoice_lines.insert(r.id, r),
            ..s
        },
        IntegrationUpsertRecordV::NameStoreJoin(r) => StoreV {
            name_store_joins: s.name_store_joins.insert(r.id, r),
            ..s
        },
    }
}

/// What applying one upsert yields: the updated store, or a foreign-key
/// violation leaving the store as it was.
pub open spec fn apply_upsert_spec(s: StoreV, u: IntegrationUpsertRecordV) -> Result<
    StoreV,
    RepositoryError,
> {
    if upsert_fk_ok(s, u) {
        Ok(apply_upsert_to(s, u))
    } else {
        Err(RepositoryError::ForeignKeyViolation)
    }
}

/// What applying a batch of upserts in order yields, stopping at the first
/// failure: the store reached and the failure, if any. Upserts before the
/// failing one keep their effect; the failing one has none.
pub open spec fn apply_batch_spec(s: StoreV, us: Seq<IntegrationUpsertRecordV>) -> (
    StoreV,
    Option<RepositoryError>,
)
    decreases us.len(),
{
    if us.len() == 0 {
        (s, None)
    } else {
        let prefix = apply_batch_spec(s, us.drop_last());
        match prefix.1 {
            Some(e) => prefix,
            None => match apply_upsert_spec(prefix.0, us.last()) {
                Ok(s2) => (s2, None),
                Err(e) => (prefix.0, Some(e)),
            },
        }
    }
}

/// The store after applying a batch of upserts in order, skipping every
/// upsert whose referenced rows are still missing.
pub open spec fn apply_skip_spec(s: StoreV, us: Seq<IntegrationUpsertRecordV>) -> StoreV
    decreases us.len(),
{
    if us.len() == 0 {
        s
    } else {
        let prefix = apply_skip_spec(s, us.drop_last());
        if upsert_fk_ok(prefix, us.last()) {
            apply_upsert_to(prefix, us.last())
        } else {
            prefix
        }
    }
}

/// Once a batch has failed, the upserts after the failing one change
/// nothing.
pub proof fn lemma_apply_batch_error_stable(
    s: StoreV,
    us: Seq<IntegrationUpsertRecordV>,
    k: int,
)
    requires
        0 <= k <= us.len(),
        apply_batch_spec(s, us.take(k)).1 is Some,
    ensures
        apply_batch_spec(s, us) == apply_batch_spec(s, us.take(k)),
    decreases us.len() - k,
{
    if k == us.len() {
        assert(us.take(k) =~= us);
    } else {
        assert(us.take(k + 1).drop_last() =~= us.take(k));
        assert(us.take(k + 1).last() == us[k]);
        lemma_apply_batch_error_stable(s, us, k + 1);
    }
}

/// Apply one normalized upsert inside its own nested scope: on a
/// referential failure the schema is left untouched.
pub fn integrate_record(record: &IntegrationUpsertRecord, store: &mut NormalizedStore) -> (r:
    Result<(), RepositoryError>)
    requires
        old(store).wf(),
    ensures
        final(store).wf(),
        match apply_upsert_spec(old(store)@, record.deep_view()) {
            Ok(s2) => r is Ok && final(store)@ == s2,
            Err(e) => r == Err::<(), RepositoryError>(e) && final(store)@ == old(store)@,
        },
{
    match record {
        IntegrationUpsertRecord::Unit(row) => {
            store.upsert_unit(row.clone());
            Ok(())
        },
        IntegrationUpsertRecord::Item(row) => {
            if let Some(uid) = &row.unit_id {
                if store.get_unit(uid.as_str()).is_none() {
                    return Err(RepositoryError::ForeignKeyViolation);
                }
            }
            store.upsert_item(row.clone());
            Ok(())
        },
        IntegrationUpsertRecord::Name(row) => {
            store.upsert_name(row.clone());
            Ok(())
        },
        IntegrationUpsertRecord::Store(row) => {
            if store.get_name(row.name_id.as_str()).is_none() {
                return Err(RepositoryError::ForeignKeyViolation);
            }
            store.upsert_store(row.clone());
            Ok(())
        },
        IntegrationUpsertRecord::StockLine(row) => {
            if store.get_item(row.item_id.as_str()).is_none() {
                return Err(RepositoryError::ForeignKeyViolation);
            }
            if store.get_store(row.store_id.as_str()).is_none() {
                return Err(RepositoryError::ForeignKeyViolation);
            }
            store.upsert_stock_line(row.clone());
            Ok(())
        },
        IntegrationUpsertRecord::Invoice(row) => {
            if store.get_name(row.name_id.as_str()).is_none() {
                return Err(RepositoryError::ForeignKeyViolation);
            }
            if store.get_store(row.store_id.as_str()).is_none() {
                return Err(RepositoryError::ForeignKeyViolation);
            }
            store.upsert_invoice(row.clone());
            Ok(())
        },
        IntegrationUpsertRecord::InvoiceLine(row) => {
            if store.get_invoice(row.invoice_id.as_str()).is_none() {
                return Err(RepositoryError::ForeignKeyViolation);
            }
            if store.get_item(row.item_id.as_str()).is_none() {
                return Err(RepositoryError::ForeignKeyViolation);
            }
            if let Some(sl) = &row.stock_line_id {
                if store.get_stock_line(sl.as_str()).is_none() {
                    return Err(RepositoryError::ForeignKeyViolation);
                }
            }
            store.upsert_invoice_line(row.clone());
            Ok(())
        },
        IntegrationUpsertRecord::NameStoreJoin(row) => {
            if store.get_name(row.name_id.as_str()).is_none() {
                return Err(RepositoryError::ForeignKeyViolation);
            }
            if store.get_store(row.store_id.as_str()).is_none() {
                return Err(RepositoryError::ForeignKeyViolation);
            }
            store.upsert_name_store_join(row.clone());
            Ok(())
        },
    }
}

impl IntegrationRecord {
    /// Apply every upsert of this batch in order, each in its own nested
    /// scope, stopping at the first failure. Upserts already applied keep
    /// their effect; the failing record stays re-derivable from the buffer.
    pub fn integrate(&self, store: &mut NormalizedStore) -> (r: Result<(), RepositoryError>)
        requires
            old(store).wf(),
        ensures
            final(store).wf(),
            ({
                let applied = apply_batch_spec(old(store)@, self.deep_view().upserts);
                &&& final(store)@ == applied.0
                &&& r == match applied.1 {
                    Some(e) => Err::<(), RepositoryError>(e),
                    None => Ok(()),
                }
            }),
    {
        let ghost ups = self.deep_view().upserts;
        let n = self.upserts.len();
        let mut i: usize = 0;
        while i < n
            invariant
                i <= n,
                n == self.upserts@.len(),
                ups == self.deep_view().upserts,
                store.wf(),
                apply_batch_spec(old(store)@, ups.take(i as int)) == (store@, None::<
                    RepositoryError,
                >),
            decreases n - i,
        {
            proof {
                assert(ups.take(i as int + 1).drop_last() =~= ups.take(i as int));
                assert(ups.take(i as int + 1).last() == ups[i as int]);
                assert(self.upserts@[i as int].deep_view() == ups[i as int]);
            }
            match integrate_record(&self.upserts[i], store) {
                Ok(_) => {},
                Err(e) => {
                    proof {
                        lemma_apply_batch_error_stable(old(store)@, ups, i as int + 1);
                    }
                    return Err(e);
                },
            }
            i += 1;
        }
        proof {
            assert(ups.take(n as int) =~= ups);
        }
        Ok(())
    }
}

/// Store a collected batch of upserts, skipping each one whose referenced
/// rows have not arrived yet; such rows stay buffered for the next cycle.
pub fn store_integration_records(store: &mut NormalizedStore, records: &IntegrationRecord)
    requires
        old(store).wf(),
    ensures
        final(store).wf(),
        final(store)@ == apply_skip_spec(old(store)@, records.deep_view().upserts),
{
    let ghost ups = records.deep_view().upserts;
    let n = records.upserts.len();
    let mut i: usize = 0;
    while i < n
        invariant
            i <= n,
            n == records.upserts@.len(),
            ups == records.deep_view().upserts,
            store.wf(),
            store@ == apply_skip_spec(old(store)@, ups.take(i as int)),
        decreases n - i,
    {
        proof {
            assert(ups.take(i as int + 1).drop_last() =~= ups.take(i as int));
            assert(ups.take(i as int + 1).last() == ups[i as int]);
            assert(records.upserts@[i as int].deep_view() == ups[i as int]);
        }
        // A missing dependency is expected under out-of-order arrival:
        // skip the upsert and go on.
        let _ = integrate_record(&records.upserts[i], store);
        i += 1;
    }
    proof {
        assert(ups.take(n as int) =~= ups);
    }
}

} // verus!
