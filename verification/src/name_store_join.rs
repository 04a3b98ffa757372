//! Translator for the legacy `name_store_join` table: visibility of a name
//! at a store.
//!
//! The legacy record carries the join's own id and the two foreign keys;
//! optional `om_`-prefixed extension fields override the customer and
//! supplier flags that otherwise default to the referenced name's own.

use vstd::prelude::*;

use crate::buffer::Payload;
use crate::buffer::PayloadV;
use crate::buffer::SyncBufferRow;
use crate::buffer::SyncBufferRowV;
use crate::errors::TranslationError;
use crate::legacy::opt_bool_field;
use crate::legacy::str_field;
use crate::legacy::ObjectV;
use crate::pull::IntegrationRecord;
use crate::pull::IntegrationRecordV;
use crate::pull::IntegrationUpsertRecord;
use crate::pull::IntegrationUpsertRecordV;
use crate::pull::RemotePullTranslation;
use crate::rows::NameStoreJoinRow;
use crate::rows::NameStoreJoinRowV;
use crate::store::NormalizedStore;
use crate::store::StoreV;
use crate::text::str_eq;

verus! {

/// The legacy table name this translator claims.
pub open spec fn nsj_table_name() -> Seq<char> {
    "name_store_join"@
}

/// The legacy `name_store_join` record shape, field names as on the wire.
#[allow(non_snake_case)]
#[derive(Clone, Debug, PartialEq)]
pub struct LegacyNameStoreJoinRow {
    pub ID: String,
    pub store_ID: String,
    pub name_ID: String,
    pub name_is_customer: Option<bool>,
    pub name_is_supplier: Option<bool>,
}

/// The value of a [`LegacyNameStoreJoinRow`].
#[allow(non_snake_case)]
#[verifier::ext_equal]
pub struct LegacyNameStoreJoinRowV {
    pub ID: Seq<char>,
    pub store_ID: Seq<char>,
    pub name_ID: Seq<char>,
    pub name_is_customer: Option<bool>,
    pub name_is_supplier: Option<bool>,
}

impl DeepView for LegacyNameStoreJoinRow {
    type V = LegacyNameStoreJoinRowV;

    open spec fn deep_view(&self) -> LegacyNameStoreJoinRowV {
        LegacyNameStoreJoinRowV {
            ID: self.ID@,
            store_ID: self.store_ID@,
            name_ID: self.name_ID@,
            name_is_customer: self.name_is_customer,
            name_is_supplier: self.name_is_supplier,
        }
    }
}

/// The legacy row a payload object denotes, if structurally valid.
pub open spec fn legacy_nsj_of(o: ObjectV) -> Option<LegacyNameStoreJoinRowV> {
    match (
        str_field(o, "ID"@),
        str_field(o, "store_ID"@),
        str_field(o, "name_ID"@),
        opt_bool_field(o, "om_name_is_customer"@),
        opt_bool_field(o, "om_name_is_supplier"@),
    ) {
        (Some(id), Some(store_id), Some(name_id), Some(cust), Some(supp)) => Some(
            LegacyNameStoreJoinRowV {
                ID: id,
                store_ID: store_id,
                name_ID: name_id,
                name_is_customer: cust,
                name_is_supplier: supp,
            },
        ),
        _ => None,
    }
}

/// Read the legacy record shape out of a payload object.
pub fn read_legacy_nsj(obj: &crate::legacy::LegacyObject) -> (r: Option<LegacyNameStoreJoinRow>)
    ensures
        r.deep_view() == legacy_nsj_of(obj.deep_view()),
{
    let id = obj.read_str("ID");
    let store_id = obj.read_str("store_ID");
    let name_id = obj.read_str("name_ID");
    let cust = obj.read_opt_bool("om_name_is_customer");
    let supp = obj.read_opt_bool("om_name_is_supplier");
    match (id, store_id, name_id, cust, supp) {
        (Some(id), Some(store_id), Some(name_id), Some(cust), Some(supp)) => Some(
            LegacyNameStoreJoinRow {
                ID: id,
                store_ID: store_id,
                name_ID: name_id,
                name_is_customer: cust,
                name_is_supplier: supp,
            },
        ),
        _ => None,
    }
}

/// Translator for the legacy `name_store_join` table.
#[derive(Clone, Copy, Debug)]
pub struct NameStoreJoinTranslation {}

/// The normalized row a valid `name_store_join` record maps to, once the
/// referenced name is at hand: extension fields override the name's own
/// customer and supplier flags.
pub open spec fn nsj_row_spec(
    data: LegacyNameStoreJoinRowV,
    name: crate::rows::NameRowV,
) -> NameStoreJoinRowV {
    NameStoreJoinRowV {
        id: data.ID,
        name_id: data.name_ID,
        store_id: data.store_ID,
        name_is_customer: match data.name_is_customer {
            Some(b) => b,
            None => name.is_customer,
        },
        name_is_supplier: match data.name_is_supplier {
            Some(b) => b,
            None => name.is_supplier,
        },
    }
}

impl RemotePullTranslation for NameStoreJoinTranslation {
    open spec fn pull_spec(&self, store: StoreV, record: SyncBufferRowV) -> Result<
        Option<IntegrationRecordV>,
        TranslationError,
    > {
        if record.table_name != nsj_table_name() {
            Ok(None)
        } else {
            match record.data {
                PayloadV::Malformed => Err(TranslationError::NotAnObject),
                PayloadV::Object(o) => match legacy_nsj_of(o) {
                    None => Err(TranslationError::MalformedField),
                    Some(data) => if !store.names.contains_key(data.name_ID) {
                        // The referenced name has not been synchronized
                        // (it may be a record type not synced at all):
                        // unclaimed, not an error.
                        Ok(None)
                    } else {
                        Ok(
                            Some(
                                IntegrationRecordV {
                                    upserts: seq![
                                        IntegrationUpsertRecordV::NameStoreJoin(
                                            nsj_row_spec(data, store.names[data.name_ID]),
                                        ),
                                    ],
                                },
                            ),
                        )
                    },
                },
            }
        }
    }

    fn try_translate_pull(&self, store: &NormalizedStore, record: &SyncBufferRow) -> (r: Result<
        Option<IntegrationRecord>,
        TranslationError,
    >) {
        if !str_eq(record.table_name.as_str(), "name_store_join") {
            return Ok(None);
        }
        let obj = match &record.data {
            Payload::Malformed => {
                return Err(TranslationError::NotAnObject);
            },
            Payload::Object(o) => o,
        };
        let data = match read_legacy_nsj(obj) {
            Some(d) => d,
            None => {
                return Err(TranslationError::MalformedField);
            },
        };
        let name = match store.get_name(data.name_ID.as_str()) {
            Some(n) => n,
            None => {
                return Ok(None);
            },
        };
        let row = NameStoreJoinRow {
            id: data.ID,
            name_id: data.name_ID,
            store_id: data.store_ID,
            name_is_customer: match data.name_is_customer {
                Some(b) => b,
                None => name.is_customer,
            },
            name_is_supplier: match data.name_is_supplier {
                Some(b) => b,
                None => name.is_supplier,
            },
        };
        Ok(Some(IntegrationRecord::from_upsert(IntegrationUpsertRecord::NameStoreJoin(row))))
    }
}

} // verus!
