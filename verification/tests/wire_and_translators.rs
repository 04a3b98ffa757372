//! The wire format, dates, the name-store-join translator, and the push
//! path's edges.

use sync_core::buffer::{Payload, SyncAction, SyncBufferRow};
use sync_core::date::{format_date, parse_date, Date};
use sync_core::errors::{ProcessingOutcome, PushError, TranslationError};
use sync_core::legacy::{LegacyObject, Scalar};
use sync_core::pull::{all_translators, dispatch_pull, IntegrationUpsertRecord};
use sync_core::push::{
    push_name_store_join, translate_changelogs_to_push_records, ChangelogAction, ChangelogRow,
    ChangelogTableName,
};
use sync_core::rows::{NameRow, NameStoreJoinRow, NameType, StoreRow};
use sync_core::store::NormalizedStore;
use sync_core::translation_and_integration::TranslationAndIntegration;

fn name_with_flags(id: &str, is_customer: bool, is_supplier: bool) -> NameRow {
    NameRow {
        id: id.to_owned(),
        name: id.to_owned(),
        code: format!("{}_code", id),
        name_type: NameType::Facility,
        is_customer,
        is_supplier,
        first_name: None,
        last_name: None,
        gender: None,
        date_of_birth: None,
        phone: None,
        address1: None,
        address2: None,
        country: None,
        email: None,
    }
}

fn nsj_payload(id: &str, store_id: &str, name_id: &str) -> LegacyObject {
    let mut o = LegacyObject::new();
    o.push_field("ID", Scalar::from_str_value(id));
    o.push_field("store_ID", Scalar::from_str_value(store_id));
    o.push_field("name_ID", Scalar::from_str_value(name_id));
    o
}

fn nsj_record(payload: LegacyObject) -> SyncBufferRow {
    SyncBufferRow {
        id: "buffer_nsj".to_owned(),
        table_name: "name_store_join".to_owned(),
        record_id: "nsj_1".to_owned(),
        data: Payload::Object(payload),
        action: SyncAction::Update,
    }
}

#[test]
fn name_store_join_inherits_flags_from_the_name() {
    let mut store = NormalizedStore::new();
    store.upsert_name(name_with_flags("name_a", true, false));
    let translators = all_translators();
    let record = nsj_record(nsj_payload("nsj_1", "store_a", "name_a"));
    let translated = dispatch_pull(&translators, &store, &record).unwrap().unwrap();
    assert_eq!(
        translated.upserts,
        vec![IntegrationUpsertRecord::NameStoreJoin(NameStoreJoinRow {
            id: "nsj_1".to_owned(),
            name_id: "name_a".to_owned(),
            store_id: "store_a".to_owned(),
            name_is_customer: true,
            name_is_supplier: false,
        })]
    );
}

#[test]
fn name_store_join_extension_fields_override_the_flags() {
    let mut store = NormalizedStore::new();
    store.upsert_name(name_with_flags("name_a", true, false));
    let translators = all_translators();
    let mut payload = nsj_payload("nsj_1", "store_a", "name_a");
    payload.push_field("om_name_is_customer", Scalar::Bool(false));
    payload.push_field("om_name_is_supplier", Scalar::Bool(true));
    let record = nsj_record(payload);
    let translated = dispatch_pull(&translators, &store, &record).unwrap().unwrap();
    match &translated.upserts[0] {
        IntegrationUpsertRecord::NameStoreJoin(row) => {
            assert!(!row.name_is_customer);
            assert!(row.name_is_supplier);
        }
        other => panic!("unexpected upsert: {:?}", other),
    }
}

#[test]
fn name_store_join_with_absent_name_is_unclaimed() {
    let store = NormalizedStore::new();
    let before = store.clone();
    let translators = all_translators();
    let record = nsj_record(nsj_payload("nsj_1", "store_a", "missing_name"));
    assert_eq!(dispatch_pull(&translators, &store, &record), Ok(None));

    // Through the engine: skipped without an error and nothing written.
    let mut store = store;
    let engine = TranslationAndIntegration::new();
    let (results, outcomes) =
        engine.translate_and_integrate_sync_records(&mut store, &vec![record]);
    assert_eq!(outcomes, vec![ProcessingOutcome::Unclaimed]);
    assert_eq!(results.counts_for("name_store_join").errors_count, 0);
    assert_eq!(store, before);
    assert!(store.get_name_store_join("nsj_1").is_none());
}

#[test]
fn name_store_join_missing_field_is_a_translation_error() {
    let mut store = NormalizedStore::new();
    store.upsert_name(name_with_flags("name_a", true, false));
    let translators = all_translators();
    let mut payload = LegacyObject::new();
    payload.push_field("ID", Scalar::from_str_value("nsj_1"));
    payload.push_field("name_ID", Scalar::from_str_value("name_a"));
    // store_ID missing.
    let record = nsj_record(payload);
    assert_eq!(
        dispatch_pull(&translators, &store, &record),
        Err(TranslationError::MalformedField)
    );
}

#[test]
fn name_store_join_round_trips_through_push_and_pull() {
    let mut store = NormalizedStore::new();
    store.upsert_name(name_with_flags("name_a", false, true));
    let row = NameStoreJoinRow {
        id: "nsj_1".to_owned(),
        name_id: "name_a".to_owned(),
        store_id: "store_a".to_owned(),
        name_is_customer: true,
        name_is_supplier: false,
    };
    let payload = push_name_store_join(&row);
    let record = nsj_record(payload);
    let translators = all_translators();
    let translated = dispatch_pull(&translators, &store, &record).unwrap().unwrap();
    assert_eq!(
        translated.upserts,
        vec![IntegrationUpsertRecord::NameStoreJoin(row)]
    );
}

#[test]
fn push_delete_emits_the_minimal_payload() {
    let store = NormalizedStore::new();
    let entry = ChangelogRow {
        id: 7,
        table_name: ChangelogTableName::NameStoreJoin,
        row_id: "nsj_1".to_owned(),
        row_action: ChangelogAction::Delete,
    };
    let result = translate_changelogs_to_push_records(&store, &vec![entry]).unwrap();
    assert_eq!(result.len(), 1);
    assert_eq!(result[0].table_name, "name_store_join");
    assert_eq!(result[0].record_id, "nsj_1");
    let mut expected = LegacyObject::new();
    expected.push_field("ID", Scalar::from_str_value("nsj_1"));
    assert_eq!(result[0].data, expected);
}

#[test]
fn push_of_a_missing_row_fails() {
    let store = NormalizedStore::new();
    let entry = ChangelogRow {
        id: 7,
        table_name: ChangelogTableName::InvoiceLine,
        row_id: "missing".to_owned(),
        row_action: ChangelogAction::Upsert,
    };
    assert_eq!(
        translate_changelogs_to_push_records(&store, &vec![entry]),
        Err(PushError::RowNotFound)
    );
}

#[test]
fn dates_parse_and_format_exactly() {
    assert_eq!(
        parse_date("2022-02-22"),
        Some(Date { year: 2022, month: 2, day: 22 })
    );
    assert_eq!(parse_date("0000-00-00"), None);
    assert_eq!(parse_date("2022-13-01"), None);
    assert_eq!(parse_date("2022-2-22"), None);
    assert_eq!(parse_date("not-a-date!"), None);
    assert_eq!(
        format_date(&Date { year: 2022, month: 2, day: 22 }),
        "2022-02-22"
    );
    assert_eq!(format_date(&Date { year: 33, month: 12, day: 1 }), "0033-12-01");
    let d = Date { year: 1999, month: 11, day: 30 };
    assert_eq!(parse_date(&format_date(&d)), Some(d));
}

#[test]
fn wire_scalars_carry_hundredths() {
    let mut o = LegacyObject::new();
    o.push_field("quantity", Scalar::from_int(700));
    o.push_field("tax", Scalar::Num(3330));
    assert_eq!(o.read_int("quantity"), Some(700));
    assert_eq!(o.read_money("quantity"), Some(70000));
    assert_eq!(o.read_money("tax"), Some(3330));
    // A fractional number is not a whole count.
    assert_eq!(o.read_int("tax"), None);
    assert_eq!(o.read_int("absent"), None);
    assert_eq!(o.read_opt_money("absent"), Some(None));
}

#[test]
fn empty_and_sentinel_wire_fields_read_as_absent() {
    let mut o = LegacyObject::new();
    o.push_field("batch", Scalar::from_str_value(""));
    o.push_field("note", Scalar::from_str_value("keep cold"));
    o.push_field("expiry_date", Scalar::from_str_value("0000-00-00"));
    o.push_field("location_ID", Scalar::Null);
    assert_eq!(o.read_opt_str("batch"), Some(None));
    assert_eq!(o.read_opt_str("note"), Some(Some("keep cold".to_owned())));
    assert_eq!(o.read_opt_date("expiry_date"), Some(None));
    assert_eq!(o.read_opt_str("location_ID"), Some(None));
    assert_eq!(
        o.read_opt_date("absent"),
        Some(None),
        "an absent date reads as no value"
    );
}

#[test]
fn store_upserts_replace_by_id() {
    let mut store = NormalizedStore::new();
    store.upsert_name(name_with_flags("name_a", true, false));
    store.upsert_name(name_with_flags("name_a", false, true));
    let row = store.get_name("name_a").unwrap();
    assert!(!row.is_customer);
    assert!(row.is_supplier);
    store.upsert_store(StoreRow {
        id: "store_a".to_owned(),
        name_id: "name_a".to_owned(),
        code: "c".to_owned(),
    });
    assert!(store.get_store("store_a").is_some());
    assert!(store.get_store("store_b").is_none());
}
