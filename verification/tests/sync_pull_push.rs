//! End-to-end pull and push over the fixture records, plus the per-record
//! fault-isolation scenarios.

use sync_core::buffer::{Payload, SyncAction, SyncBufferRow};
use sync_core::errors::{ProcessingOutcome, RepositoryError, TranslationError};
use sync_core::legacy::{LegacyObject, Scalar};
use sync_core::pull::{IntegrationRecord, IntegrationUpsertRecord};
use sync_core::push::translate_changelogs_to_push_records;
use sync_core::rows::{
    InvoiceLineType, InvoiceRow, InvoiceStatus, InvoiceType, ItemRow, NameRow, NameType,
    StockLineRow, StoreRow, UnitRow,
};
use sync_core::store::NormalizedStore;
use sync_core::test_data::{
    fixture_item, get_test_push_trans_line_records, get_test_trans_line_records,
};
use sync_core::translation_and_integration::TranslationAndIntegration;

fn base_name(id: &str) -> NameRow {
    NameRow {
        id: id.to_owned(),
        name: id.to_owned(),
        code: format!("{}_code", id),
        name_type: NameType::Facility,
        is_customer: true,
        is_supplier: false,
        first_name: None,
        last_name: None,
        gender: None,
        date_of_birth: None,
        phone: None,
        address1: None,
        address2: None,
        country: None,
        email: None,
    }
}

/// A store holding everything the trans-line fixtures reference.
fn fixture_store() -> NormalizedStore {
    let mut store = NormalizedStore::new();
    store.upsert_name(base_name("name_a"));
    store.upsert_store(StoreRow {
        id: "store_a".to_owned(),
        name_id: "name_a".to_owned(),
        code: "store_a_code".to_owned(),
    });
    store.upsert_item(fixture_item());
    store.upsert_invoice(InvoiceRow {
        id: "outbound_shipment_a".to_owned(),
        name_id: "name_a".to_owned(),
        store_id: "store_a".to_owned(),
        invoice_type: InvoiceType::OutboundShipment,
        status: InvoiceStatus::New,
    });
    store.upsert_stock_line(StockLineRow {
        id: "item_a_line_a".to_owned(),
        item_id: "item_a".to_owned(),
        store_id: "store_a".to_owned(),
        batch: None,
        pack_size: 1,
        available_number_of_packs: 10,
        total_number_of_packs: 10,
    });
    store
}

#[test]
fn test_sync_pull_and_push() {
    let mut store = fixture_store();
    let engine = TranslationAndIntegration::new();

    // Pull: every fixture record translates to its expected batch and
    // integrates.
    let records: Vec<SyncBufferRow> = get_test_trans_line_records()
        .into_iter()
        .map(|r| r.remote_sync_buffer_row)
        .collect();
    let (results, outcomes) = engine.translate_and_integrate_sync_records(&mut store, &records);
    assert_eq!(outcomes.len(), 4);
    for outcome in &outcomes {
        assert_eq!(*outcome, ProcessingOutcome::Integrated);
    }
    let counts = results.counts_for("trans_line");
    assert_eq!(counts.integrated_count, 4);
    assert_eq!(counts.errors_count, 0);
    for fixture in get_test_trans_line_records() {
        let expected = fixture.translated_record.expect("fixture has a translation");
        for upsert in &expected.upserts {
            match upsert {
                IntegrationUpsertRecord::InvoiceLine(row) => {
                    let stored = store
                        .get_invoice_line(&row.id)
                        .expect("row integrated");
                    assert_eq!(stored, row);
                }
                other => panic!("unexpected upsert in fixture: {:?}", other),
            }
        }
    }

    // Push: every change-log entry emits exactly the fixture payload.
    for fixture in get_test_push_trans_line_records() {
        let expected_row_id = fixture.change_log.row_id.clone();
        let result = translate_changelogs_to_push_records(&store, &vec![fixture.change_log])
            .expect("push translates");
        assert_eq!(result.len(), 1);
        let record = &result[0];
        assert_eq!(record.record_id, expected_row_id);
        assert_eq!(record.table_name, "trans_line");
        assert_eq!(record.data, fixture.push_data);
    }
}

#[test]
fn test_fall_through_inner_transaction() {
    let mut store = NormalizedStore::new();

    // Doesn't fail
    let result = IntegrationRecord::from_upsert(IntegrationUpsertRecord::Unit(UnitRow {
        id: "unit".to_owned(),
        name: String::new(),
    }))
    .integrate(&mut store);
    assert_eq!(result, Ok(()));

    // Fails due to referencial constraint
    let result = IntegrationRecord::from_upsert(IntegrationUpsertRecord::Item(ItemRow {
        id: "item".to_owned(),
        name: String::new(),
        code: String::new(),
        unit_id: Some("invalid".to_owned()),
    }))
    .integrate(&mut store);
    assert_ne!(result, Ok(()));

    // Record should exist
    assert!(store.get_unit("unit").is_some());

    // Record should not exist
    assert!(store.get_invoice_line("item").is_none());
    assert!(store.get_item("item").is_none());
}

#[test]
fn one_invalid_record_does_not_abort_the_batch() {
    let mut store = fixture_store();
    let engine = TranslationAndIntegration::new();

    let mut bad_payload = LegacyObject::new();
    bad_payload.push_field("ID", Scalar::from_str_value("bad_line"));
    // No other required field: structurally invalid for its shape.
    let bad = SyncBufferRow {
        id: "buffer_bad".to_owned(),
        table_name: "trans_line".to_owned(),
        record_id: "bad_line".to_owned(),
        data: Payload::Object(bad_payload),
        action: SyncAction::Update,
    };
    let fixtures = get_test_trans_line_records();
    let records = vec![
        bad,
        fixtures[0].remote_sync_buffer_row.clone(),
        fixtures[1].remote_sync_buffer_row.clone(),
    ];
    let (results, outcomes) = engine.translate_and_integrate_sync_records(&mut store, &records);
    assert_eq!(
        outcomes[0],
        ProcessingOutcome::TranslationError(TranslationError::MalformedField)
    );
    assert_eq!(outcomes[1], ProcessingOutcome::Integrated);
    assert_eq!(outcomes[2], ProcessingOutcome::Integrated);
    let counts = results.counts_for("trans_line");
    assert_eq!(counts.integrated_count, 2);
    assert_eq!(counts.errors_count, 1);
    // Both valid records landed.
    assert!(store.get_invoice_line("12ee2f10f0d211eb8dddb54df6d741bc").is_some());
    assert!(store.get_invoice_line("C9A2D5854A15457388C8266D95DE1945").is_some());
    assert!(store.get_invoice_line("bad_line").is_none());
}

#[test]
fn integrate_twice_reaches_the_same_state() {
    let mut once = fixture_store();
    let engine = TranslationAndIntegration::new();
    let records: Vec<SyncBufferRow> = get_test_trans_line_records()
        .into_iter()
        .map(|r| r.remote_sync_buffer_row)
        .collect();
    engine.translate_and_integrate_sync_records(&mut once, &records);

    let mut twice = once.clone();
    let (results, outcomes) = engine.translate_and_integrate_sync_records(&mut twice, &records);
    assert_eq!(once, twice);
    // Counters show the records as integrated again.
    assert_eq!(results.counts_for("trans_line").integrated_count, 4);
    for outcome in outcomes {
        assert_eq!(outcome, ProcessingOutcome::Integrated);
    }
}

#[test]
fn unclaimed_table_is_skipped_not_errored() {
    let mut store = fixture_store();
    let before = store.clone();
    let engine = TranslationAndIntegration::new();
    let mut payload = LegacyObject::new();
    payload.push_field("ID", Scalar::from_str_value("x"));
    let record = SyncBufferRow {
        id: "buffer_x".to_owned(),
        table_name: "list_master".to_owned(),
        record_id: "x".to_owned(),
        data: Payload::Object(payload),
        action: SyncAction::Update,
    };
    let (results, outcomes) =
        engine.translate_and_integrate_sync_records(&mut store, &vec![record]);
    assert_eq!(outcomes, vec![ProcessingOutcome::Unclaimed]);
    let counts = results.counts_for("list_master");
    assert_eq!(counts.integrated_count, 0);
    assert_eq!(counts.errors_count, 0);
    assert_eq!(store, before);
}

#[test]
fn missing_upsert_dependency_is_an_integration_error() {
    // The invoice the line references is absent, so translation claims the
    // record but applying it violates referential integrity.
    let mut store = NormalizedStore::new();
    store.upsert_item(fixture_item());
    let engine = TranslationAndIntegration::new();
    let record = get_test_trans_line_records()[0].remote_sync_buffer_row.clone();
    let (results, outcomes) =
        engine.translate_and_integrate_sync_records(&mut store, &vec![record]);
    assert_eq!(
        outcomes,
        vec![ProcessingOutcome::IntegrationError(
            RepositoryError::ForeignKeyViolation
        )]
    );
    assert_eq!(results.counts_for("trans_line").errors_count, 1);
    assert!(store.get_invoice_line("12ee2f10f0d211eb8dddb54df6d741bc").is_none());
}

#[test]
fn malformed_payload_is_a_translation_error() {
    let mut store = fixture_store();
    let engine = TranslationAndIntegration::new();
    let record = SyncBufferRow {
        id: "buffer_raw".to_owned(),
        table_name: "trans_line".to_owned(),
        record_id: "raw".to_owned(),
        data: Payload::Malformed,
        action: SyncAction::Update,
    };
    let (_, outcomes) = engine.translate_and_integrate_sync_records(&mut store, &vec![record]);
    assert_eq!(
        outcomes,
        vec![ProcessingOutcome::TranslationError(TranslationError::NotAnObject)]
    );
}

#[test]
fn unknown_line_type_is_rejected() {
    let store = fixture_store();
    let mut payload = LegacyObject::new();
    payload.push_field("ID", Scalar::from_str_value("x"));
    payload.push_field("transaction_ID", Scalar::from_str_value("outbound_shipment_a"));
    payload.push_field("item_ID", Scalar::from_str_value("item_a"));
    payload.push_field("item_name", Scalar::from_str_value("Item A"));
    payload.push_field("pack_size", Scalar::from_int(1));
    payload.push_field("cost_price", Scalar::from_int(1));
    payload.push_field("sell_price", Scalar::from_int(1));
    payload.push_field("type", Scalar::from_str_value("cash_in"));
    payload.push_field("quantity", Scalar::from_int(1));
    let record = SyncBufferRow {
        id: "buffer_x".to_owned(),
        table_name: "trans_line".to_owned(),
        record_id: "x".to_owned(),
        data: Payload::Object(payload),
        action: SyncAction::Update,
    };
    let engine = TranslationAndIntegration::new();
    let translators = sync_core::pull::all_translators();
    let result = engine.translate_sync_record(&store, &record, &translators);
    assert_eq!(result, Err(TranslationError::UnknownLineType));
}

#[test]
fn overflowing_computed_total_is_rejected() {
    let store = fixture_store();
    let mut payload = LegacyObject::new();
    payload.push_field("ID", Scalar::from_str_value("x"));
    payload.push_field("transaction_ID", Scalar::from_str_value("outbound_shipment_a"));
    payload.push_field("item_ID", Scalar::from_str_value("item_a"));
    payload.push_field("item_name", Scalar::from_str_value("Item A"));
    payload.push_field("pack_size", Scalar::from_int(1));
    payload.push_field("cost_price", Scalar::Num(i64::MAX));
    payload.push_field("sell_price", Scalar::from_int(0));
    payload.push_field("type", Scalar::from_str_value("stock_in"));
    payload.push_field("quantity", Scalar::from_int(1000));
    let record = SyncBufferRow {
        id: "buffer_x".to_owned(),
        table_name: "trans_line".to_owned(),
        record_id: "x".to_owned(),
        data: Payload::Object(payload),
        action: SyncAction::Update,
    };
    let engine = TranslationAndIntegration::new();
    let translators = sync_core::pull::all_translators();
    let result = engine.translate_sync_record(&store, &record, &translators);
    assert_eq!(result, Err(TranslationError::TotalOutOfRange));
}

#[test]
fn computed_totals_follow_the_line_direction() {
    // A stock-in line totals quantity times cost price.
    let store = fixture_store();
    let engine = TranslationAndIntegration::new();
    let translators = sync_core::pull::all_translators();
    let record = get_test_trans_line_records()[0].remote_sync_buffer_row.clone();
    let translated = engine
        .translate_sync_record(&store, &record, &translators)
        .unwrap()
        .unwrap();
    match &translated.upserts[0] {
        IntegrationUpsertRecord::InvoiceLine(row) => {
            assert_eq!(row.number_of_packs, 700);
            assert_eq!(row.pack_size, 1);
            assert_eq!(row.cost_price_per_pack, 1000);
            assert_eq!(row.total_before_tax, 700_000);
            assert_eq!(row.total_after_tax, 700_000);
            assert_eq!(row.tax, None);
            assert_eq!(row.line_type, InvoiceLineType::StockIn);
        }
        other => panic!("unexpected upsert: {:?}", other),
    }
}

#[test]
fn import_collects_then_applies_and_skips_missing_dependencies() {
    // The import path translates everything against the initial store and
    // only then applies, so a record whose dependency arrives in the same
    // batch but later is skipped, not failed.
    let mut store = NormalizedStore::new();
    store.upsert_item(fixture_item());
    store.upsert_name(base_name("name_a"));
    store.upsert_store(StoreRow {
        id: "store_a".to_owned(),
        name_id: "name_a".to_owned(),
        code: "c".to_owned(),
    });
    store.upsert_invoice(InvoiceRow {
        id: "outbound_shipment_a".to_owned(),
        name_id: "name_a".to_owned(),
        store_id: "store_a".to_owned(),
        invoice_type: InvoiceType::OutboundShipment,
        status: InvoiceStatus::New,
    });
    // No stock line "item_a_line_a": the line's foreign key fails and the
    // upsert is skipped.
    let records = vec![get_test_trans_line_records()[0].remote_sync_buffer_row.clone()];
    let result = sync_core::pull::import_sync_pull_records(&mut store, &records);
    assert_eq!(result, Ok(()));
    assert!(store.get_invoice_line("12ee2f10f0d211eb8dddb54df6d741bc").is_none());

    // With the stock line present the same import lands the row.
    store.upsert_stock_line(StockLineRow {
        id: "item_a_line_a".to_owned(),
        item_id: "item_a".to_owned(),
        store_id: "store_a".to_owned(),
        batch: None,
        pack_size: 1,
        available_number_of_packs: 10,
        total_number_of_packs: 10,
    });
    let result = sync_core::pull::import_sync_pull_records(&mut store, &records);
    assert_eq!(result, Ok(()));
    assert!(store.get_invoice_line("12ee2f10f0d211eb8dddb54df6d741bc").is_some());

    // A malformed record aborts the import before anything is applied.
    let mut bad_payload = LegacyObject::new();
    bad_payload.push_field("ID", Scalar::from_str_value("bad"));
    let bad = SyncBufferRow {
        id: "buffer_bad".to_owned(),
        table_name: "trans_line".to_owned(),
        record_id: "bad".to_owned(),
        data: Payload::Object(bad_payload),
        action: SyncAction::Update,
    };
    assert_eq!(
        sync_core::pull::import_sync_pull_records(&mut store, &vec![bad]),
        Err(TranslationError::MalformedField)
    );
}

#[test]
fn trans_line_round_trips_through_push_and_pull() {
    let store = fixture_store();
    let fixtures = get_test_trans_line_records();
    let translators = sync_core::pull::all_translators();
    for fixture in fixtures {
        let expected = fixture.translated_record.expect("fixture has a translation");
        let row = match &expected.upserts[0] {
            IntegrationUpsertRecord::InvoiceLine(row) => row.clone(),
            other => panic!("unexpected upsert: {:?}", other),
        };
        let pushed = sync_core::push::push_trans_line(&row);
        let record = SyncBufferRow {
            id: "buffer_rt".to_owned(),
            table_name: "trans_line".to_owned(),
            record_id: row.id.clone(),
            data: Payload::Object(pushed),
            action: SyncAction::Update,
        };
        let translated = sync_core::pull::dispatch_pull(&translators, &store, &record)
            .unwrap()
            .unwrap();
        assert_eq!(
            translated.upserts,
            vec![IntegrationUpsertRecord::InvoiceLine(row)]
        );
    }
}

#[test]
fn extension_fields_override_computed_totals() {
    let store = fixture_store();
    let engine = TranslationAndIntegration::new();
    let translators = sync_core::pull::all_translators();
    let record = get_test_trans_line_records()[2].remote_sync_buffer_row.clone();
    let translated = engine
        .translate_sync_record(&store, &record, &translators)
        .unwrap()
        .unwrap();
    match &translated.upserts[0] {
        IntegrationUpsertRecord::InvoiceLine(row) => {
            assert_eq!(row.tax, Some(3330));
            assert_eq!(row.total_before_tax, 10540);
            assert_eq!(row.total_after_tax, 13050);
        }
        other => panic!("unexpected upsert: {:?}", other),
    }
}
