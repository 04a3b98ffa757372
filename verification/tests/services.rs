//! Patient queries, requisition creation and update, and the shipment-line
//! deletion validations.

use sync_core::date::Date;
use sync_core::filters::{DateFilter, EqualFilter, SimpleStringFilter};
use sync_core::inbound_shipment_line::{DeleteInboundShipmentLine, DeleteInboundShipmentLineError};
use sync_core::inbound_shipment_service_line::DeleteInboundShipmentServiceLineError;
use sync_core::patient::{get_patients, PatientFilter};
use sync_core::requisition::{
    insert_request_requisition, update_request_requisition, InsertRequestRequisition,
    InsertRequestRequisitionError, UpdateRequestRequisition, UpdateRequestRequisitionError,
    UpdateRequestRequstionStatus,
};
use sync_core::rows::{
    Gender, InvoiceLineRow, InvoiceLineType, InvoiceRow, InvoiceStatus, InvoiceType, NameRow,
    NameStoreJoinRow, NameType, RequisitionStatus, RequisitionType, StockLineRow, StoreRow,
};
use sync_core::store::NormalizedStore;

fn patient(id: &str, first: &str, last: &str, gender: Gender, dob: Option<Date>) -> NameRow {
    NameRow {
        id: id.to_owned(),
        name: id.to_owned(),
        code: format!("{}_code", id),
        name_type: NameType::Patient,
        is_customer: false,
        is_supplier: false,
        first_name: Some(first.to_owned()),
        last_name: Some(last.to_owned()),
        gender: Some(gender),
        date_of_birth: dob,
        phone: None,
        address1: None,
        address2: None,
        country: None,
        email: None,
    }
}

fn facility(id: &str) -> NameRow {
    NameRow {
        id: id.to_owned(),
        name: id.to_owned(),
        code: format!("{}_code", id),
        name_type: NameType::Facility,
        is_customer: true,
        is_supplier: true,
        first_name: None,
        last_name: None,
        gender: None,
        date_of_birth: None,
        phone: None,
        address1: None,
        address2: None,
        country: None,
        email: None,
    }
}

fn patient_store() -> NormalizedStore {
    let mut store = NormalizedStore::new();
    store.upsert_name(facility("facility_a"));
    store.upsert_name(patient(
        "patient1",
        "Tom",
        "Smith",
        Gender::Male,
        Some(Date { year: 2000, month: 3, day: 4 }),
    ));
    store.upsert_name(patient("patient2", "Eli", "Bond", Gender::Female, None));
    store.upsert_name(patient("patient3", "Heidi", "Tomalla", Gender::Female, None));
    store
}

#[test]
fn patients_exclude_other_name_types() {
    let store = patient_store();
    let all = get_patients(&store, "store_a", None, None);
    let ids: Vec<&String> = all.iter().map(|p| &p.name_row.id).collect();
    assert_eq!(ids, vec!["patient1", "patient2", "patient3"]);
}

#[test]
fn patient_filters_select_exactly() {
    let store = patient_store();

    let by_gender = get_patients(
        &store,
        "store_a",
        None,
        Some(PatientFilter::new().gender(EqualFilter::equal_to_value(Gender::Female))),
    );
    assert_eq!(by_gender.len(), 2);

    let by_first = get_patients(
        &store,
        "store_a",
        None,
        Some(PatientFilter::new().first_name(SimpleStringFilter::equal_to("Tom"))),
    );
    assert_eq!(by_first.len(), 1);
    assert_eq!(by_first[0].first_name(), Some("Tom".to_owned()));
    assert_eq!(by_first[0].last_name(), Some("Smith".to_owned()));

    // Substring match: "Tom" also occurs inside "Tomalla".
    let by_like = get_patients(
        &store,
        "store_a",
        None,
        Some(PatientFilter::new().last_name(SimpleStringFilter::like("Tom"))),
    );
    assert_eq!(by_like.len(), 1);
    assert_eq!(by_like[0].name_row.id, "patient3");

    let by_dob = get_patients(
        &store,
        "store_a",
        None,
        Some(
            PatientFilter::new()
                .date_of_birth(DateFilter::equal_to(Date { year: 2000, month: 3, day: 4 })),
        ),
    );
    assert_eq!(by_dob.len(), 1);
    assert_eq!(
        by_dob[0].date_of_birth(),
        Some(Date { year: 2000, month: 3, day: 4 })
    );

    let none = get_patients(
        &store,
        "store_a",
        None,
        Some(PatientFilter::new().first_name(SimpleStringFilter::equal_to("Nobody"))),
    );
    assert!(none.is_empty());
}

#[test]
fn patient_pagination_takes_a_page() {
    let store = patient_store();
    let page = get_patients(
        &store,
        "store_a",
        Some(sync_core::patient::PaginationOption { limit: Some(1), offset: Some(1) }),
        None,
    );
    assert_eq!(page.len(), 1);
    assert_eq!(page[0].name_row.id, "patient2");
    let past_end = get_patients(
        &store,
        "store_a",
        Some(sync_core::patient::PaginationOption { limit: Some(10), offset: Some(9) }),
        None,
    );
    assert!(past_end.is_empty());
}

/// A store where `store_a` can order from the supplying store `name_sup`,
/// while `name_store_b` is visible but not a supplier and `not_visible`
/// has no join at all.
fn requisition_store() -> NormalizedStore {
    let mut store = NormalizedStore::new();
    store.upsert_name(facility("name_a"));
    store.upsert_name(facility("name_sup"));
    store.upsert_name(facility("name_store_b"));
    store.upsert_name(facility("not_visible"));
    store.upsert_name(facility("no_store"));
    store.upsert_store(StoreRow {
        id: "store_a".to_owned(),
        name_id: "name_a".to_owned(),
        code: "store_a_code".to_owned(),
    });
    store.upsert_store(StoreRow {
        id: "store_sup".to_owned(),
        name_id: "name_sup".to_owned(),
        code: "store_sup_code".to_owned(),
    });
    store.upsert_name_store_join(NameStoreJoinRow {
        id: "join_sup".to_owned(),
        name_id: "name_sup".to_owned(),
        store_id: "store_a".to_owned(),
        name_is_customer: false,
        name_is_supplier: true,
    });
    store.upsert_name_store_join(NameStoreJoinRow {
        id: "join_b".to_owned(),
        name_id: "name_store_b".to_owned(),
        store_id: "store_a".to_owned(),
        name_is_customer: true,
        name_is_supplier: false,
    });
    store.upsert_name_store_join(NameStoreJoinRow {
        id: "join_no_store".to_owned(),
        name_id: "no_store".to_owned(),
        store_id: "store_a".to_owned(),
        name_is_customer: false,
        name_is_supplier: true,
    });
    store
}

fn insert_input(id: &str, other_party: &str) -> InsertRequestRequisition {
    InsertRequestRequisition {
        id: id.to_owned(),
        other_party_id: other_party.to_owned(),
        colour: None,
        their_reference: None,
        comment: None,
        max_months_of_stock: 100,
        min_months_of_stock: 50,
    }
}

#[test]
fn insert_request_requisition_errors() {
    let mut store = requisition_store();
    let now: i64 = 1_650_000_000;

    // RequisitionAlreadyExists
    let first = insert_request_requisition(
        &mut store,
        "store_a",
        "n/a",
        insert_input("existing", "name_sup"),
        now,
    );
    assert!(first.is_ok());
    assert_eq!(
        insert_request_requisition(
            &mut store,
            "store_a",
            "n/a",
            insert_input("existing", "name_sup"),
            now,
        ),
        Err(InsertRequestRequisitionError::RequisitionAlreadyExists)
    );

    // OtherPartyNotASupplier
    assert_eq!(
        insert_request_requisition(
            &mut store,
            "store_a",
            "n/a",
            insert_input("new_request_requisition", "name_store_b"),
            now,
        ),
        Err(InsertRequestRequisitionError::OtherPartyNotASupplier)
    );

    // OtherPartyNotVisible
    assert_eq!(
        insert_request_requisition(
            &mut store,
            "store_a",
            "n/a",
            insert_input("new_id", "not_visible"),
            now,
        ),
        Err(InsertRequestRequisitionError::OtherPartyNotVisible)
    );

    // OtherPartyDoesNotExist
    assert_eq!(
        insert_request_requisition(
            &mut store,
            "store_a",
            "n/a",
            insert_input("new_request_requisition", "invalid"),
            now,
        ),
        Err(InsertRequestRequisitionError::OtherPartyDoesNotExist)
    );

    // OtherPartyIsNotAStore
    assert_eq!(
        insert_request_requisition(
            &mut store,
            "store_a",
            "n/a",
            insert_input("new_request_requisition", "no_store"),
            now,
        ),
        Err(InsertRequestRequisitionError::OtherPartyIsNotAStore)
    );
}

#[test]
fn insert_request_requisition_success() {
    let mut store = requisition_store();
    let now: i64 = 1_650_000_000;
    let result = insert_request_requisition(
        &mut store,
        "store_a",
        "user_account_a",
        InsertRequestRequisition {
            id: "new_request_requisition".to_owned(),
            other_party_id: "name_sup".to_owned(),
            colour: Some("new colour".to_owned()),
            their_reference: Some("new their_reference".to_owned()),
            comment: Some("new comment".to_owned()),
            max_months_of_stock: 100,
            min_months_of_stock: 50,
        },
        now,
    )
    .unwrap();

    let row = store.get_requisition(&result.id).unwrap();
    assert_eq!(row.id, "new_request_requisition");
    assert_eq!(row.user_id, Some("user_account_a".to_owned()));
    assert_eq!(row.name_id, "name_sup");
    assert_eq!(row.colour, Some("new colour".to_owned()));
    assert_eq!(row.their_reference, Some("new their_reference".to_owned()));
    assert_eq!(row.comment, Some("new comment".to_owned()));
    assert_eq!(row.max_months_of_stock, 100);
    assert_eq!(row.min_months_of_stock, 50);
    assert_eq!(row.store_id, "store_a");
    assert_eq!(row.requisition_type, RequisitionType::Request);
    assert_eq!(row.status, RequisitionStatus::Draft);
    assert_eq!(row.created_datetime, now);
    assert_eq!(row.sent_datetime, None);
    assert_eq!(row.finalised_datetime, None);
    assert_eq!(row.linked_requisition_id, None);
    assert_eq!(row.requisition_number, 1);

    // The store's counter moves on.
    let second = insert_request_requisition(
        &mut store,
        "store_a",
        "user_account_a",
        insert_input("another", "name_sup"),
        now,
    )
    .unwrap();
    assert_eq!(second.requisition_number, 2);
}

#[test]
fn update_request_requisition_moves_a_draft_to_sent() {
    let mut store = requisition_store();
    let created: i64 = 1_650_000_000;
    let sent: i64 = 1_650_000_999;
    insert_request_requisition(
        &mut store,
        "store_a",
        "n/a",
        insert_input("req_1", "name_sup"),
        created,
    )
    .unwrap();

    // Wrong store.
    assert_eq!(
        update_request_requisition(
            &mut store,
            "store_sup",
            UpdateRequestRequisition {
                id: "req_1".to_owned(),
                colour: None,
                their_reference: None,
                comment: None,
                max_months_of_stock: None,
                threshold_months_of_stock: None,
                status: None,
            },
            sent,
        ),
        Err(UpdateRequestRequisitionError::NotThisStoreRequisition)
    );

    // Missing requisition.
    assert_eq!(
        update_request_requisition(
            &mut store,
            "store_a",
            UpdateRequestRequisition {
                id: "missing".to_owned(),
                colour: None,
                their_reference: None,
                comment: None,
                max_months_of_stock: None,
                threshold_months_of_stock: None,
                status: None,
            },
            sent,
        ),
        Err(UpdateRequestRequisitionError::RequisitionDoesNotExist)
    );

    // Send it.
    let updated = update_request_requisition(
        &mut store,
        "store_a",
        UpdateRequestRequisition {
            id: "req_1".to_owned(),
            colour: Some("blue".to_owned()),
            their_reference: None,
            comment: None,
            max_months_of_stock: Some(200),
            threshold_months_of_stock: Some(75),
            status: Some(UpdateRequestRequstionStatus::Sent),
        },
        sent,
    )
    .unwrap();
    assert_eq!(updated.status, RequisitionStatus::Sent);
    assert_eq!(updated.sent_datetime, Some(sent));
    assert_eq!(updated.colour, Some("blue".to_owned()));
    assert_eq!(updated.max_months_of_stock, 200);
    assert_eq!(updated.min_months_of_stock, 75);
    assert_eq!(updated.created_datetime, created);

    // Once sent, no longer editable.
    assert_eq!(
        update_request_requisition(
            &mut store,
            "store_a",
            UpdateRequestRequisition {
                id: "req_1".to_owned(),
                colour: None,
                their_reference: None,
                comment: None,
                max_months_of_stock: None,
                threshold_months_of_stock: None,
                status: None,
            },
            sent,
        ),
        Err(UpdateRequestRequisitionError::CannotEditRequisition)
    );
}

/// A store with one inbound shipment and one line per batch condition.
fn shipment_store() -> NormalizedStore {
    let mut store = NormalizedStore::new();
    store.upsert_name(facility("name_a"));
    store.upsert_store(StoreRow {
        id: "store_a".to_owned(),
        name_id: "name_a".to_owned(),
        code: "c".to_owned(),
    });
    store.upsert_invoice(InvoiceRow {
        id: "inbound_a".to_owned(),
        name_id: "name_a".to_owned(),
        store_id: "store_a".to_owned(),
        invoice_type: InvoiceType::InboundShipment,
        status: InvoiceStatus::Delivered,
    });
    store.upsert_invoice(InvoiceRow {
        id: "inbound_verified".to_owned(),
        name_id: "name_a".to_owned(),
        store_id: "store_a".to_owned(),
        invoice_type: InvoiceType::InboundShipment,
        status: InvoiceStatus::Verified,
    });
    store.upsert_invoice(InvoiceRow {
        id: "outbound_a".to_owned(),
        name_id: "name_a".to_owned(),
        store_id: "store_a".to_owned(),
        invoice_type: InvoiceType::OutboundShipment,
        status: InvoiceStatus::New,
    });
    store.upsert_stock_line(StockLineRow {
        id: "free_batch".to_owned(),
        item_id: "item_a".to_owned(),
        store_id: "store_a".to_owned(),
        batch: None,
        pack_size: 1,
        available_number_of_packs: 10,
        total_number_of_packs: 10,
    });
    store.upsert_stock_line(StockLineRow {
        id: "reserved_batch".to_owned(),
        item_id: "item_a".to_owned(),
        store_id: "store_a".to_owned(),
        batch: None,
        pack_size: 1,
        available_number_of_packs: 4,
        total_number_of_packs: 10,
    });
    let line = |id: &str, invoice_id: &str, stock_line: Option<&str>| InvoiceLineRow {
        id: id.to_owned(),
        invoice_id: invoice_id.to_owned(),
        item_id: "item_a".to_owned(),
        item_name: "Item A".to_owned(),
        item_code: "item_a_code".to_owned(),
        stock_line_id: stock_line.map(|s| s.to_owned()),
        location_id: None,
        batch: None,
        expiry_date: None,
        pack_size: 1,
        cost_price_per_pack: 0,
        sell_price_per_pack: 0,
        total_before_tax: 0,
        total_after_tax: 0,
        tax: None,
        line_type: InvoiceLineType::StockIn,
        number_of_packs: 1,
        note: None,
    };
    store.upsert_invoice_line(line("line_free", "inbound_a", Some("free_batch")));
    store.upsert_invoice_line(line("line_reserved", "inbound_a", Some("reserved_batch")));
    store.upsert_invoice_line(line("line_verified", "inbound_verified", None));
    store.upsert_invoice_line(line("line_outbound", "outbound_a", None));
    store
}

#[test]
fn delete_line_validation_checks_each_condition() {
    let store = shipment_store();
    let input = |id: &str| DeleteInboundShipmentLine { id: id.to_owned() };

    let ok = sync_core::inbound_shipment_line::validate(&input("line_free"), "store_a", &store);
    let (invoice, line) = ok.unwrap();
    assert_eq!(invoice.id, "inbound_a");
    assert_eq!(line.id, "line_free");

    assert_eq!(
        sync_core::inbound_shipment_line::validate(&input("missing"), "store_a", &store),
        Err(DeleteInboundShipmentLineError::LineDoesNotExist)
    );
    assert_eq!(
        sync_core::inbound_shipment_line::validate(&input("line_free"), "store_b", &store),
        Err(DeleteInboundShipmentLineError::NotThisStoreInvoice)
    );
    assert_eq!(
        sync_core::inbound_shipment_line::validate(&input("line_outbound"), "store_a", &store),
        Err(DeleteInboundShipmentLineError::NotAnInboundShipment)
    );
    assert_eq!(
        sync_core::inbound_shipment_line::validate(&input("line_verified"), "store_a", &store),
        Err(DeleteInboundShipmentLineError::CannotEditFinalised)
    );
    assert_eq!(
        sync_core::inbound_shipment_line::validate(&input("line_reserved"), "store_a", &store),
        Err(DeleteInboundShipmentLineError::BatchIsReserved)
    );
}

#[test]
fn delete_service_line_validation_checks_each_condition() {
    let store = shipment_store();
    let input = |id: &str| DeleteInboundShipmentLine { id: id.to_owned() };

    // Service-line deletion does not look at the batch.
    let ok = sync_core::inbound_shipment_service_line::validate(
        &input("line_reserved"),
        "store_a",
        &store,
    );
    assert_eq!(ok.unwrap().id, "line_reserved");

    assert_eq!(
        sync_core::inbound_shipment_service_line::validate(&input("missing"), "store_a", &store),
        Err(DeleteInboundShipmentServiceLineError::LineDoesNotExist)
    );
    assert_eq!(
        sync_core::inbound_shipment_service_line::validate(
            &input("line_outbound"),
            "store_a",
            &store,
        ),
        Err(DeleteInboundShipmentServiceLineError::NotAnInboundShipment)
    );
    assert_eq!(
        sync_core::inbound_shipment_service_line::validate(
            &input("line_verified"),
            "store_a",
            &store,
        ),
        Err(DeleteInboundShipmentServiceLineError::CannotEditInvoice)
    );
    assert_eq!(
        sync_core::inbound_shipment_service_line::validate(
            &input("line_free"),
            "store_b",
            &store,
        ),
        Err(DeleteInboundShipmentServiceLineError::NotThisStoreInvoice)
    );
}
