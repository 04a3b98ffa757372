//! Fixture records for the `trans_line` translator: legacy payloads paired
//! with the normalized rows they translate to, and change-log entries
//! paired with the legacy payloads they push to.

use vstd::prelude::*;

use crate::buffer::Payload;
use crate::buffer::SyncAction;
use crate::buffer::SyncBufferRow;
use crate::date::Date;
use crate::legacy::LegacyObject;
use crate::legacy::Scalar;
use crate::pull::IntegrationRecord;
use crate::pull::IntegrationUpsertRecord;
use crate::push::ChangelogAction;
use crate::push::ChangelogRow;
use crate::push::ChangelogTableName;
use crate::rows::InvoiceLineRow;
use crate::rows::InvoiceLineType;

verus! {

/// One pull fixture: a buffered record and the normalized batch it is
/// expected to translate to (`None` for records expected unclaimed).
pub struct TestSyncRecord {
    pub translated_record: Option<IntegrationRecord>,
    pub identifier: String,
    pub remote_sync_buffer_row: SyncBufferRow,
}

/// One push fixture: a change-log entry and the legacy payload it is
/// expected to push as.
pub struct TestSyncPushRecord {
    pub change_log: ChangelogRow,
    pub push_data: LegacyObject,
}

/// The catalogue item the fixtures reference.
pub fn fixture_item() -> crate::rows::ItemRow {
    crate::rows::ItemRow {
        id: "item_a".to_owned(),
        name: "Item A".to_owned(),
        code: "item_a_code".to_owned(),
        unit_id: None,
    }
}

/// A stock-in line with computed totals and no extension fields.
pub fn trans_line_1_pull_record() -> TestSyncRecord {
    let mut data = LegacyObject::new();
    data.push_field("ID", Scalar::from_str_value("12ee2f10f0d211eb8dddb54df6d741bc"));
    data.push_field("Weight", Scalar::from_int(0));
    data.push_field("batch", Scalar::from_str_value("stocktake_1"));
    data.push_field("cost_price", Scalar::from_int(10));
    data.push_field("custom_data", Scalar::Null);
    data.push_field("donor_id", Scalar::from_str_value(""));
    data.push_field("expiry_date", Scalar::from_str_value("0000-00-00"));
    data.push_field("is_from_inventory_adjustment", Scalar::Bool(true));
    data.push_field("item_ID", Scalar::from_str_value("item_a"));
    data.push_field("item_line_ID", Scalar::from_str_value("item_a_line_a"));
    data.push_field("item_name", Scalar::from_str_value("Item A"));
    data.push_field("line_number", Scalar::from_int(1));
    data.push_field("location_ID", Scalar::from_str_value(""));
    data.push_field("note", Scalar::from_str_value(""));
    data.push_field("pack_size", Scalar::from_int(1));
    data.push_field("quantity", Scalar::from_int(700));
    data.push_field("sell_price", Scalar::from_int(0));
    data.push_field("transaction_ID", Scalar::from_str_value("outbound_shipment_a"));
    data.push_field("type", Scalar::from_str_value("stock_in"));
    TestSyncRecord {
        translated_record: Some(
            IntegrationRecord::from_upsert(
                IntegrationUpsertRecord::InvoiceLine(
                    InvoiceLineRow {
                        id: "12ee2f10f0d211eb8dddb54df6d741bc".to_owned(),
                        invoice_id: "outbound_shipment_a".to_owned(),
                        item_id: "item_a".to_owned(),
                        item_name: "Item A".to_owned(),
                        item_code: "item_a_code".to_owned(),
                        stock_line_id: Some("item_a_line_a".to_owned()),
                        location_id: None,
                        batch: Some("stocktake_1".to_owned()),
                        expiry_date: None,
                        pack_size: 1,
                        cost_price_per_pack: 1000,
                        sell_price_per_pack: 0,
                        total_before_tax: 700000,
                        total_after_tax: 700000,
                        tax: None,
                        line_type: InvoiceLineType::StockIn,
                        number_of_packs: 700,
                        note: None,
                    },
                ),
            ),
        ),
        identifier: "Transact line 1".to_owned(),
        remote_sync_buffer_row: SyncBufferRow {
            id: "Transact_line_10".to_owned(),
            table_name: "trans_line".to_owned(),
            record_id: "12ee2f10f0d211eb8dddb54df6d741bc".to_owned(),
            data: Payload::Object(data),
            action: SyncAction::Update,
        },
    }
}

/// The push shape of the first fixture line.
pub fn trans_line_1_push_record() -> TestSyncPushRecord {
    TestSyncPushRecord {
        change_log: ChangelogRow {
            id: 2,
            table_name: ChangelogTableName::InvoiceLine,
            row_id: "12ee2f10f0d211eb8dddb54df6d741bc".to_owned(),
            row_action: ChangelogAction::Upsert,
        },
        push_data: crate::push::push_trans_line(
            &InvoiceLineRow {
                id: "12ee2f10f0d211eb8dddb54df6d741bc".to_owned(),
                invoice_id: "outbound_shipment_a".to_owned(),
                item_id: "item_a".to_owned(),
                item_name: "Item A".to_owned(),
                item_code: "item_a_code".to_owned(),
                stock_line_id: Some("item_a_line_a".to_owned()),
                location_id: None,
                batch: Some("stocktake_1".to_owned()),
                expiry_date: None,
                pack_size: 1,
                cost_price_per_pack: 1000,
                sell_price_per_pack: 0,
                total_before_tax: 700000,
                total_after_tax: 700000,
                tax: None,
                line_type: InvoiceLineType::StockIn,
                number_of_packs: 700,
                note: None,
            },
        ),
    }
}

/// A stock-out line whose totals come from the sell price.
pub fn trans_line_2_pull_record() -> TestSyncRecord {
    let mut data = LegacyObject::new();
    data.push_field("ID", Scalar::from_str_value("C9A2D5854A15457388C8266D95DE1945"));
    data.push_field("batch", Scalar::from_str_value(""));
    data.push_field("cost_price", Scalar::from_int(5));
    data.push_field("expiry_date", Scalar::from_str_value("2022-02-22"));
    data.push_field("item_ID", Scalar::from_str_value("item_a"));
    data.push_field("item_line_ID", Scalar::from_str_value("item_a_line_a"));
    data.push_field("item_name", Scalar::from_str_value("Item A"));
    data.push_field("location_ID", Scalar::from_str_value(""));
    data.push_field("note", Scalar::from_str_value("every FOUR to SIX hours when necessary "));
    data.push_field("pack_size", Scalar::from_int(5));
    data.push_field("quantity", Scalar::from_int(1000));
    data.push_field("sell_price", Scalar::from_int(2));
    data.push_field("transaction_ID", Scalar::from_str_value("outbound_shipment_a"));
    data.push_field("type", Scalar::from_str_value("stock_out"));
    TestSyncRecord {
        translated_record: Some(
            IntegrationRecord::from_upsert(
                IntegrationUpsertRecord::InvoiceLine(trans_line_2_row()),
            ),
        ),
        identifier: "Transact line (Placeholder)".to_owned(),
        remote_sync_buffer_row: SyncBufferRow {
            id: "Transact_line_20".to_owned(),
            table_name: "trans_line".to_owned(),
            record_id: "C9A2D5854A15457388C8266D95DE1945".to_owned(),
            data: Payload::Object(data),
            action: SyncAction::Update,
        },
    }
}

/// The normalized row of the second fixture line.
fn trans_line_2_row() -> (r: InvoiceLineRow)
    ensures
        crate::push::line_push_wf(r.deep_view()),
{
    InvoiceLineRow {
        id: "C9A2D5854A15457388C8266D95DE1945".to_owned(),
        invoice_id: "outbound_shipment_a".to_owned(),
        item_id: "item_a".to_owned(),
        item_name: "Item A".to_owned(),
        item_code: "item_a_code".to_owned(),
        stock_line_id: Some("item_a_line_a".to_owned()),
        location_id: None,
        batch: None,
        expiry_date: Some(Date { year: 2022, month: 2, day: 22 }),
        pack_size: 5,
        cost_price_per_pack: 500,
        sell_price_per_pack: 200,
        total_before_tax: 200000,
        total_after_tax: 200000,
        tax: None,
        line_type: InvoiceLineType::StockOut,
        number_of_packs: 1000,
        note: Some("every FOUR to SIX hours when necessary ".to_owned()),
    }
}

/// The push shape of the second fixture line.
pub fn trans_line_2_push_record() -> TestSyncPushRecord {
    TestSyncPushRecord {
        change_log: ChangelogRow {
            id: 2,
            table_name: ChangelogTableName::InvoiceLine,
            row_id: "C9A2D5854A15457388C8266D95DE1945".to_owned(),
            row_action: ChangelogAction::Upsert,
        },
        push_data: crate::push::push_trans_line(&trans_line_2_row()),
    }
}

/// A line whose extension fields carry exact totals and tax, overriding
/// the computed values.
pub fn trans_line_om_fields_pull_record() -> TestSyncRecord {
    let mut data = LegacyObject::new();
    data.push_field("ID", Scalar::from_str_value("A9A2D5854A15457388C8266D95DE1945"));
    data.push_field("batch", Scalar::from_str_value(""));
    data.push_field("cost_price", Scalar::from_int(5));
    data.push_field("expiry_date", Scalar::from_str_value("2022-02-22"));
    data.push_field("item_ID", Scalar::from_str_value("item_a"));
    data.push_field("item_line_ID", Scalar::from_str_value("item_a_line_a"));
    data.push_field("item_name", Scalar::from_str_value("Item A"));
    data.push_field("location_ID", Scalar::from_str_value(""));
    data.push_field("note", Scalar::from_str_value("every FOUR to SIX hours when necessary "));
    data.push_field("pack_size", Scalar::from_int(5));
    data.push_field("quantity", Scalar::from_int(1000));
    data.push_field("sell_price", Scalar::from_int(2));
    data.push_field("transaction_ID", Scalar::from_str_value("outbound_shipment_a"));
    data.push_field("type", Scalar::from_str_value("stock_out"));
    data.push_field("om_item_code", Scalar::from_str_value("item_a_code"));
    data.push_field("om_tax", Scalar::Num(3330));
    data.push_field("om_total_before_tax", Scalar::Num(10540));
    data.push_field("om_total_after_tax", Scalar::Num(13050));
    TestSyncRecord {
        translated_record: Some(
            IntegrationRecord::from_upsert(
                IntegrationUpsertRecord::InvoiceLine(trans_line_om_fields_row()),
            ),
        ),
        identifier: "Transact line (om fields)".to_owned(),
        remote_sync_buffer_row: SyncBufferRow {
            id: "Transact_line_30".to_owned(),
            table_name: "trans_line".to_owned(),
            record_id: "A9A2D5854A15457388C8266D95DE1945".to_owned(),
            data: Payload::Object(data),
            action: SyncAction::Update,
        },
    }
}

/// The normalized row of the extension-field fixture line.
fn trans_line_om_fields_row() -> (r: InvoiceLineRow)
    ensures
        crate::push::line_push_wf(r.deep_view()),
{
    InvoiceLineRow {
        id: "A9A2D5854A15457388C8266D95DE1945".to_owned(),
        invoice_id: "outbound_shipment_a".to_owned(),
        item_id: "item_a".to_owned(),
        item_name: "Item A".to_owned(),
        item_code: "item_a_code".to_owned(),
        stock_line_id: Some("item_a_line_a".to_owned()),
        location_id: None,
        batch: None,
        expiry_date: Some(Date { year: 2022, month: 2, day: 22 }),
        pack_size: 5,
        cost_price_per_pack: 500,
        sell_price_per_pack: 200,
        total_before_tax: 10540,
        total_after_tax: 13050,
        tax: Some(3330),
        line_type: InvoiceLineType::StockOut,
        number_of_packs: 1000,
        note: Some("every FOUR to SIX hours when necessary ".to_owned()),
    }
}

/// The push shape of the extension-field fixture line.
pub fn trans_line_om_fields_push_record() -> TestSyncPushRecord {
    TestSyncPushRecord {
        change_log: ChangelogRow {
            id: 2,
            table_name: ChangelogTableName::InvoiceLine,
            row_id: "A9A2D5854A15457388C8266D95DE1945".to_owned(),
            row_action: ChangelogAction::Upsert,
        },
        push_data: crate::push::push_trans_line(&trans_line_om_fields_row()),
    }
}

/// A line whose extension tax field is explicitly null: the totals are
/// still taken from the extension fields, the tax stays unset.
pub fn trans_line_om_fields_unset_tax_pull_record() -> TestSyncRecord {
    let mut data = LegacyObject::new();
    data.push_field("ID", Scalar::from_str_value("4A15457388C8266D95DE1945A9A2D585"));
    data.push_field("batch", Scalar::from_str_value(""));
    data.push_field("cost_price", Scalar::from_int(5));
    data.push_field("expiry_date", Scalar::from_str_value("2022-02-22"));
    data.push_field("item_ID", Scalar::from_str_value("item_a"));
    data.push_field("item_line_ID", Scalar::from_str_value("item_a_line_a"));
    data.push_field("item_name", Scalar::from_str_value("Item A"));
    data.push_field("location_ID", Scalar::from_str_value(""));
    data.push_field("note", Scalar::from_str_value("every FOUR to SIX hours when necessary "));
    data.push_field("pack_size", Scalar::from_int(5));
    data.push_field("quantity", Scalar::from_int(1000));
    data.push_field("sell_price", Scalar::from_int(2));
    data.push_field("transaction_ID", Scalar::from_str_value("outbound_shipment_a"));
    data.push_field("type", Scalar::from_str_value("stock_out"));
    data.push_field("om_item_code", Scalar::from_str_value("item_a_code"));
    data.push_field("om_tax", Scalar::Null);
    data.push_field("om_total_before_tax", Scalar::Num(10540));
    data.push_field("om_total_after_tax", Scalar::Num(13050));
    TestSyncRecord {
        translated_record: Some(
            IntegrationRecord::from_upsert(
                IntegrationUpsertRecord::InvoiceLine(trans_line_om_fields_unset_tax_row()),
            ),
        ),
        identifier: "Transact line (om fields, unset tax)".to_owned(),
        remote_sync_buffer_row: SyncBufferRow {
            id: "Transact_line_40".to_owned(),
            table_name: "trans_line".to_owned(),
            record_id: "4A15457388C8266D95DE1945A9A2D585".to_owned(),
            data: Payload::Object(data),
            action: SyncAction::Update,
        },
    }
}

/// The normalized row of the unset-tax fixture line.
fn trans_line_om_fields_unset_tax_row() -> (r: InvoiceLineRow)
    ensures
        crate::push::line_push_wf(r.deep_view()),
{
    InvoiceLineRow {
        id: "4A15457388C8266D95DE1945A9A2D585".to_owned(),
        invoice_id: "outbound_shipment_a".to_owned(),
        item_id: "item_a".to_owned(),
        item_name: "Item A".to_owned(),
        item_code: "item_a_code".to_owned(),
        stock_line_id: Some("item_a_line_a".to_owned()),
        location_id: None,
        batch: None,
        expiry_date: Some(Date { year: 2022, month: 2, day: 22 }),
        pack_size: 5,
        cost_price_per_pack: 500,
        sell_price_per_pack: 200,
        total_before_tax: 10540,
        total_after_tax: 13050,
        tax: None,
        line_type: InvoiceLineType::StockOut,
        number_of_packs: 1000,
        note: Some("every FOUR to SIX hours when necessary ".to_owned()),
    }
}

/// The push shape of the unset-tax fixture line.
pub fn trans_line_om_fields_unset_tax_push_record() -> TestSyncPushRecord {
    TestSyncPushRecord {
        change_log: ChangelogRow {
            id: 2,
            table_name: ChangelogTableName::InvoiceLine,
            row_id: "4A15457388C8266D95DE1945A9A2D585".to_owned(),
            row_action: ChangelogAction::Upsert,
        },
        push_data: crate::push::push_trans_line(&trans_line_om_fields_unset_tax_row()),
    }
}

/// All pull fixtures for the `trans_line` translator.
pub fn get_test_trans_line_records() -> Vec<TestSyncRecord> {
    let mut v: Vec<TestSyncRecord> = Vec::new();
    v.push(trans_line_1_pull_record());
    v.push(trans_line_2_pull_record());
    v.push(trans_line_om_fields_pull_record());
    v.push(trans_line_om_fields_unset_tax_pull_record());
    v
}

/// All push fixtures for the `trans_line` translator.
pub fn get_test_push_trans_line_records() -> Vec<TestSyncPushRecord> {
    let mut v: Vec<TestSyncPushRecord> = Vec::new();
    v.push(trans_line_1_push_record());
    v.push(trans_line_2_push_record());
    v.push(trans_line_om_fields_push_record());
    v.push(trans_line_om_fields_unset_tax_push_record());
    v
}

} // verus!
