//! Translator for the legacy `trans_line` table: one invoice line.
//!
//! Legacy fields are renamed into the normalized shape (`transaction_ID` to
//! `invoice_id`, `quantity` to `number_of_packs`, ...). Totals are computed
//! from quantity and the price the line's direction uses, unless
//! `om_`-prefixed extension fields carry exact totals from a normalized
//! peer, in which case those override the computed values.

use vstd::prelude::*;

use crate::buffer::Payload;
use crate::buffer::PayloadV;
use crate::buffer::SyncBufferRow;
use crate::buffer::SyncBufferRowV;
use crate::date::Date;
use crate::errors::TranslationError;
use crate::legacy::int_field;
use crate::legacy::money_field;
use crate::legacy::opt_date_field;
use crate::legacy::opt_money_field;
use crate::legacy::opt_str_field;
use crate::legacy::str_field;
use crate::legacy::LegacyObject;
use crate::legacy::ObjectV;
use crate::pull::IntegrationRecord;
use crate::pull::IntegrationRecordV;
use crate::pull::IntegrationUpsertRecord;
use crate::pull::IntegrationUpsertRecordV;
use crate::pull::RemotePullTranslation;
use crate::rows::InvoiceLineRow;
use crate::rows::InvoiceLineRowV;
use crate::rows::InvoiceLineType;
use crate::store::NormalizedStore;
use crate::store::StoreV;
use crate::text::str_eq;

verus! {

/// The legacy table name this translator claims.
pub open spec fn trans_line_table_name() -> Seq<char> {
    "trans_line"@
}

/// The line direction a legacy `type` value denotes.
pub open spec fn line_type_of(s: Seq<char>) -> Option<InvoiceLineType> {
    if s == "stock_in"@ {
        Some(InvoiceLineType::StockIn)
    } else if s == "stock_out"@ {
        Some(InvoiceLineType::StockOut)
    } else {
        None
    }
}

/// The legacy `type` value a line direction is written as.
pub open spec fn line_type_str(t: InvoiceLineType) -> Seq<char> {
    match t {
        InvoiceLineType::StockIn => "stock_in"@,
        InvoiceLineType::StockOut => "stock_out"@,
    }
}

/// The fields read out of a legacy `trans_line` payload, before lookups.
#[verifier::ext_equal]
pub struct TransLineFieldsV {
    pub id: Seq<char>,
    pub invoice_id: Seq<char>,
    pub item_id: Seq<char>,
    pub item_name: Seq<char>,
    pub stock_line_id: Option<Seq<char>>,
    pub location_id: Option<Seq<char>>,
    pub batch: Option<Seq<char>>,
    pub expiry_date: Option<Date>,
    pub pack_size: i64,
    pub cost_price: i64,
    pub sell_price: i64,
    pub line_type: Seq<char>,
    pub quantity: i64,
    pub note: Option<Seq<char>>,
    pub om_item_code: Option<Seq<char>>,
    pub om_tax: Option<i64>,
    pub om_total_before_tax: Option<i64>,
    pub om_total_after_tax: Option<i64>,
}

/// The raw fields a payload object denotes, if structurally valid.
pub open spec fn trans_line_fields_of(o: ObjectV) -> Option<TransLineFieldsV> {
    match (
        str_field(o, "ID"@),
        str_field(o, "transaction_ID"@),
        str_field(o, "item_ID"@),
        str_field(o, "item_name"@),
        opt_str_field(o, "item_line_ID"@),
        opt_str_field(o, "location_ID"@),
        opt_str_field(o, "batch"@),
        opt_date_field(o, "expiry_date"@),
        int_field(o, "pack_size"@),
        money_field(o, "cost_price"@),
        money_field(o, "sell_price"@),
        str_field(o, "type"@),
        int_field(o, "quantity"@),
        opt_str_field(o, "note"@),
    ) {
        (
            Some(id),
            Some(invoice_id),
            Some(item_id),
            Some(item_name),
            Some(stock_line_id),
            Some(location_id),
            Some(batch),
            Some(expiry_date),
            Some(pack_size),
            Some(cost_price),
            Some(sell_price),
            Some(line_type),
            Some(quantity),
            Some(note),
        ) => match (
            opt_str_field(o, "om_item_code"@),
            opt_money_field(o, "om_tax"@),
            opt_money_field(o, "om_total_before_tax"@),
            opt_money_field(o, "om_total_after_tax"@),
        ) {
            (Some(om_item_code), Some(om_tax), Some(om_before), Some(om_after)) => Some(
                TransLineFieldsV {
                    id,
                    invoice_id,
                    item_id,
                    item_name,
                    stock_line_id,
                    location_id,
                    batch,
                    expiry_date,
                    pack_size,
                    cost_price,
                    sell_price,
                    line_type,
                    quantity,
                    note,
                    om_item_code,
                    om_tax,
                    om_total_before_tax: om_before,
                    om_total_after_tax: om_after,
                },
            ),
            _ => None,
        },
        _ => None,
    }
}

/// The price one pack contributes to the line total: the cost price on
/// stock-in lines, the sell price on stock-out lines.
pub open spec fn price_for(t: InvoiceLineType, cost_price: i64, sell_price: i64) -> i64 {
    match t {
        InvoiceLineType::StockIn => cost_price,
        InvoiceLineType::StockOut => sell_price,
    }
}

/// What translating structurally valid fields against a store yields, once
/// the legacy `type` is recognized: unclaimed when the referenced item has
/// not arrived, the mapped row otherwise. Totals use the extension fields
/// when present and the computed `quantity * price` otherwise; a computed
/// total that does not fit the numeric range is an error.
pub open spec fn trans_line_row_spec(store: StoreV, f: TransLineFieldsV, t: InvoiceLineType) -> Result<
    Option<InvoiceLineRowV>,
    TranslationError,
> {
    if !store.items.contains_key(f.item_id) {
        Ok(None)
    } else {
        let item = store.items[f.item_id];
        let computed = f.quantity * price_for(t, f.cost_price, f.sell_price);
        let needs_computed = f.om_total_before_tax is None || f.om_total_after_tax is None;
        if needs_computed && !(i64::MIN <= computed <= i64::MAX) {
            Err(TranslationError::TotalOutOfRange)
        } else {
            Ok(
                Some(
                    InvoiceLineRowV {
                        id: f.id,
                        invoice_id: f.invoice_id,
                        item_id: f.item_id,
                        item_name: f.item_name,
                        item_code: match f.om_item_code {
                            Some(c) => c,
                            None => item.code,
                        },
                        stock_line_id: f.stock_line_id,
                        location_id: f.location_id,
                        batch: f.batch,
                        expiry_date: f.expiry_date,
                        pack_size: f.pack_size,
                        cost_price_per_pack: f.cost_price,
                        sell_price_per_pack: f.sell_price,
                        total_before_tax: match f.om_total_before_tax {
                            Some(v) => v,
                            None => computed as i64,
                        },
                        total_after_tax: match f.om_total_after_tax {
                            Some(v) => v,
                            None => computed as i64,
                        },
                        tax: f.om_tax,
                        line_type: t,
                        number_of_packs: f.quantity,
                        note: f.note,
                    },
                ),
            )
        }
    }
}

/// Translator for the legacy `trans_line` table.
#[derive(Clone, Copy, Debug)]
pub struct TransLineTranslation {}

impl RemotePullTranslation for TransLineTranslation {
    open spec fn pull_spec(&self, store: StoreV, record: SyncBufferRowV) -> Result<
        Option<IntegrationRecordV>,
        TranslationError,
    > {
        if record.table_name != trans_line_table_name() {
            Ok(None)
        } else {
            match record.data {
                PayloadV::Malformed => Err(TranslationError::NotAnObject),
                PayloadV::Object(o) => match trans_line_fields_of(o) {
                    None => Err(TranslationError::MalformedField),
                    Some(f) => match line_type_of(f.line_type) {
                        None => Err(TranslationError::UnknownLineType),
                        Some(t) => match trans_line_row_spec(store, f, t) {
                            Err(e) => Err(e),
                            Ok(None) => Ok(None),
                            Ok(Some(row)) => Ok(
                                Some(
                                    IntegrationRecordV {
                                        upserts: seq![
                                            IntegrationUpsertRecordV::InvoiceLine(row),
                                        ],
                                    },
                                ),
                            ),
                        },
                    },
                },
            }
        }
    }

    fn try_translate_pull(&self, store: &NormalizedStore, record: &SyncBufferRow) -> (r: Result<
        Option<IntegrationRecord>,
        TranslationError,
    >) {
        if !str_eq(record.table_name.as_str(), "trans_line") {
            return Ok(None);
        }
        let obj = match &record.data {
            Payload::Malformed => {
                return Err(TranslationError::NotAnObject);
            },
            Payload::Object(o) => o,
        };
        let f = match read_trans_line_fields(obj) {
            Some(f) => f,
            None => {
                return Err(TranslationError::MalformedField);
            },
        };
        let t = if str_eq(f.line_type.as_str(), "stock_in") {
            InvoiceLineType::StockIn
        } else if str_eq(f.line_type.as_str(), "stock_out") {
            InvoiceLineType::StockOut
        } else {
            return Err(TranslationError::UnknownLineType);
        };
        let item = match store.get_item(f.item_id.as_str()) {
            Some(item) => item,
            None => {
                // The referenced item has not arrived: unclaimed, retried
                // once the item itself has synchronized.
                return Ok(None);
            },
        };
        let price = match t {
            InvoiceLineType::StockIn => f.cost_price,
            InvoiceLineType::StockOut => f.sell_price,
        };
        let needs_computed = f.om_total_before_tax.is_none() || f.om_total_after_tax.is_none();
        let computed: i64 = if needs_computed {
            match f.quantity.checked_mul(price) {
                Some(v) => v,
                None => {
                    return Err(TranslationError::TotalOutOfRange);
                },
            }
        } else {
            0
        };
        let item_code = match f.om_item_code {
            Some(c) => c,
            None => item.code.clone(),
        };
        let row = InvoiceLineRow {
            id: f.id,
            invoice_id: f.invoice_id,
            item_id: f.item_id,
            item_name: f.item_name,
            item_code,
            stock_line_id: f.stock_line_id,
            location_id: f.location_id,
            batch: f.batch,
            expiry_date: f.expiry_date,
            pack_size: f.pack_size,
            cost_price_per_pack: f.cost_price,
            sell_price_per_pack: f.sell_price,
            total_before_tax: match f.om_total_before_tax {
                Some(v) => v,
                None => computed,
            },
            total_after_tax: match f.om_total_after_tax {
                Some(v) => v,
                None => computed,
            },
            tax: f.om_tax,
            line_type: t,
            number_of_packs: f.quantity,
            note: f.note,
        };
        Ok(Some(IntegrationRecord::from_upsert(IntegrationUpsertRecord::InvoiceLine(row))))
    }
}

/// The raw fields of a legacy `trans_line` payload.
pub struct TransLineFields {
    pub id: String,
    pub invoice_id: String,
    pub item_id: String,
    pub item_name: String,
    pub stock_line_id: Option<String>,
    pub location_id: Option<String>,
    pub batch: Option<String>,
    pub expiry_date: Option<Date>,
    pub pack_size: i64,
    pub cost_price: i64,
    pub sell_price: i64,
    pub line_type: String,
    pub quantity: i64,
    pub note: Option<String>,
    pub om_item_code: Option<String>,
    pub om_tax: Option<i64>,
    pub om_total_before_tax: Option<i64>,
    pub om_total_after_tax: Option<i64>,
}

impl DeepView for TransLineFields {
    type V = TransLineFieldsV;

    open spec fn deep_view(&self) -> TransLineFieldsV {
        TransLineFieldsV {
            id: self.id@,
            invoice_id: self.invoice_id@,
            item_id: self.item_id@,
            item_name: self.item_name@,
            stock_line_id: self.stock_line_id.deep_view(),
            location_id: self.location_id.deep_view(),
            batch: self.batch.deep_view(),
            expiry_date: self.expiry_date,
            pack_size: self.pack_size,
            cost_price: self.cost_price,
            sell_price: self.sell_price,
            line_type: self.line_type@,
            quantity: self.quantity,
            note: self.note.deep_view(),
            om_item_code: self.om_item_code.deep_view(),
            om_tax: self.om_tax,
            om_total_before_tax: self.om_total_before_tax,
            om_total_after_tax: self.om_total_after_tax,
        }
    }
}

/// Read the raw legacy fields out of a payload object.
pub fn read_trans_line_fields(obj: &LegacyObject) -> (r: Option<TransLineFields>)
    ensures
        r.deep_view() == trans_line_fields_of(obj.deep_view()),
{
    let id = obj.read_str("ID");
    let invoice_id = obj.read_str("transaction_ID");
    let item_id = obj.read_str("item_ID");
    let item_name = obj.read_str("item_name");
    let stock_line_id = obj.read_opt_str("item_line_ID");
    let location_id = obj.read_opt_str("location_ID");
    let batch = obj.read_opt_str("batch");
    let expiry_date = obj.read_opt_date("expiry_date");
    let pack_size = obj.read_int("pack_size");
    let cost_price = obj.read_money("cost_price");
    let sell_price = obj.read_money("sell_price");
    let line_type = obj.read_str("type");
    let quantity = obj.read_int("quantity");
    let note = obj.read_opt_str("note");
    let om_item_code = obj.read_opt_str("om_item_code");
    let om_tax = obj.read_opt_money("om_tax");
    let om_before = obj.read_opt_money("om_total_before_tax");
    let om_after = obj.read_opt_money("om_total_after_tax");
    match (
        id,
        invoice_id,
        item_id,
        item_name,
        stock_line_id,
        location_id,
        batch,
        expiry_date,
        pack_size,
        cost_price,
        sell_price,
        line_type,
        quantity,
        note,
    ) {
        (
            Some(id),
            Some(invoice_id),
            Some(item_id),
            Some(item_name),
            Some(stock_line_id),
            Some(location_id),
            Some(batch),
            Some(expiry_date),
            Some(pack_size),
            Some(cost_price),
            Some(sell_price),
            Some(line_type),
            Some(quantity),
            Some(note),
        ) => match (om_item_code, om_tax, om_before, om_after) {
            (Some(om_item_code), Some(om_tax), Some(om_before), Some(om_after)) => Some(
                TransLineFields {
                    id,
                    invoice_id,
                    item_id,
                    item_name,
                    stock_line_id,
                    location_id,
                    batch,
                    expiry_date,
                    pack_size,
                    cost_price,
                    sell_price,
                    line_type,
                    quantity,
                    note,
                    om_item_code,
                    om_tax,
                    om_total_before_tax: om_before,
                    om_total_after_tax: om_after,
                },
            ),
            _ => None,
        },
        _ => None,
    }
}

} // verus!
