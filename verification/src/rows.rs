//! Rows of the normalized domain schema, as plain values.
//!
//! Money amounts (`cost_price_per_pack`, `total_before_tax`, ...) are kept in
//! hundredths of a unit, matching the wire convention of [`crate::legacy`].

use vstd::prelude::*;

use crate::date::Date;
use crate::table::KeyedRow;

verus! {

/// Gender of a patient name row.
#[derive(Clone, Copy, Debug, PartialEq, Eq, Structural, Hash)]
pub enum Gender {
    Female,
    Male,
    Unknown,
}

/// What kind of entity a name row stands for.
#[derive(Clone, Copy, Debug, PartialEq, Eq, Structural, Hash)]
pub enum NameType {
    Facility,
    Patient,
    Store,
}

/// Direction of an invoice.
#[derive(Clone, Copy, Debug, PartialEq, Eq, Structural, Hash)]
pub enum InvoiceType {
    InboundShipment,
    OutboundShipment,
    InventoryAdjustment,
}

/// Lifecycle status of an invoice.
#[derive(Clone, Copy, Debug, PartialEq, Eq, Structural, Hash)]
pub enum InvoiceStatus {
    New,
    Allocated,
    Picked,
    Shipped,
    Delivered,
    Verified,
}

/// Direction of stock movement on an invoice line.
#[derive(Clone, Copy, Debug, PartialEq, Eq, Structural, Hash)]
pub enum InvoiceLineType {
    StockIn,
    StockOut,
}

impl DeepView for Gender {
    type V = Gender;

    open spec fn deep_view(&self) -> Gender {
        *self
    }
}

/// A unit of measure.
#[derive(Debug, PartialEq)]
pub struct UnitRow {
    pub id: String,
    pub name: String,
}

/// The value of a [`UnitRow`].
#[verifier::ext_equal]
pub struct UnitRowV {
    pub id: Seq<char>,
    pub name: Seq<char>,
}

impl DeepView for UnitRow {
    type V = UnitRowV;

    open spec fn deep_view(&self) -> UnitRowV {
        UnitRowV { id: self.id@, name: self.name@ }
    }
}

/// An item of the catalogue.
#[derive(Debug, PartialEq)]
pub struct ItemRow {
    pub id: String,
    pub name: String,
    pub code: String,
    pub unit_id: Option<String>,
}

/// The value of an [`ItemRow`].
#[verifier::ext_equal]
pub struct ItemRowV {
    pub id: Seq<char>,
    pub name: Seq<char>,
    pub code: Seq<char>,
    pub unit_id: Option<Seq<char>>,
}

impl DeepView for ItemRow {
    type V = ItemRowV;

    open spec fn deep_view(&self) -> ItemRowV {
        ItemRowV {
            id: self.id@,
            name: self.name@,
            code: self.code@,
            unit_id: self.unit_id.deep_view(),
        }
    }
}

/// A name: a facility, store or patient known to the system.
#[derive(Debug, PartialEq)]
pub struct NameRow {
    pub id: String,
    pub name: String,
    pub code: String,
    pub name_type: NameType,
    pub is_customer: bool,
    pub is_supplier: bool,
    pub first_name: Option<String>,
    pub last_name: Option<String>,
    pub gender: Option<Gender>,
    pub date_of_birth: Option<Date>,
    pub phone: Option<String>,
    pub address1: Option<String>,
    pub address2: Option<String>,
    pub country: Option<String>,
    pub email: Option<String>,
}

/// The value of a [`NameRow`].
#[verifier::ext_equal]
pub struct NameRowV {
    pub id: Seq<char>,
    pub name: Seq<char>,
    pub code: Seq<char>,
    pub name_type: NameType,
    pub is_customer: bool,
    pub is_supplier: bool,
    pub first_name: Option<Seq<char>>,
    pub last_name: Option<Seq<char>>,
    pub gender: Option<Gender>,
    pub date_of_birth: Option<Date>,
    pub phone: Option<Seq<char>>,
    pub address1: Option<Seq<char>>,
    pub address2: Option<Seq<char>>,
    pub country: Option<Seq<char>>,
    pub email: Option<Seq<char>>,
}

impl DeepView for NameRow {
    type V = NameRowV;

    open spec fn deep_view(&self) -> NameRowV {
        NameRowV {
            id: self.id@,
            name: self.name@,
            code: self.code@,
            name_type: self.name_type,
            is_customer: self.is_customer,
            is_supplier: self.is_supplier,
            first_name: self.first_name.deep_view(),
            last_name: self.last_name.deep_view(),
            gender: self.gender,
            date_of_birth: self.date_of_birth,
            phone: self.phone.deep_view(),
            address1: self.address1.deep_view(),
            address2: self.address2.deep_view(),
            country: self.country.deep_view(),
            email: self.email.deep_view(),
        }
    }
}

/// A store: a site holding stock.
#[derive(Debug, PartialEq)]
pub struct StoreRow {
    pub id: String,
    pub name_id: String,
    pub code: String,
}

/// The value of a [`StoreRow`].
#[verifier::ext_equal]
pub struct StoreRowV {
    pub id: Seq<char>,
    pub name_id: Seq<char>,
    pub code: Seq<char>,
}

impl DeepView for StoreRow {
    type V = StoreRowV;

    open spec fn deep_view(&self) -> StoreRowV {
        StoreRowV { id: self.id@, name_id: self.name_id@, code: self.code@ }
    }
}

/// A batch of stock of one item at one store.
#[derive(Debug, PartialEq)]
pub struct StockLineRow {
    pub id: String,
    pub item_id: String,
    pub store_id: String,
    pub batch: Option<String>,
    pub pack_size: i64,
    pub available_number_of_packs: i64,
    pub total_number_of_packs: i64,
}

/// The value of a [`StockLineRow`].
#[verifier::ext_equal]
pub struct StockLineRowV {
    pub id: Seq<char>,
    pub item_id: Seq<char>,
    pub store_id: Seq<char>,
    pub batch: Option<Seq<char>>,
    pub pack_size: i64,
    pub available_number_of_packs: i64,
    pub total_number_of_packs: i64,
}

impl DeepView for StockLineRow {
    type V = StockLineRowV;

    open spec fn deep_view(&self) -> StockLineRowV {
        StockLineRowV {
            id: self.id@,
            item_id: self.item_id@,
            store_id: self.store_id@,
            batch: self.batch.deep_view(),
            pack_size: self.pack_size,
            available_number_of_packs: self.available_number_of_packs,
            total_number_of_packs: self.total_number_of_packs,
        }
    }
}

/// An invoice header.
#[derive(Debug, PartialEq)]
pub struct InvoiceRow {
    pub id: String,
    pub name_id: String,
    pub store_id: String,
    pub invoice_type: InvoiceType,
    pub status: InvoiceStatus,
}

/// The value of an [`InvoiceRow`].
#[verifier::ext_equal]
pub struct InvoiceRowV {
    pub id: Seq<char>,
    pub name_id: Seq<char>,
    pub store_id: Seq<char>,
    pub invoice_type: InvoiceType,
    pub status: InvoiceStatus,
}

impl DeepView for InvoiceRow {
    type V = InvoiceRowV;

    open spec fn deep_view(&self) -> InvoiceRowV {
        InvoiceRowV {
            id: self.id@,
            name_id: self.name_id@,
            store_id: self.store_id@,
            invoice_type: self.invoice_type,
            status: self.status,
        }
    }
}

/// One line of an invoice. Money fields are in hundredths of a unit.
#[derive(Debug, PartialEq)]
pub struct InvoiceLineRow {
    pub id: String,
    pub invoice_id: String,
    pub item_id: String,
    pub item_name: String,
    pub item_code: String,
    pub stock_line_id: Option<String>,
    pub location_id: Option<String>,
    pub batch: Option<String>,
    pub expiry_date: Option<Date>,
    pub pack_size: i64,
    pub cost_price_per_pack: i64,
    pub sell_price_per_pack: i64,
    pub total_before_tax: i64,
    pub total_after_tax: i64,
    pub tax: Option<i64>,
    pub line_type: InvoiceLineType,
    pub number_of_packs: i64,
    pub note: Option<String>,
}

/// The value of an [`InvoiceLineRow`].
#[verifier::ext_equal]
pub struct InvoiceLineRowV {
    pub id: Seq<char>,
    pub invoice_id: Seq<char>,
    pub item_id: Seq<char>,
    pub item_name: Seq<char>,
    pub item_code: Seq<char>,
    pub stock_line_id: Option<Seq<char>>,
    pub location_id: Option<Seq<char>>,
    pub batch: Option<Seq<char>>,
    pub expiry_date: Option<Date>,
    pub pack_size: i64,
    pub cost_price_per_pack: i64,
    pub sell_price_per_pack: i64,
    pub total_before_tax: i64,
    pub total_after_tax: i64,
    pub tax: Option<i64>,
    pub line_type: InvoiceLineType,
    pub number_of_packs: i64,
    pub note: Option<Seq<char>>,
}

impl DeepView for InvoiceLineRow {
    type V = InvoiceLineRowV;

    open spec fn deep_view(&self) -> InvoiceLineRowV {
        InvoiceLineRowV {
            id: self.id@,
            invoice_id: self.invoice_id@,
            item_id: self.item_id@,
            item_name: self.item_name@,
            item_code: self.item_code@,
            stock_line_id: self.stock_line_id.deep_view(),
            location_id: self.location_id.deep_view(),
            batch: self.batch.deep_view(),
            expiry_date: self.expiry_date,
            pack_size: self.pack_size,
            cost_price_per_pack: self.cost_price_per_pack,
            sell_price_per_pack: self.sell_price_per_pack,
            total_before_tax: self.total_before_tax,
            total_after_tax: self.total_after_tax,
            tax: self.tax,
            line_type: self.line_type,
            number_of_packs: self.number_of_packs,
            note: self.note.deep_view(),
        }
    }
}

/// Visibility of a name at a store, with per-store overrides of the
/// customer and supplier flags.
#[derive(Debug, PartialEq)]
pub struct NameStoreJoinRow {
    pub id: String,
    pub name_id: String,
    pub store_id: String,
    pub name_is_customer: bool,
    pub name_is_supplier: bool,
}

/// The value of a [`NameStoreJoinRow`].
#[verifier::ext_equal]
pub struct NameStoreJoinRowV {
    pub id: Seq<char>,
    pub name_id: Seq<char>,
    pub store_id: Seq<char>,
    pub name_is_customer: bool,
    pub name_is_supplier: bool,
}

impl DeepView for NameStoreJoinRow {
    type V = NameStoreJoinRowV;

    open spec fn deep_view(&self) -> NameStoreJoinRowV {
        NameStoreJoinRowV {
            id: self.id@,
            name_id: self.name_id@,
            store_id: self.store_id@,
            name_is_customer: self.name_is_customer,
            name_is_supplier: self.name_is_supplier,
        }
    }
}

/// Which side of a requisition a row stands on.
#[derive(Clone, Copy, Debug, PartialEq, Eq, Structural, Hash)]
pub enum RequisitionType {
    Request,
    Response,
}

/// Lifecycle status of a requisition.
#[derive(Clone, Copy, Debug, PartialEq, Eq, Structural, Hash)]
pub enum RequisitionStatus {
    Draft,
    New,
    Sent,
    Finalised,
}

/// A named counter; hands out requisition and invoice numbers.
#[derive(Debug, PartialEq)]
pub struct NumberRow {
    pub id: String,
    pub value: i64,
}

/// The value of a [`NumberRow`].
#[verifier::ext_equal]
pub struct NumberRowV {
    pub id: Seq<char>,
    pub value: i64,
}

impl DeepView for NumberRow {
    type V = NumberRowV;

    open spec fn deep_view(&self) -> NumberRowV {
        NumberRowV { id: self.id@, value: self.value }
    }
}

/// A requisition header. Months of stock are in hundredths; datetimes are
/// seconds of the epoch, supplied by the caller.
#[derive(Debug, PartialEq)]
pub struct RequisitionRow {
    pub id: String,
    pub user_id: Option<String>,
    pub requisition_number: i64,
    pub name_id: String,
    pub store_id: String,
    pub requisition_type: RequisitionType,
    pub status: RequisitionStatus,
    pub created_datetime: i64,
    pub sent_datetime: Option<i64>,
    pub finalised_datetime: Option<i64>,
    pub colour: Option<String>,
    pub comment: Option<String>,
    pub their_reference: Option<String>,
    pub max_months_of_stock: i64,
    pub min_months_of_stock: i64,
    pub linked_requisition_id: Option<String>,
}

/// The value of a [`RequisitionRow`].
#[verifier::ext_equal]
pub struct RequisitionRowV {
    pub id: Seq<char>,
    pub user_id: Option<Seq<char>>,
    pub requisition_number: i64,
    pub name_id: Seq<char>,
    pub store_id: Seq<char>,
    pub requisition_type: RequisitionType,
    pub status: RequisitionStatus,
    pub created_datetime: i64,
    pub sent_datetime: Option<i64>,
    pub finalised_datetime: Option<i64>,
    pub colour: Option<Seq<char>>,
    pub comment: Option<Seq<char>>,
    pub their_reference: Option<Seq<char>>,
    pub max_months_of_stock: i64,
    pub min_months_of_stock: i64,
    pub linked_requisition_id: Option<Seq<char>>,
}

impl DeepView for RequisitionRow {
    type V = RequisitionRowV;

    open spec fn deep_view(&self) -> RequisitionRowV {
        RequisitionRowV {
            id: self.id@,
            user_id: self.user_id.deep_view(),
            requisition_number: self.requisition_number,
            name_id: self.name_id@,
            store_id: self.store_id@,
            requisition_type: self.requisition_type,
            status: self.status,
            created_datetime: self.created_datetime,
            sent_datetime: self.sent_datetime,
            finalised_datetime: self.finalised_datetime,
            colour: self.colour.deep_view(),
            comment: self.comment.deep_view(),
            their_reference: self.their_reference.deep_view(),
            max_months_of_stock: self.max_months_of_stock,
            min_months_of_stock: self.min_months_of_stock,
            linked_requisition_id: self.linked_requisition_id.deep_view(),
        }
    }
}

impl KeyedRow for NumberRow {
    open spec fn key_spec(&self) -> Seq<char> {
        self.id@
    }

    fn key(&self) -> (r: &str) {
        self.id.as_str()
    }
}

impl KeyedRow for RequisitionRow {
    open spec fn key_spec(&self) -> Seq<char> {
        self.id@
    }

    fn key(&self) -> (r: &str) {
        self.id.as_str()
    }
}

impl Clone for NumberRow {
    /// Field-for-field copy.
    fn clone(&self) -> (r: Self)
        ensures
            r == *self,
    {
        NumberRow { id: self.id.clone(), value: self.value }
    }
}

impl Clone for RequisitionRow {
    /// Field-for-field copy.
    fn clone(&self) -> (r: Self)
        ensures
            r == *self,
    {
        RequisitionRow {
            id: self.id.clone(),
            user_id: clone_opt_string(&self.user_id),
            requisition_number: self.requisition_number,
            name_id: self.name_id.clone(),
            store_id: self.store_id.clone(),
            requisition_type: self.requisition_type,
            status: self.status,
            created_datetime: self.created_datetime,
            sent_datetime: self.sent_datetime,
            finalised_datetime: self.finalised_datetime,
            colour: clone_opt_string(&self.colour),
            comment: clone_opt_string(&self.comment),
            their_reference: clone_opt_string(&self.their_reference),
            max_months_of_stock: self.max_months_of_stock,
            min_months_of_stock: self.min_months_of_stock,
            linked_requisition_id: clone_opt_string(&self.linked_requisition_id),
        }
    }
}

/// Copy an optional string.
fn clone_opt_string(s: &Option<String>) -> (r: Option<String>)
    ensures
        r == *s,
{
    match s {
        Some(x) => Some(x.clone()),
        None => None,
    }
}

impl Clone for UnitRow {
    /// Field-for-field copy.
    fn clone(&self) -> (r: Self)
        ensures
            r == *self,
    {
        UnitRow { id: self.id.clone(), name: self.name.clone() }
    }
}

impl Clone for ItemRow {
    /// Field-for-field copy.
    fn clone(&self) -> (r: Self)
        ensures
            r == *self,
    {
        ItemRow {
            id: self.id.clone(),
            name: self.name.clone(),
            code: self.code.clone(),
            unit_id: clone_opt_string(&self.unit_id),
        }
    }
}

impl Clone for NameRow {
    /// Field-for-field copy.
    fn clone(&self) -> (r: Self)
        ensures
            r == *self,
    {
        NameRow {
            id: self.id.clone(),
            name: self.name.clone(),
            code: self.code.clone(),
            name_type: self.name_type,
            is_customer: self.is_customer,
            is_supplier: self.is_supplier,
            first_name: clone_opt_string(&self.first_name),
            last_name: clone_opt_string(&self.last_name),
            gender: self.gender,
            date_of_birth: self.date_of_birth,
            phone: clone_opt_string(&self.phone),
            address1: clone_opt_string(&self.address1),
            address2: clone_opt_string(&self.address2),
            country: clone_opt_string(&self.country),
            email: clone_opt_string(&self.email),
        }
    }
}

impl Clone for StoreRow {
    /// Field-for-field copy.
    fn clone(&self) -> (r: Self)
        ensures
            r == *self,
    {
        StoreRow {
            id: self.id.clone(),
            name_id: self.name_id.clone(),
            code: self.code.clone(),
        }
    }
}

impl Clone for StockLineRow {
    /// Field-for-field copy.
    fn clone(&self) -> (r: Self)
        ensures
            r == *self,
    {
        StockLineRow {
            id: self.id.clone(),
            item_id: self.item_id.clone(),
            store_id: self.store_id.clone(),
            batch: clone_opt_string(&self.batch),
            pack_size: self.pack_size,
            available_number_of_packs: self.available_number_of_packs,
            total_number_of_packs: self.total_number_of_packs,
        }
    }
}

impl Clone for InvoiceRow {
    /// Field-for-field copy.
    fn clone(&self) -> (r: Self)
        ensures
            r == *self,
    {
        InvoiceRow {
            id: self.id.clone(),
            name_id: self.name_id.clone(),
            store_id: self.store_id.clone(),
            invoice_type: self.invoice_type,
            status: self.status,
        }
    }
}

impl Clone for InvoiceLineRow {
    /// Field-for-field copy.
    fn clone(&self) -> (r: Self)
        ensures
            r == *self,
    {
        InvoiceLineRow {
            id: self.id.clone(),
            invoice_id: self.invoice_id.clone(),
            item_id: self.item_id.clone(),
            item_name: self.item_name.clone(),
            item_code: self.item_code.clone(),
            stock_line_id: clone_opt_string(&self.stock_line_id),
            location_id: clone_opt_string(&self.location_id),
            batch: clone_opt_string(&self.batch),
            expiry_date: self.expiry_date,
            pack_size: self.pack_size,
            cost_price_per_pack: self.cost_price_per_pack,
            sell_price_per_pack: self.sell_price_per_pack,
            total_before_tax: self.total_before_tax,
            total_after_tax: self.total_after_tax,
            tax: self.tax,
            line_type: self.line_type,
            number_of_packs: self.number_of_packs,
            note: clone_opt_string(&self.note),
        }
    }
}

impl Clone for NameStoreJoinRow {
    /// Field-for-field copy.
    fn clone(&self) -> (r: Self)
        ensures
            r == *self,
    {
        NameStoreJoinRow {
            id: self.id.clone(),
            name_id: self.name_id.clone(),
            store_id: self.store_id.clone(),
            name_is_customer: self.name_is_customer,
            name_is_supplier: self.name_is_supplier,
        }
    }
}

impl KeyedRow for UnitRow {
    open spec fn key_spec(&self) -> Seq<char> {
        self.id@
    }

    fn key(&self) -> (r: &str) {
        self.id.as_str()
    }
}

impl KeyedRow for ItemRow {
    open spec fn key_spec(&self) -> Seq<char> {
        self.id@
    }

    fn key(&self) -> (r: &str) {
        self.id.as_str()
    }
}

impl KeyedRow for NameRow {
    open spec fn key_spec(&self) -> Seq<char> {
        self.id@
    }

    fn key(&self) -> (r: &str) {
        self.id.as_str()
    }
}

impl KeyedRow for StoreRow {
    open spec fn key_spec(&self) -> Seq<char> {
        self.id@
    }

    fn key(&self) -> (r: &str) {
        self.id.as_str()
    }
}

impl KeyedRow for StockLineRow {
    open spec fn key_spec(&self) -> Seq<char> {
        self.id@
    }

    fn key(&self) -> (r: &str) {
        self.id.as_str()
    }
}

impl KeyedRow for InvoiceRow {
    open spec fn key_spec(&self) -> Seq<char> {
        self.id@
    }

    fn key(&self) -> (r: &str) {
        self.id.as_str()
    }
}

impl KeyedRow for InvoiceLineRow {
    open spec fn key_spec(&self) -> Seq<char> {
        self.id@
    }

    fn key(&self) -> (r: &str) {
        self.id.as_str()
    }
}

impl KeyedRow for NameStoreJoinRow {
    open spec fn key_spec(&self) -> Seq<char> {
        self.id@
    }

    fn key(&self) -> (r: &str) {
        self.id.as_str()
    }
}

} // verus!
