//! Shared checks over invoices and their lines, used by the line-deletion
//! validations.

use vstd::prelude::*;

use crate::rows::InvoiceLineRow;
use crate::rows::InvoiceRow;
use crate::rows::InvoiceStatus;
use crate::rows::InvoiceType;
use crate::store::NormalizedStore;
use crate::store::StoreV;
use crate::text::str_eq;

verus! {

/// An invoice can still be edited: it has not been shipped onward nor
/// verified closed.
pub open spec fn invoice_is_editable(status: InvoiceStatus) -> bool {
    match status {
        InvoiceStatus::New => true,
        InvoiceStatus::Allocated => true,
        InvoiceStatus::Picked => true,
        InvoiceStatus::Delivered => true,
        InvoiceStatus::Shipped => false,
        InvoiceStatus::Verified => false,
    }
}

/// Whether an invoice can still be edited.
pub fn check_invoice_is_editable(invoice: &InvoiceRow) -> (r: bool)
    ensures
        r == invoice_is_editable(invoice.status),
{
    match invoice.status {
        InvoiceStatus::New => true,
        InvoiceStatus::Allocated => true,
        InvoiceStatus::Picked => true,
        InvoiceStatus::Delivered => true,
        InvoiceStatus::Shipped => false,
        InvoiceStatus::Verified => false,
    }
}

/// Whether an invoice belongs to the given store.
pub fn check_store(invoice: &InvoiceRow, store_id: &str) -> (r: bool)
    ensures
        r == (invoice.store_id@ == store_id@),
{
    str_eq(invoice.store_id.as_str(), store_id)
}

/// Whether an invoice is of the given type.
pub fn check_invoice_type(invoice: &InvoiceRow, invoice_type: InvoiceType) -> (r: bool)
    ensures
        r == (invoice.invoice_type == invoice_type),
{
    invoice.invoice_type == invoice_type
}

/// A line's batch is reserved when its stock line has packs out on hold:
/// fewer packs available than the batch holds in total.
pub open spec fn batch_is_reserved(s: StoreV, line: crate::rows::InvoiceLineRowV) -> bool {
    match line.stock_line_id {
        Some(sl) => s.stock_lines.contains_key(sl) && s.stock_lines[sl].available_number_of_packs
            != s.stock_lines[sl].total_number_of_packs,
        None => false,
    }
}

/// Whether the line's batch is reserved.
pub fn check_batch(store: &NormalizedStore, line: &InvoiceLineRow) -> (r: bool)
    requires
        store.wf(),
    ensures
        r == batch_is_reserved(store@, line.deep_view()),
{
    match &line.stock_line_id {
        Some(sl) => match store.get_stock_line(sl.as_str()) {
            Some(stock_line) => stock_line.available_number_of_packs
                != stock_line.total_number_of_packs,
            None => false,
        },
        None => false,
    }
}

} // verus!
