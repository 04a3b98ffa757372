//! Validation for deleting a service line of an inbound shipment.
//!
//! Service lines carry no stock, so unlike stock lines there is no batch to
//! be reserved.

use vstd::prelude::*;

use crate::inbound_shipment_line::DeleteInboundShipmentLine;
use crate::invoice_checks::check_invoice_is_editable;
use crate::invoice_checks::check_invoice_type;
use crate::invoice_checks::check_store;
use crate::invoice_checks::invoice_is_editable;
use crate::rows::InvoiceLineRow;
use crate::rows::InvoiceLineRowV;
use crate::rows::InvoiceType;
use crate::store::NormalizedStore;
use crate::store::StoreV;

verus! {

/// Why a service line of an inbound shipment cannot be deleted.
#[derive(Clone, Copy, Debug, PartialEq, Eq, Structural, Hash)]
pub enum DeleteInboundShipmentServiceLineError {
    LineDoesNotExist,
    InvoiceDoesNotExist,
    NotThisStoreInvoice,
    NotAnInboundShipment,
    CannotEditInvoice,
}

/// What validating a service-line deletion yields: the line when every
/// check passes, the first failing check's error otherwise. Checks run in
/// a fixed order: line, invoice, store, type, editability.
pub open spec fn validate_spec(s: StoreV, line_id: Seq<char>, store_id: Seq<char>) -> Result<
    InvoiceLineRowV,
    DeleteInboundShipmentServiceLineError,
> {
    if !s.invoice_lines.contains_key(line_id) {
        Err(DeleteInboundShipmentServiceLineError::LineDoesNotExist)
    } else {
        let line = s.invoice_lines[line_id];
        if !s.invoices.contains_key(line.invoice_id) {
            Err(DeleteInboundShipmentServiceLineError::InvoiceDoesNotExist)
        } else {
            let invoice = s.invoices[line.invoice_id];
            if invoice.store_id != store_id {
                Err(DeleteInboundShipmentServiceLineError::NotThisStoreInvoice)
            } else if invoice.invoice_type != InvoiceType::InboundShipment {
                Err(DeleteInboundShipmentServiceLineError::NotAnInboundShipment)
            } else if !invoice_is_editable(invoice.status) {
                Err(DeleteInboundShipmentServiceLineError::CannotEditInvoice)
            } else {
                Ok(line)
            }
        }
    }
}

/// Validate deleting one service line of an inbound shipment at one store.
pub fn validate(
    input: &DeleteInboundShipmentLine,
    store_id: &str,
    store: &NormalizedStore,
) -> (r: Result<InvoiceLineRow, DeleteInboundShipmentServiceLineError>)
    requires
        store.wf(),
    ensures
        match r {
            Ok(line) => validate_spec(store@, input.id@, store_id@) == Ok::<
                _,
                DeleteInboundShipmentServiceLineError,
            >(line.deep_view()),
            Err(e) => validate_spec(store@, input.id@, store_id@) == Err::<InvoiceLineRowV, _>(e),
        },
{
    let line = match store.get_invoice_line(input.id.as_str()) {
        Some(line) => line,
        None => {
            return Err(DeleteInboundShipmentServiceLineError::LineDoesNotExist);
        },
    };
    let invoice = match store.get_invoice(line.invoice_id.as_str()) {
        Some(invoice) => invoice,
        None => {
            return Err(DeleteInboundShipmentServiceLineError::InvoiceDoesNotExist);
        },
    };
    if !check_store(invoice, store_id) {
        return Err(DeleteInboundShipmentServiceLineError::NotThisStoreInvoice);
    }
    if !check_invoice_type(invoice, InvoiceType::InboundShipment) {
        return Err(DeleteInboundShipmentServiceLineError::NotAnInboundShipment);
    }
    if !check_invoice_is_editable(invoice) {
        return Err(DeleteInboundShipmentServiceLineError::CannotEditInvoice);
    }
    Ok(line.clone())
}

} // verus!
