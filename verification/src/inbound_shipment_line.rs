//! Validation for deleting a stock line of an inbound shipment.

use vstd::prelude::*;

use crate::invoice_checks::batch_is_reserved;
use crate::invoice_checks::check_batch;
use crate::invoice_checks::check_invoice_is_editable;
use crate::invoice_checks::check_invoice_type;
use crate::invoice_checks::check_store;
use crate::invoice_checks::invoice_is_editable;
use crate::rows::InvoiceLineRow;
use crate::rows::InvoiceLineRowV;
use crate::rows::InvoiceRow;
use crate::rows::InvoiceRowV;
use crate::rows::InvoiceType;
use crate::store::NormalizedStore;
use crate::store::StoreV;

verus! {

/// Which line a deletion asks to remove.
#[derive(Clone, Debug, PartialEq)]
pub struct DeleteInboundShipmentLine {
    pub id: String,
}

/// Why a line of an inbound shipment cannot be deleted.
#[derive(Clone, Copy, Debug, PartialEq, Eq, Structural, Hash)]
pub enum DeleteInboundShipmentLineError {
    LineDoesNotExist,
    InvoiceDoesNotExist,
    NotThisStoreInvoice,
    NotAnInboundShipment,
    CannotEditFinalised,
    BatchIsReserved,
}

/// What validating a deletion yields: the invoice and the line when every
/// check passes, the first failing check's error otherwise. Checks run in
/// a fixed order: line, invoice, store, type, editability, batch.
pub open spec fn validate_spec(s: StoreV, line_id: Seq<char>, store_id: Seq<char>) -> Result<
    (InvoiceRowV, InvoiceLineRowV),
    DeleteInboundShipmentLineError,
> {
    if !s.invoice_lines.contains_key(line_id) {
        Err(DeleteInboundShipmentLineError::LineDoesNotExist)
    } else {
        let line = s.invoice_lines[line_id];
        if !s.invoices.contains_key(line.invoice_id) {
            Err(DeleteInboundShipmentLineError::InvoiceDoesNotExist)
        } else {
            let invoice = s.invoices[line.invoice_id];
            if invoice.store_id != store_id {
                Err(DeleteInboundShipmentLineError::NotThisStoreInvoice)
            } else if invoice.invoice_type != InvoiceType::InboundShipment {
                Err(DeleteInboundShipmentLineError::NotAnInboundShipment)
            } else if !invoice_is_editable(invoice.status) {
                Err(DeleteInboundShipmentLineError::CannotEditFinalised)
            } else if batch_is_reserved(s, line) {
                Err(DeleteInboundShipmentLineError::BatchIsReserved)
            } else {
                Ok((invoice, line))
            }
        }
    }
}

/// Validate deleting one line of an inbound shipment at one store.
pub fn validate(
    input: &DeleteInboundShipmentLine,
    store_id: &str,
    store: &NormalizedStore,
) -> (r: Result<(InvoiceRow, InvoiceLineRow), DeleteInboundShipmentLineError>)
    requires
        store.wf(),
    ensures
        match r {
            Ok(pair) => validate_spec(store@, input.id@, store_id@) == Ok::<
                _,
                DeleteInboundShipmentLineError,
            >((pair.0.deep_view(), pair.1.deep_view())),
            Err(e) => validate_spec(store@, input.id@, store_id@) == Err::<
                (InvoiceRowV, InvoiceLineRowV),
                _,
            >(e),
        },
{
    let line = match store.get_invoice_line(input.id.as_str()) {
        Some(line) => line,
        None => {
            return Err(DeleteInboundShipmentLineError::LineDoesNotExist);
        },
    };
    let invoice = match store.get_invoice(line.invoice_id.as_str()) {
        Some(invoice) => invoice,
        None => {
            return Err(DeleteInboundShipmentLineError::InvoiceDoesNotExist);
        },
    };
    if !check_store(invoice, store_id) {
        return Err(DeleteInboundShipmentLineError::NotThisStoreInvoice);
    }
    if !check_invoice_type(invoice, InvoiceType::InboundShipment) {
        return Err(DeleteInboundShipmentLineError::NotAnInboundShipment);
    }
    if !check_invoice_is_editable(invoice) {
        return Err(DeleteInboundShipmentLineError::CannotEditFinalised);
    }
    if check_batch(store, line) {
        return Err(DeleteInboundShipmentLineError::BatchIsReserved);
    }
    Ok((invoice.clone(), line.clone()))
}

} // verus!
