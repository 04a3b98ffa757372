//! The normalized domain schema held as plain in-memory tables.
//!
//! The surrounding system keeps these tables in a relational store; the
//! library models exactly what the synchronization core reads and writes of
//! them, keyed by row id.

use vstd::prelude::*;

use crate::rows::InvoiceLineRow;
use crate::rows::InvoiceLineRowV;
use crate::rows::InvoiceRow;
use crate::rows::InvoiceRowV;
use crate::rows::ItemRow;
use crate::rows::ItemRowV;
use crate::rows::NameRow;
use crate::rows::NameRowV;
use crate::rows::NameStoreJoinRow;
use crate::rows::NameStoreJoinRowV;
use crate::rows::NumberRow;
use crate::rows::NumberRowV;
use crate::rows::RequisitionRow;
use crate::rows::RequisitionRowV;
use crate::rows::StockLineRow;
use crate::rows::StockLineRowV;
use crate::rows::StoreRow;
use crate::rows::StoreRowV;
use crate::rows::UnitRow;
use crate::rows::UnitRowV;
use crate::table::Table;

verus! {

/// The value of a [`NormalizedStore`]: one map per table, keyed by row id.
#[verifier::ext_equal]
pub struct StoreV {
    pub units: Map<Seq<char>, UnitRowV>,
    pub items: Map<Seq<char>, ItemRowV>,
    pub names: Map<Seq<char>, NameRowV>,
    pub stores: Map<Seq<char>, StoreRowV>,
    pub stock_lines: Map<Seq<char>, StockLineRowV>,
    pub invoices: Map<Seq<char>, InvoiceRowV>,
    pub invoice_lines: Map<Seq<char>, InvoiceLineRowV>,
    pub name_store_joins: Map<Seq<char>, NameStoreJoinRowV>,
    pub numbers: Map<Seq<char>, NumberRowV>,
    pub requisitions: Map<Seq<char>, RequisitionRowV>,
}

/// The store value with every table empty.
pub open spec fn empty_store() -> StoreV {
    StoreV {
        units: Map::empty(),
        items: Map::empty(),
        names: Map::empty(),
        stores: Map::empty(),
        stock_lines: Map::empty(),
        invoices: Map::empty(),
        invoice_lines: Map::empty(),
        name_store_joins: Map::empty(),
        numbers: Map::empty(),
        requisitions: Map::empty(),
    }
}

/// The normalized schema: one keyed table per synchronized table.
#[derive(Clone, Debug, PartialEq)]
pub struct NormalizedStore {
    units: Table<UnitRow>,
    items: Table<ItemRow>,
    names: Table<NameRow>,
    stores: Table<StoreRow>,
    stock_lines: Table<StockLineRow>,
    invoices: Table<InvoiceRow>,
    invoice_lines: Table<InvoiceLineRow>,
    name_store_joins: Table<NameStoreJoinRow>,
    numbers: Table<NumberRow>,
    requisitions: Table<RequisitionRow>,
}

impl View for NormalizedStore {
    type V = StoreV;

    closed spec fn view(&self) -> StoreV {
        StoreV {
            units: self.units.as_map(),
            items: self.items.as_map(),
            names: self.names.as_map(),
            stores: self.stores.as_map(),
            stock_lines: self.stock_lines.as_map(),
            invoices: self.invoices.as_map(),
            invoice_lines: self.invoice_lines.as_map(),
            name_store_joins: self.name_store_joins.as_map(),
            numbers: self.numbers.as_map(),
            requisitions: self.requisitions.as_map(),
        }
    }
}

impl NormalizedStore {
    /// Every table keeps its keys unique.
    pub closed spec fn wf(&self) -> bool {
        &&& self.units.wf()
        &&& self.items.wf()
        &&& self.names.wf()
        &&& self.stores.wf()
        &&& self.stock_lines.wf()
        &&& self.invoices.wf()
        &&& self.invoice_lines.wf()
        &&& self.name_store_joins.wf()
        &&& self.numbers.wf()
        &&& self.requisitions.wf()
    }

    /// The name rows in table order; the order patients are listed in.
    pub closed spec fn names_dv(&self) -> Seq<NameRowV> {
        self.names.rows_dv()
    }

    /// An empty schema.
    pub fn new() -> (r: NormalizedStore)
        ensures
            r.wf(),
            r@ == empty_store(),
            r.names_dv() == Seq::<NameRowV>::empty(),
    {
        let r = NormalizedStore {
            units: Table::new(),
            items: Table::new(),
            names: Table::new(),
            stores: Table::new(),
            stock_lines: Table::new(),
            invoices: Table::new(),
            invoice_lines: Table::new(),
            name_store_joins: Table::new(),
            numbers: Table::new(),
            requisitions: Table::new(),
        };
        proof {
            assert(r@ =~= empty_store());
        }
        r
    }

    /// Look a unit up by id.
    pub fn get_unit(&self, id: &str) -> (r: Option<&UnitRow>)
        requires
            self.wf(),
        ensures
            match r {
                Some(row) => self@.units.contains_key(id@) && row.deep_view()
                    == self@.units[id@] && row.id@ == id@,
                None => !self@.units.contains_key(id@),
            },
    {
        self.units.get(id)
    }

    /// Look an item up by id.
    pub fn get_item(&self, id: &str) -> (r: Option<&ItemRow>)
        requires
            self.wf(),
        ensures
            match r {
                Some(row) => self@.items.contains_key(id@) && row.deep_view()
                    == self@.items[id@] && row.id@ == id@,
                None => !self@.items.contains_key(id@),
            },
    {
        self.items.get(id)
    }

    /// Look a name up by id.
    pub fn get_name(&self, id: &str) -> (r: Option<&NameRow>)
        requires
            self.wf(),
        ensures
            match r {
                Some(row) => self@.names.contains_key(id@) && row.deep_view()
                    == self@.names[id@] && row.id@ == id@,
                None => !self@.names.contains_key(id@),
            },
    {
        self.names.get(id)
    }

    /// Look a store up by id.
    pub fn get_store(&self, id: &str) -> (r: Option<&StoreRow>)
        requires
            self.wf(),
        ensures
            match r {
                Some(row) => self@.stores.contains_key(id@) && row.deep_view()
                    == self@.stores[id@] && row.id@ == id@,
                None => !self@.stores.contains_key(id@),
            },
    {
        self.stores.get(id)
    }

    /// Look a stock line up by id.
    pub fn get_stock_line(&self, id: &str) -> (r: Option<&StockLineRow>)
        requires
            self.wf(),
        ensures
            match r {
                Some(row) => self@.stock_lines.contains_key(id@) && row.deep_view()
                    == self@.stock_lines[id@] && row.id@ == id@,
                None => !self@.stock_lines.contains_key(id@),
            },
    {
        self.stock_lines.get(id)
    }

    /// Look an invoice up by id.
    pub fn get_invoice(&self, id: &str) -> (r: Option<&InvoiceRow>)
        requires
            self.wf(),
        ensures
            match r {
                Some(row) => self@.invoices.contains_key(id@) && row.deep_view()
                    == self@.invoices[id@] && row.id@ == id@,
                None => !self@.invoices.contains_key(id@),
            },
    {
        self.invoices.get(id)
    }

    /// Look an invoice line up by id.
    pub fn get_invoice_line(&self, id: &str) -> (r: Option<&InvoiceLineRow>)
        requires
            self.wf(),
        ensures
            match r {
                Some(row) => self@.invoice_lines.contains_key(id@) && row.deep_view()
                    == self@.invoice_lines[id@] && row.id@ == id@,
                None => !self@.invoice_lines.contains_key(id@),
            },
    {
        self.invoice_lines.get(id)
    }

    /// Look a name-store join up by id.
    pub fn get_name_store_join(&self, id: &str) -> (r: Option<&NameStoreJoinRow>)
        requires
            self.wf(),
        ensures
            match r {
                Some(row) => self@.name_store_joins.contains_key(id@) && row.deep_view()
                    == self@.name_store_joins[id@] && row.id@ == id@,
                None => !self@.name_store_joins.contains_key(id@),
            },
    {
        self.name_store_joins.get(id)
    }

    /// Insert or replace a unit.
    pub fn upsert_unit(&mut self, row: UnitRow)
        requires
            old(self).wf(),
        ensures
            final(self).wf(),
            final(self)@ == (StoreV {
                units: old(self)@.units.insert(row.id@, row.deep_view()),
                ..old(self)@
            }),
            final(self).names_dv() == old(self).names_dv(),
    {
        self.units.upsert(row);
    }

    /// Insert or replace an item.
    pub fn upsert_item(&mut self, row: ItemRow)
        requires
            old(self).wf(),
        ensures
            final(self).wf(),
            final(self)@ == (StoreV {
                items: old(self)@.items.insert(row.id@, row.deep_view()),
                ..old(self)@
            }),
            final(self).names_dv() == old(self).names_dv(),
    {
        self.items.upsert(row);
    }

    /// Insert or replace a name.
    pub fn upsert_name(&mut self, row: NameRow)
        requires
            old(self).wf(),
        ensures
            final(self).wf(),
            final(self)@ == (StoreV {
                names: old(self)@.names.insert(row.id@, row.deep_view()),
                ..old(self)@
            }),
    {
        self.names.upsert(row);
    }

    /// Insert or replace a store.
    pub fn upsert_store(&mut self, row: StoreRow)
        requires
            old(self).wf(),
        ensures
            final(self).wf(),
            final(self)@ == (StoreV {
                stores: old(self)@.stores.insert(row.id@, row.deep_view()),
                ..old(self)@
            }),
            final(self).names_dv() == old(self).names_dv(),
    {
        self.stores.upsert(row);
    }

    /// Insert or replace a stock line.
    pub fn upsert_stock_line(&mut self, row: StockLineRow)
        requires
            old(self).wf(),
        ensures
            final(self).wf(),
            final(self)@ == (StoreV {
                stock_lines: old(self)@.stock_lines.insert(row.id@, row.deep_view()),
                ..old(self)@
            }),
            final(self).names_dv() == old(self).names_dv(),
    {
        self.stock_lines.upsert(row);
    }

    /// Insert or replace an invoice.
    pub fn upsert_invoice(&mut self, row: InvoiceRow)
        requires
            old(self).wf(),
        ensures
            final(self).wf(),
            final(self)@ == (StoreV {
                invoices: old(self)@.invoices.insert(row.id@, row.deep_view()),
                ..old(self)@
            }),
            final(self).names_dv() == old(self).names_dv(),
    {
        self.invoices.upsert(row);
    }

    /// Insert or replace an invoice line.
    pub fn upsert_invoice_line(&mut self, row: InvoiceLineRow)
        requires
            old(self).wf(),
        ensures
            final(self).wf(),
            final(self)@ == (StoreV {
                invoice_lines: old(self)@.invoice_lines.insert(row.id@, row.deep_view()),
                ..old(self)@
            }),
            final(self).names_dv() == old(self).names_dv(),
    {
        self.invoice_lines.upsert(row);
    }

    /// Insert or replace a name-store join.
    pub fn upsert_name_store_join(&mut self, row: NameStoreJoinRow)
        requires
            old(self).wf(),
        ensures
            final(self).wf(),
            final(self)@ == (StoreV {
                name_store_joins: old(self)@.name_store_joins.insert(row.id@, row.deep_view()),
                ..old(self)@
            }),
            final(self).names_dv() == old(self).names_dv(),
    {
        self.name_store_joins.upsert(row);
    }

    /// Look a number counter up by id.
    pub fn get_number(&self, id: &str) -> (r: Option<&NumberRow>)
        requires
            self.wf(),
        ensures
            match r {
                Some(row) => self@.numbers.contains_key(id@) && row.deep_view()
                    == self@.numbers[id@] && row.id@ == id@,
                None => !self@.numbers.contains_key(id@),
            },
    {
        self.numbers.get(id)
    }

    /// Insert or replace a number counter.
    pub fn upsert_number(&mut self, row: NumberRow)
        requires
            old(self).wf(),
        ensures
            final(self).wf(),
            final(self)@ == (StoreV {
                numbers: old(self)@.numbers.insert(row.id@, row.deep_view()),
                ..old(self)@
            }),
            final(self).names_dv() == old(self).names_dv(),
    {
        self.numbers.upsert(row);
    }

    /// Look a requisition up by id.
    pub fn get_requisition(&self, id: &str) -> (r: Option<&RequisitionRow>)
        requires
            self.wf(),
        ensures
            match r {
                Some(row) => self@.requisitions.contains_key(id@) && row.deep_view()
                    == self@.requisitions[id@] && row.id@ == id@,
                None => !self@.requisitions.contains_key(id@),
            },
    {
        self.requisitions.get(id)
    }

    /// Insert or replace a requisition.
    pub fn upsert_requisition(&mut self, row: RequisitionRow)
        requires
            old(self).wf(),
        ensures
            final(self).wf(),
            final(self)@ == (StoreV {
                requisitions: old(self)@.requisitions.insert(row.id@, row.deep_view()),
                ..old(self)@
            }),
            final(self).names_dv() == old(self).names_dv(),
    {
        self.requisitions.upsert(row);
    }

    /// The name-store join rows in table order.
    pub closed spec fn name_store_joins_dv(&self) -> Seq<NameStoreJoinRowV> {
        self.name_store_joins.rows_dv()
    }

    /// Number of name-store join rows.
    pub fn name_store_joins_len(&self) -> (r: usize)
        ensures
            r == self.name_store_joins_dv().len(),
    {
        self.name_store_joins.len()
    }

    /// The name-store join row at one table position.
    pub fn name_store_join_at(&self, i: usize) -> (r: &NameStoreJoinRow)
        requires
            i < self.name_store_joins_dv().len(),
        ensures
            r.deep_view() == self.name_store_joins_dv()[i as int],
    {
        self.name_store_joins.at(i)
    }

    /// The store rows in table order.
    pub closed spec fn stores_dv(&self) -> Seq<StoreRowV> {
        self.stores.rows_dv()
    }

    /// Number of store rows.
    pub fn stores_len(&self) -> (r: usize)
        ensures
            r == self.stores_dv().len(),
    {
        self.stores.len()
    }

    /// The store row at one table position.
    pub fn store_at(&self, i: usize) -> (r: &StoreRow)
        requires
            i < self.stores_dv().len(),
        ensures
            r.deep_view() == self.stores_dv()[i as int],
    {
        self.stores.at(i)
    }

    /// Number of name rows.
    pub fn names_len(&self) -> (r: usize)
        ensures
            r == self.names_dv().len(),
    {
        self.names.len()
    }

    /// The name row at one table position.
    pub fn name_at(&self, i: usize) -> (r: &NameRow)
        requires
            i < self.names_dv().len(),
        ensures
            r.deep_view() == self.names_dv()[i as int],
    {
        self.names.at(i)
    }
}

} // verus!
