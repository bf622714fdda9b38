//! The capabilities the engine consumes: product and sale stores with
//! upsert-by-identity and append-only semantics, and the payment device.
//! The spec functions here say what a catalog of products means, so that
//! every implementation and every caller speaks the same language.

use vstd::prelude::*;

use crate::domain::{Price, Product, ProductModel, Sale, SaleModel, Value, VendingError};

verus! {

/// True when some product in `ps` carries the identity `id`.
pub open spec fn has_product_id(ps: Seq<ProductModel>, id: u32) -> bool {
    exists|i: int| 0 <= i < ps.len() && ps[i].id == id
}

/// The position of the product carrying `id`; meaningful only where
/// `has_product_id` holds of a catalog with unique identities.
pub open spec fn product_index(ps: Seq<ProductModel>, id: u32) -> int {
    choose|i: int| 0 <= i < ps.len() && ps[i].id == id
}

/// True when no two products in `ps` share an identity.
pub open spec fn unique_ids(ps: Seq<ProductModel>) -> bool {
    forall|i: int, j: int|
        0 <= i < j < ps.len() ==> (#[trigger] ps[i]).id != (#[trigger] ps[j]).id
}

/// Saving into a catalog: a product whose identity is already listed
/// replaces that record in place; a new identity is appended at the end.
pub open spec fn upsert(ps: Seq<ProductModel>, p: ProductModel) -> Seq<ProductModel> {
    if has_product_id(ps, p.id) {
        ps.update(product_index(ps, p.id), p)
    } else {
        ps.push(p)
    }
}

/// The models of a sequence of products.
pub open spec fn product_models(ps: Seq<Product>) -> Seq<ProductModel> {
    ps.map(|i: int, p: Product| p@)
}

/// The models of a sequence of sales.
pub open spec fn sale_models(ss: Seq<Sale>) -> Seq<SaleModel> {
    ss.map(|i: int, s: Sale| s@)
}

/// Lookup, upsert and listing of products. The store's contents are its
/// view; identities stay unique under every operation.
pub trait ProductRepository: Sized {
    /// The catalog this store holds.
    spec fn products(&self) -> Seq<ProductModel>;

    /// True when the store's own invariant holds; identities are unique.
    spec fn wf(&self) -> bool;

    /// The product with the given identity, if one is listed.
    fn find(&self, column_id: Value) -> (r: Option<Product>)
        requires
            self.wf(),
        ensures
            match r {
                Some(p) => has_product_id(self.products(), column_id@) && p@ == self.products()[
                    product_index(self.products(), column_id@)
                ],
                None => !has_product_id(self.products(), column_id@),
            },
    ;

    /// Saves a product: replaces the record with the same identity, or
    /// appends one. A failure leaves the catalog as it was.
    fn save(&mut self, product: Product) -> (r: Result<(), VendingError>)
        requires
            old(self).wf(),
        ensures
            final(self).wf(),
            match r {
                Ok(()) => final(self).products() == upsert(old(self).products(), product@),
                Err(_) => final(self).products() == old(self).products(),
            },
    ;

    /// Every listed product, in listing order.
    fn find_all(&self) -> (r: Vec<Product>)
        requires
            self.wf(),
        ensures
            product_models(r@) == self.products(),
    ;
}

/// Append and listing of sales; the record is append-only.
pub trait SaleRepository: Sized {
    /// The sales this store holds, oldest first.
    spec fn sales(&self) -> Seq<SaleModel>;

    /// Appends one sale. A failure leaves the record as it was.
    fn save(&mut self, sale: Sale) -> (r: Result<(), VendingError>)
        ensures
            match r {
                Ok(()) => final(self).sales() == old(self).sales().push(sale@),
                Err(_) => final(self).sales() == old(self).sales(),
            },
    ;

    /// Every recorded sale, oldest first.
    fn find_all(&self) -> (r: Vec<Sale>)
        ensures
            sale_models(r@) == self.sales(),
    ;
}

/// A failure of the payment device itself. What the engine does about one is
/// stated per operation: payment requests are retried, refund failures stop
/// the purchase.
#[derive(Debug, PartialEq, Eq, Structural, Clone, Copy)]
pub struct TerminalError;

/// A device that can show a message to whoever stands at the machine.
pub trait Terminal {
    /// Shows one message.
    fn prompt(&self, message: &str);
}

/// The payment device: it asks for money and gives change. Nothing is
/// promised of the amounts it collects; the engine must cope with any.
pub trait PaymentTerminal: Terminal {
    /// Shows how much remains to be paid.
    fn prompt_amount_due(&self, amount: &Price);

    /// Requests one payment and returns the amount inserted.
    fn request(&self) -> Result<Price, TerminalError>;

    /// Returns change to the customer.
    fn refund(&self, amount: Price) -> Result<(), TerminalError>;
}

} // verus!
