//! Process-lifetime stores: a product catalog and a sale record held in
//! plain vectors. These are the stores the engine is wired with; they never
//! fail, which is what lets a purchase update stock and record the sale as
//! one atomic unit.

use vstd::prelude::*;

use crate::domain::{Product, ProductModel, Sale, SaleModel, Value, VendingError};
use crate::interfaces::{
    has_product_id, product_index, product_models, sale_models, unique_ids, upsert,
    ProductRepository, SaleRepository,
};

verus! {

/// A product catalog held in memory, reset when the process ends.
pub struct InMemoryProductRepository {
    products: Vec<Product>,
}

impl InMemoryProductRepository {
    /// The catalog this store holds.
    pub closed spec fn catalog(&self) -> Seq<ProductModel> {
        product_models(self.products@)
    }

    /// Identities in the catalog are unique; every operation keeps this.
    pub closed spec fn inv(&self) -> bool {
        unique_ids(product_models(self.products@))
    }

    /// An empty catalog.
    pub fn new() -> (r: Self)
        ensures
            r.inv(),
            r.catalog() == Seq::<ProductModel>::empty(),
    {
        let r = InMemoryProductRepository { products: Vec::new() };
        proof {
            assert(product_models(r.products@) =~= Seq::<ProductModel>::empty());
        }
        r
    }

    /// The product with the given identity, if one is listed.
    pub fn find(&self, column_id: Value) -> (r: Option<Product>)
        requires
            self.inv(),
        ensures
            match r {
                Some(p) => has_product_id(self.catalog(), column_id@) && p@ == self.catalog()[
                    product_index(self.catalog(), column_id@)
                ],
                None => !has_product_id(self.catalog(), column_id@),
            },
    {
        let id = column_id.as_value();
        let n = self.products.len();
        let mut i: usize = 0;
        while i < n
            invariant
                0 <= i <= n,
                n == self.products@.len(),
                id == column_id@,
                self.inv(),
                forall|j: int| 0 <= j < i ==> product_models(self.products@)[j].id != id,
            decreases n - i,
        {
            if self.products[i].column_id.as_value() == id {
                proof {
                    let ps = product_models(self.products@);
                    let k = product_index(ps, id);
                    assert(ps[i as int].id == id);
                    assert(0 <= k < ps.len() && ps[k].id == id);
                    assert(k == i as int);
                }
                return Some(self.products[i].clone());
            }
            i = i + 1;
        }
        None
    }

    /// Saves a product: replaces the record with the same identity, or
    /// appends one. An in-memory save never fails.
    pub fn save(&mut self, product: Product) -> (r: Result<(), VendingError>)
        requires
            old(self).inv(),
        ensures
            final(self).inv(),
            r is Ok,
            final(self).catalog() == upsert(old(self).catalog(), product@),
    {
        let ghost pm = product@;
        let ghost ps = product_models(self.products@);
        let id = product.column_id.as_value();
        let n = self.products.len();
        let mut found: Option<usize> = None;
        let mut i: usize = 0;
        while i < n
            invariant
                0 <= i <= n,
                n == self.products@.len(),
                id == pm.id,
                self.inv(),
                ps == product_models(self.products@),
                match found {
                    Some(k) => k < i && ps[k as int].id == id,
                    None => forall|j: int| 0 <= j < i ==> ps[j].id != id,
                },
            decreases n - i,
        {
            if found.is_none() && self.products[i].column_id.as_value() == id {
                found = Some(i);
            }
            i = i + 1;
        }
        match found {
            Some(k) => {
                proof {
                    let x = product_index(ps, id);
                    assert(ps[k as int].id == id);
                    assert(0 <= x < ps.len() && ps[x].id == id);
                    assert(x == k as int);
                }
                self.products.set(k, product);
                proof {
                    assert(product_models(self.products@) =~= ps.update(k as int, pm));
                }
                Ok(())
            },
            None => {
                self.products.push(product);
                proof {
                    assert(product_models(self.products@) =~= ps.push(pm));
                }
                Ok(())
            },
        }
    }

    /// Every listed product, in listing order.
    pub fn find_all(&self) -> (r: Vec<Product>)
        ensures
            product_models(r@) == self.catalog(),
    {
        let n = self.products.len();
        let mut out: Vec<Product> = Vec::new();
        let mut i: usize = 0;
        while i < n
            invariant
                0 <= i <= n,
                n == self.products@.len(),
                out@.len() == i,
                forall|j: int| 0 <= j < i ==> (#[trigger] out@[j])@ == self.products@[j]@,
            decreases n - i,
        {
            out.push(self.products[i].clone());
            i = i + 1;
        }
        proof {
            assert(product_models(out@) =~= product_models(self.products@));
        }
        out
    }
}

impl ProductRepository for InMemoryProductRepository {
    closed spec fn products(&self) -> Seq<ProductModel> {
        self.catalog()
    }

    closed spec fn wf(&self) -> bool {
        self.inv()
    }

    fn find(&self, column_id: Value) -> Option<Product> {
        InMemoryProductRepository::find(self, column_id)
    }

    fn save(&mut self, product: Product) -> Result<(), VendingError> {
        InMemoryProductRepository::save(self, product)
    }

    fn find_all(&self) -> Vec<Product> {
        InMemoryProductRepository::find_all(self)
    }
}

/// A sale record held in memory, append-only, reset when the process ends.
pub struct InMemorySaleRepository {
    sales: Vec<Sale>,
}

impl InMemorySaleRepository {
    /// The sales this store holds, oldest first.
    pub closed spec fn record(&self) -> Seq<SaleModel> {
        sale_models(self.sales@)
    }

    /// An empty record.
    pub fn new() -> (r: Self)
        ensures
            r.record() == Seq::<SaleModel>::empty(),
    {
        let r = InMemorySaleRepository { sales: Vec::new() };
        proof {
            assert(sale_models(r.sales@) =~= Seq::<SaleModel>::empty());
        }
        r
    }

    /// Appends one sale. An in-memory append never fails.
    pub fn save(&mut self, sale: Sale) -> (r: Result<(), VendingError>)
        ensures
            r is Ok,
            final(self).record() == old(self).record().push(sale@),
    {
        let ghost s = sale@;
        self.sales.push(sale);
        proof {
            assert(sale_models(self.sales@) =~= sale_models(old(self).sales@).push(s));
        }
        Ok(())
    }

    /// Every recorded sale, oldest first.
    pub fn find_all(&self) -> (r: Vec<Sale>)
        ensures
            sale_models(r@) == self.record(),
    {
        let n = self.sales.len();
        let mut out: Vec<Sale> = Vec::new();
        let mut i: usize = 0;
        while i < n
            invariant
                0 <= i <= n,
                n == self.sales@.len(),
                out@.len() == i,
                forall|j: int| 0 <= j < i ==> (#[trigger] out@[j])@ == self.sales@[j]@,
            decreases n - i,
        {
            out.push(self.sales[i].clone());
            i = i + 1;
        }
        proof {
            assert(sale_models(out@) =~= sale_models(self.sales@));
        }
        out
    }
}

impl SaleRepository for InMemorySaleRepository {
    closed spec fn sales(&self) -> Seq<SaleModel> {
        self.record()
    }

    fn save(&mut self, sale: Sale) -> Result<(), VendingError> {
        InMemorySaleRepository::save(self, sale)
    }

    fn find_all(&self) -> Vec<Sale> {
        InMemorySaleRepository::find_all(self)
    }
}

} // verus!
