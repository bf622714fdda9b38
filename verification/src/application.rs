//! The transaction engine: a vending machine whose (role, lock) state is
//! carried in its type. Transitions consume the machine and return a fresh
//! value tagged with the resulting state; the two commerce operations are
//! only callable from the states in which they are legal, and each states
//! exactly what it does to the catalog and the sale record.

use vstd::prelude::*;

use core::marker::PhantomData;

use crate::domain::{Name, Password, Price, Product, ProductModel, Sale, Value, VendingError};
use crate::in_memory::{InMemoryProductRepository, InMemorySaleRepository};
use crate::interfaces::{has_product_id, product_index, product_models, sale_models, upsert,
    PaymentTerminal};
use crate::states::{
    Admin, Authenticated, Guest, LockStatus, LockTag, Locked, Role, RoleTag, Supplier, Unlocked,
};
use crate::text::str_eq;
use crate::transitions::{
    admin_credentials, lock_step, login_step, logout_step, supplier_credentials, unlock_step,
    MachineView,
};

verus! {

/// The engine. `U` is who is operating it, `L` whether it is locked for
/// maintenance; together they decide which operations the type exposes.
pub struct VendingMachine<U: Role, L: LockStatus, T: PaymentTerminal> {
    product_repository: InMemoryProductRepository,
    sale_repository: InMemorySaleRepository,
    payment_terminal: T,
    _role: PhantomData<U>,
    _lock: PhantomData<L>,
}

impl<U: Role, L: LockStatus, T: PaymentTerminal> View for VendingMachine<U, L, T> {
    type V = MachineView;

    closed spec fn view(&self) -> MachineView {
        MachineView {
            role: U::tag(),
            lock: L::tag(),
            products: self.product_repository.catalog(),
            sales: self.sale_repository.record(),
        }
    }
}

/// What a login resolves to: an administrator or supplier session on the
/// two fixed accounts, or the unchanged guest session on anything else.
pub enum AuthResult<L: LockStatus, T: PaymentTerminal> {
    SuccessAdmin(VendingMachine<Admin, L, T>),
    SuccessSupplier(VendingMachine<Supplier, L, T>),
    Failure(VendingMachine<Guest, L, T>),
}

impl<U: Role, L: LockStatus, T: PaymentTerminal> VendingMachine<U, L, T> {
    /// The machine's internal invariant: product identities stay unique.
    pub closed spec fn wf(&self) -> bool {
        self.product_repository.inv()
    }

    /// Every listed product. Browsing is permitted in every state.
    pub fn look_up(&self) -> (r: Vec<Product>)
        ensures
            product_models(r@) == self@.products,
    {
        self.product_repository.find_all()
    }
}

impl<U: Role + Authenticated, L: LockStatus, T: PaymentTerminal> VendingMachine<U, L, T> {
    /// Ends the session: back to a guest, with the lock status, the catalog
    /// and the sale record untouched.
    pub fn logout(self) -> (r: VendingMachine<Guest, L, T>)
        requires
            self.wf(),
        ensures
            r.wf(),
            r@ == logout_step(self@),
    {
        VendingMachine {
            product_repository: self.product_repository,
            sale_repository: self.sale_repository,
            payment_terminal: self.payment_terminal,
            _role: PhantomData,
            _lock: PhantomData,
        }
    }
}

impl<L: LockStatus, T: PaymentTerminal> VendingMachine<Guest, L, T> {
    /// Resolves the credentials against the fixed two-account table. The
    /// lock status is inherited by whatever session comes out; on no match
    /// the guest session is handed back unchanged.
    pub fn login(self, username: &Name, password: &Password) -> (r: AuthResult<L, T>)
        requires
            self.wf(),
        ensures
            match r {
                AuthResult::SuccessAdmin(m) => admin_credentials(username@, password@) && m.wf()
                    && m@ == login_step(self@, username@, password@),
                AuthResult::SuccessSupplier(m) => supplier_credentials(username@, password@)
                    && m.wf() && m@ == login_step(self@, username@, password@),
                AuthResult::Failure(m) => !admin_credentials(username@, password@)
                    && !supplier_credentials(username@, password@) && m.wf() && m@ == self@,
            },
    {
        if str_eq(username.as_str(), "admin") && str_eq(password.as_str(), "admin_pass") {
            AuthResult::SuccessAdmin(VendingMachine {
                product_repository: self.product_repository,
                sale_repository: self.sale_repository,
                payment_terminal: self.payment_terminal,
                _role: PhantomData,
                _lock: PhantomData,
            })
        } else if str_eq(username.as_str(), "supplier") && str_eq(
            password.as_str(),
            "supplier_pass",
        ) {
            AuthResult::SuccessSupplier(VendingMachine {
                product_repository: self.product_repository,
                sale_repository: self.sale_repository,
                payment_terminal: self.payment_terminal,
                _role: PhantomData,
                _lock: PhantomData,
            })
        } else {
            AuthResult::Failure(self)
        }
    }
}

/// Relies on chrono's conversion from the system clock for the moment a
/// sale is recorded, handed on as milliseconds since the Unix epoch.
/// Nothing is promised of the clock. The conversion is defined on either
/// side of the epoch — a clock sitting before 1970 gives a negative
/// timestamp instead of aborting the purchase.
#[verifier::external_body]
fn now_millis() -> i64 {
    chrono::DateTime::<chrono::Utc>::from(std::time::SystemTime::now()).timestamp_millis()
}

impl<T: PaymentTerminal> VendingMachine<Guest, Unlocked, T> {
    /// Wires a fresh guest, unlocked machine with the given stores and
    /// payment device.
    pub fn new(
        product_repository: InMemoryProductRepository,
        sale_repository: InMemorySaleRepository,
        payment_terminal: T,
    ) -> (r: Self)
        requires
            product_repository.inv(),
        ensures
            r.wf(),
            r@ == (MachineView {
                role: RoleTag::Guest,
                lock: LockTag::Unlocked,
                products: product_repository.catalog(),
                sales: sale_repository.record(),
            }),
    {
        VendingMachine {
            product_repository,
            sale_repository,
            payment_terminal,
            _role: PhantomData,
            _lock: PhantomData,
        }
    }

    /// The payment loop: asks the device for money until the running total
    /// covers the amount, refunds any change, and reports success. A failed
    /// request is retried; a failed refund stops the purchase. The retries
    /// are bounded by a counter far too large to exhaust at a real machine,
    /// which is what makes the loop provably terminate.
    fn pay(&self, amount: &Price) -> (r: Result<(), VendingError>)
        ensures
            match r {
                Ok(()) => true,
                Err(e) => e == VendingError::PaymentFailed,
            },
    {
        self.payment_terminal.prompt_amount_due(amount);
        let target = amount.as_value();
        let mut paid: u64 = 0;
        let mut attempts_left: u64 = u64::MAX;
        while attempts_left > 0
            decreases attempts_left,
        {
            attempts_left = attempts_left - 1;
            match self.payment_terminal.request() {
                Ok(inserted) => {
                    paid = match paid.checked_add(inserted.as_value()) {
                        Some(v) => v,
                        None => {
                            return Err(VendingError::PaymentFailed);
                        },
                    };
                    if paid >= target {
                        if paid > target {
                            let change = match Price::from_cents(paid - target) {
                                Ok(c) => c,
                                Err(_) => {
                                    return Err(VendingError::PaymentFailed);
                                },
                            };
                            match self.payment_terminal.refund(change) {
                                Ok(()) => {
                                    return Ok(());
                                },
                                Err(_) => {
                                    return Err(VendingError::PaymentFailed);
                                },
                            }
                        }
                        return Ok(());
                    }
                    let remaining = match Price::from_cents(target - paid) {
                        Ok(d) => d,
                        Err(_) => {
                            return Err(VendingError::PaymentFailed);
                        },
                    };
                    self.payment_terminal.prompt_amount_due(&remaining);
                },
                Err(_) => {},
            }
        }
        Err(VendingError::PaymentFailed)
    }

    /// A purchase: looks the product up, checks that the requested quantity
    /// leaves a positive remainder in stock, runs the payment loop for
    /// unit price times quantity, and then — as one atomic unit against the
    /// in-memory stores — decrements the stock and appends exactly one sale
    /// at the total price charged. Any failure leaves the machine exactly
    /// as it was.
    pub fn buy(&mut self, column_id: Value, qty: Value) -> (r: Result<Product, VendingError>)
        requires
            old(self).wf(),
        ensures
            final(self).wf(),
            ({
                let ps = old(self)@.products;
                let i = product_index(ps, column_id@);
                match r {
                    Ok(p) => {
                        &&& has_product_id(ps, column_id@)
                        &&& ps[i].price * qty@ <= u64::MAX
                        &&& ps[i].quantity > qty@
                        &&& p@ == (ProductModel {
                            quantity: (ps[i].quantity - qty@) as u32,
                            ..ps[i]
                        })
                        &&& final(self)@.products == ps.update(i, p@)
                        &&& final(self)@.sales.len() == old(self)@.sales.len() + 1
                        &&& final(self)@.sales.take(old(self)@.sales.len() as int) == old(
                            self,
                        )@.sales
                        &&& final(self)@.sales.last().product_name == ps[i].name
                        &&& final(self)@.sales.last().price == ps[i].price * qty@
                    },
                    Err(VendingError::ProductNotFound) => {
                        &&& !has_product_id(ps, column_id@)
                        &&& final(self)@ == old(self)@
                    },
                    Err(VendingError::PriceOverflow) => {
                        &&& has_product_id(ps, column_id@)
                        &&& ps[i].price * qty@ > u64::MAX
                        &&& final(self)@ == old(self)@
                    },
                    Err(VendingError::InsufficientStock) => {
                        &&& has_product_id(ps, column_id@)
                        &&& ps[i].price * qty@ <= u64::MAX
                        &&& ps[i].quantity <= qty@
                        &&& final(self)@ == old(self)@
                    },
                    Err(VendingError::PaymentFailed) => {
                        &&& has_product_id(ps, column_id@)
                        &&& ps[i].price * qty@ <= u64::MAX
                        &&& ps[i].quantity > qty@
                        &&& final(self)@ == old(self)@
                    },
                }
            }),
    {
        let product = match self.product_repository.find(column_id) {
            Some(p) => p,
            None => {
                return Err(VendingError::ProductNotFound);
            },
        };
        proof {
            use_type_invariant(&product.price);
            use_type_invariant(&qty);
        }
        let total_cents = match product.price.as_value().checked_mul(qty.as_value() as u64) {
            Some(t) => t,
            None => {
                return Err(VendingError::PriceOverflow);
            },
        };
        proof {
            assert(product.price@ * qty@ >= 1) by (nonlinear_arith)
                requires
                    product.price@ >= 1,
                    qty@ >= 1,
            ;
        }
        let stock = product.quantity.as_value();
        let wanted = qty.as_value();
        if stock <= wanted {
            return Err(VendingError::InsufficientStock);
        }
        let new_qty = match Value::parse_u32(stock - wanted) {
            Ok(v) => v,
            Err(_) => {
                return Err(VendingError::InsufficientStock);
            },
        };
        let total_price = match Price::from_cents(total_cents) {
            Ok(p) => p,
            Err(_) => {
                return Err(VendingError::PriceOverflow);
            },
        };
        match self.pay(&total_price) {
            Ok(()) => {},
            Err(_) => {
                return Err(VendingError::PaymentFailed);
            },
        }
        let bought = Product {
            column_id: product.column_id,
            name: product.name.clone(),
            price: product.price,
            quantity: new_qty,
        };
        let _ = self.product_repository.save(bought.clone());
        let sale = Sale {
            date: now_millis(),
            product_name: product.name,
            price: total_price,
        };
        let _ = self.sale_repository.save(sale);
        proof {
            assert(self@.sales.take(old(self)@.sales.len() as int) =~= old(self)@.sales);
        }
        Ok(bought)
    }
}

impl<L: LockStatus, T: PaymentTerminal> VendingMachine<Admin, L, T> {
    /// Every recorded sale, oldest first. Only an administrator may read
    /// the report, in either lock status.
    pub fn list_sales_report(&self) -> (r: Vec<Sale>)
        ensures
            sale_models(r@) == self@.sales,
    {
        self.sale_repository.find_all()
    }
}

impl<T: PaymentTerminal> VendingMachine<Admin, Unlocked, T> {
    /// Suspends commerce for maintenance. Only an administrator can.
    pub fn lock(self) -> (r: VendingMachine<Admin, Locked, T>)
        requires
            self.wf(),
        ensures
            r.wf(),
            r@ == lock_step(self@),
    {
        VendingMachine {
            product_repository: self.product_repository,
            sale_repository: self.sale_repository,
            payment_terminal: self.payment_terminal,
            _role: PhantomData,
            _lock: PhantomData,
        }
    }
}

impl<T: PaymentTerminal> VendingMachine<Admin, Locked, T> {
    /// Reopens commerce after maintenance. Only an administrator can.
    pub fn unlock(self) -> (r: VendingMachine<Admin, Unlocked, T>)
        requires
            self.wf(),
        ensures
            r.wf(),
            r@ == unlock_step(self@),
    {
        VendingMachine {
            product_repository: self.product_repository,
            sale_repository: self.sale_repository,
            payment_terminal: self.payment_terminal,
            _role: PhantomData,
            _lock: PhantomData,
        }
    }
}

impl<T: PaymentTerminal> VendingMachine<Supplier, Unlocked, T> {
    /// Replaces the listing under the product's identity with the given
    /// record — name, price and quantity all overwritten — or appends it
    /// under a new identity, leaving every other listing untouched.
    pub fn supply_product(&mut self, product: Product) -> (r: Result<(), VendingError>)
        requires
            old(self).wf(),
        ensures
            final(self).wf(),
            r is Ok,
            final(self)@.products == upsert(old(self)@.products, product@),
            final(self)@.sales == old(self)@.sales,
    {
        self.product_repository.save(product)
    }
}

} // verus!
