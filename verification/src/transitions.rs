//! The engine's state machine, at the specification level: what a machine
//! looks like in contracts, which credentials resolve to which role, and how
//! each transition acts on the state. The proof functions at the end state
//! the laws of the machine: login preserves the lock and is idempotent on
//! wrong credentials, logout always lands in a guest session with the lock
//! untouched, and locking then unlocking returns an administrator exactly
//! where it started.

use vstd::prelude::*;

use crate::domain::{ProductModel, SaleModel};
use crate::states::{LockTag, RoleTag};

verus! {

/// What a machine looks like in contracts: the session state both axes are
/// in, the product catalog and the sale record.
pub ghost struct MachineView {
    pub role: RoleTag,
    pub lock: LockTag,
    pub products: Seq<ProductModel>,
    pub sales: Seq<SaleModel>,
}

/// True when the given name and password are the fixed administrator
/// account.
pub open spec fn admin_credentials(name: Seq<char>, password: Seq<char>) -> bool {
    name == "admin"@ && password == "admin_pass"@
}

/// True when the given name and password are the fixed supplier account.
pub open spec fn supplier_credentials(name: Seq<char>, password: Seq<char>) -> bool {
    name == "supplier"@ && password == "supplier_pass"@
}

/// The role a login with the given credentials resolves to: one of the two
/// fixed accounts, or a guest again on no match.
pub open spec fn login_role(name: Seq<char>, password: Seq<char>) -> RoleTag {
    if admin_credentials(name, password) {
        RoleTag::Admin
    } else if supplier_credentials(name, password) {
        RoleTag::Supplier
    } else {
        RoleTag::Guest
    }
}

/// Logging in from a guest session: the role follows the credentials and
/// everything else stays as it was.
pub open spec fn login_step(s: MachineView, name: Seq<char>, password: Seq<char>) -> MachineView {
    MachineView { role: login_role(name, password), ..s }
}

/// Logging out: back to a guest session, everything else as it was.
pub open spec fn logout_step(s: MachineView) -> MachineView {
    MachineView { role: RoleTag::Guest, ..s }
}

/// Locking for maintenance: only the lock axis moves.
pub open spec fn lock_step(s: MachineView) -> MachineView {
    MachineView { lock: LockTag::Locked, ..s }
}

/// Reopening after maintenance: only the lock axis moves.
pub open spec fn unlock_step(s: MachineView) -> MachineView {
    MachineView { lock: LockTag::Unlocked, ..s }
}

/// Login resolves the fixed administrator account to an administrator
/// session, the fixed supplier account to a supplier session, and any other
/// credentials to a guest session again; whichever way it resolves, the
/// lock status, the catalog and the sale record are untouched.
pub proof fn lemma_login(s: MachineView, name: Seq<char>, password: Seq<char>)
    requires
        s.role == RoleTag::Guest,
    ensures
        login_step(s, name, password).lock == s.lock,
        login_step(s, name, password).products == s.products,
        login_step(s, name, password).sales == s.sales,
        admin_credentials(name, password) ==> login_step(s, name, password).role
            == RoleTag::Admin,
        supplier_credentials(name, password) ==> login_step(s, name, password).role
            == RoleTag::Supplier,
        !admin_credentials(name, password) && !supplier_credentials(name, password)
            ==> login_step(s, name, password) == s,
{
    if supplier_credentials(name, password) {
        reveal_strlit("admin");
        reveal_strlit("supplier");
        assert("admin"@.len() == 5);
        assert("supplier"@.len() == 8);
        assert(!admin_credentials(name, password));
    }
}

/// A failed login leaves the machine exactly as it was, however often it is
/// retried.
pub proof fn lemma_login_failure_idempotent(s: MachineView, name: Seq<char>, password: Seq<char>)
    requires
        s.role == RoleTag::Guest,
        !admin_credentials(name, password),
        !supplier_credentials(name, password),
    ensures
        login_step(s, name, password) == s,
        login_step(login_step(s, name, password), name, password) == s,
{
}

/// Logout from any authenticated session yields a guest session; the lock
/// status, the catalog and the sale record are invariant under it.
pub proof fn lemma_logout(s: MachineView)
    requires
        s.role == RoleTag::Admin || s.role == RoleTag::Supplier,
    ensures
        logout_step(s).role == RoleTag::Guest,
        logout_step(s).lock == s.lock,
        logout_step(s).products == s.products,
        logout_step(s).sales == s.sales,
{
}

/// Locking and then unlocking returns an unlocked administrator session to
/// exactly the state it started in.
pub proof fn lemma_lock_unlock_round_trip(s: MachineView)
    requires
        s.role == RoleTag::Admin,
        s.lock == LockTag::Unlocked,
    ensures
        lock_step(s).lock == LockTag::Locked,
        lock_step(s).role == s.role,
        unlock_step(lock_step(s)) == s,
{
}

} // verus!
