//! The two axes of the engine state, carried in the machine's type: who is
//! operating it, and whether it is locked for maintenance. Each marker type
//! names its spec-level tag, so that contracts can speak about the state a
//! machine's type stands for.

use vstd::prelude::*;

verus! {

/// The identity class of a session, at the specification level.
pub enum RoleTag {
    Guest,
    Admin,
    Supplier,
}

/// The maintenance flag, at the specification level.
pub enum LockTag {
    Locked,
    Unlocked,
}

/// An identity class the machine can be operated under.
pub trait Role {
    /// The tag this marker type stands for.
    spec fn tag() -> RoleTag;
}

/// A role that reached its state by logging in, and so can log out.
pub trait Authenticated: Role {

}

/// The unauthenticated visitor: may browse and buy.
pub struct Guest;

/// The administrator: may inspect sales and toggle the maintenance lock.
pub struct Admin;

/// The stock supplier: may replace product listings.
pub struct Supplier;

impl Role for Guest {
    open spec fn tag() -> RoleTag {
        RoleTag::Guest
    }
}

impl Role for Admin {
    open spec fn tag() -> RoleTag {
        RoleTag::Admin
    }
}

impl Role for Supplier {
    open spec fn tag() -> RoleTag {
        RoleTag::Supplier
    }
}

impl Authenticated for Admin {

}

impl Authenticated for Supplier {

}

/// A maintenance status the machine can be in.
pub trait LockStatus {
    /// The tag this marker type stands for.
    spec fn tag() -> LockTag;
}

/// Commerce is suspended; only browsing, login and logout are exposed.
pub struct Locked;

/// Commerce is open.
pub struct Unlocked;

impl LockStatus for Locked {
    open spec fn tag() -> LockTag {
        LockTag::Locked
    }
}

impl LockStatus for Unlocked {
    open spec fn tag() -> LockTag {
        LockTag::Unlocked
    }
}

} // verus!
