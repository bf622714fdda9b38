//! The commands a user can choose in each engine state, and the mapping
//! from a menu choice, as typed, to a command. The front end renders the
//! menus and reads the lines; which line means which command is decided
//! here, exactly.

use vstd::prelude::*;

use crate::text::str_eq;

verus! {

/// What a guest can do while the machine is unlocked.
#[derive(Debug, PartialEq, Eq, Structural, Clone, Copy)]
pub enum GuestUnlockedCommand {
    Login,
    ListProducts,
    BuyProduct,
    Exit,
}

impl GuestUnlockedCommand {
    /// The command chosen by a typed menu line, if any.
    pub fn parse(value: &str) -> (r: Option<Self>)
        ensures
            match r {
                Some(c) => (value@ == "1"@ && c == GuestUnlockedCommand::Login) || (value@ == "2"@
                    && c == GuestUnlockedCommand::ListProducts) || (value@ == "3"@ && c
                    == GuestUnlockedCommand::BuyProduct) || (value@ == "4"@ && c
                    == GuestUnlockedCommand::Exit),
                None => value@ != "1"@ && value@ != "2"@ && value@ != "3"@ && value@ != "4"@,
            },
    {
        if str_eq(value, "1") {
            Some(GuestUnlockedCommand::Login)
        } else if str_eq(value, "2") {
            Some(GuestUnlockedCommand::ListProducts)
        } else if str_eq(value, "3") {
            Some(GuestUnlockedCommand::BuyProduct)
        } else if str_eq(value, "4") {
            Some(GuestUnlockedCommand::Exit)
        } else {
            None
        }
    }
}

/// What a guest can do while the machine is locked: browsing and logging in
/// stay open, commerce does not.
#[derive(Debug, PartialEq, Eq, Structural, Clone, Copy)]
pub enum GuestLockedCommand {
    Login,
    ListProducts,
    Exit,
}

impl GuestLockedCommand {
    /// The command chosen by a typed menu line, if any.
    pub fn parse(value: &str) -> (r: Option<Self>)
        ensures
            match r {
                Some(c) => (value@ == "1"@ && c == GuestLockedCommand::Login) || (value@ == "2"@
                    && c == GuestLockedCommand::ListProducts) || (value@ == "3"@ && c
                    == GuestLockedCommand::Exit),
                None => value@ != "1"@ && value@ != "2"@ && value@ != "3"@,
            },
    {
        if str_eq(value, "1") {
            Some(GuestLockedCommand::Login)
        } else if str_eq(value, "2") {
            Some(GuestLockedCommand::ListProducts)
        } else if str_eq(value, "3") {
            Some(GuestLockedCommand::Exit)
        } else {
            None
        }
    }
}

/// What an administrator can do while the machine is unlocked.
#[derive(Debug, PartialEq, Eq, Structural, Clone, Copy)]
pub enum AdminUnlockedCommand {
    Logout,
    ListProducts,
    ListSales,
    Lock,
    Exit,
}

impl AdminUnlockedCommand {
    /// The command chosen by a typed menu line, if any.
    pub fn parse(value: &str) -> (r: Option<Self>)
        ensures
            match r {
                Some(c) => (value@ == "1"@ && c == AdminUnlockedCommand::Logout) || (value@
                    == "2"@ && c == AdminUnlockedCommand::ListProducts) || (value@ == "3"@ && c
                    == AdminUnlockedCommand::ListSales) || (value@ == "4"@ && c
                    == AdminUnlockedCommand::Lock) || (value@ == "5"@ && c
                    == AdminUnlockedCommand::Exit),
                None => value@ != "1"@ && value@ != "2"@ && value@ != "3"@ && value@ != "4"@
                    && value@ != "5"@,
            },
    {
        if str_eq(value, "1") {
            Some(AdminUnlockedCommand::Logout)
        } else if str_eq(value, "2") {
            Some(AdminUnlockedCommand::ListProducts)
        } else if str_eq(value, "3") {
            Some(AdminUnlockedCommand::ListSales)
        } else if str_eq(value, "4") {
            Some(AdminUnlockedCommand::Lock)
        } else if str_eq(value, "5") {
            Some(AdminUnlockedCommand::Exit)
        } else {
            None
        }
    }
}

/// What an administrator can do while the machine is locked.
#[derive(Debug, PartialEq, Eq, Structural, Clone, Copy)]
pub enum AdminLockedCommand {
    Logout,
    ListProducts,
    ListSales,
    Unlock,
    Exit,
}

impl AdminLockedCommand {
    /// The command chosen by a typed menu line, if any.
    pub fn parse(value: &str) -> (r: Option<Self>)
        ensures
            match r {
                Some(c) => (value@ == "1"@ && c == AdminLockedCommand::Logout) || (value@ == "2"@
                    && c == AdminLockedCommand::ListProducts) || (value@ == "3"@ && c
                    == AdminLockedCommand::ListSales) || (value@ == "4"@ && c
                    == AdminLockedCommand::Unlock) || (value@ == "5"@ && c
                    == AdminLockedCommand::Exit),
                None => value@ != "1"@ && value@ != "2"@ && value@ != "3"@ && value@ != "4"@
                    && value@ != "5"@,
            },
    {
        if str_eq(value, "1") {
            Some(AdminLockedCommand::Logout)
        } else if str_eq(value, "2") {
            Some(AdminLockedCommand::ListProducts)
        } else if str_eq(value, "3") {
            Some(AdminLockedCommand::ListSales)
        } else if str_eq(value, "4") {
            Some(AdminLockedCommand::Unlock)
        } else if str_eq(value, "5") {
            Some(AdminLockedCommand::Exit)
        } else {
            None
        }
    }
}

/// What a supplier can do while the machine is unlocked.
#[derive(Debug, PartialEq, Eq, Structural, Clone, Copy)]
pub enum SupplierUnlockedCommand {
    Logout,
    ListProducts,
    SupplyProduct,
    Exit,
}

impl SupplierUnlockedCommand {
    /// The command chosen by a typed menu line, if any.
    pub fn parse(value: &str) -> (r: Option<Self>)
        ensures
            match r {
                Some(c) => (value@ == "1"@ && c == SupplierUnlockedCommand::Logout) || (value@
                    == "2"@ && c == SupplierUnlockedCommand::ListProducts) || (value@ == "3"@ && c
                    == SupplierUnlockedCommand::SupplyProduct) || (value@ == "4"@ && c
                    == SupplierUnlockedCommand::Exit),
                None => value@ != "1"@ && value@ != "2"@ && value@ != "3"@ && value@ != "4"@,
            },
    {
        if str_eq(value, "1") {
            Some(SupplierUnlockedCommand::Logout)
        } else if str_eq(value, "2") {
            Some(SupplierUnlockedCommand::ListProducts)
        } else if str_eq(value, "3") {
            Some(SupplierUnlockedCommand::SupplyProduct)
        } else if str_eq(value, "4") {
            Some(SupplierUnlockedCommand::Exit)
        } else {
            None
        }
    }
}

/// What a supplier can do while the machine is locked: only browsing and
/// leaving the session.
#[derive(Debug, PartialEq, Eq, Structural, Clone, Copy)]
pub enum SupplierLockedCommand {
    Logout,
    ListProducts,
    Exit,
}

impl SupplierLockedCommand {
    /// The command chosen by a typed menu line, if any.
    pub fn parse(value: &str) -> (r: Option<Self>)
        ensures
            match r {
                Some(c) => (value@ == "1"@ && c == SupplierLockedCommand::Logout) || (value@
                    == "2"@ && c == SupplierLockedCommand::ListProducts) || (value@ == "3"@ && c
                    == SupplierLockedCommand::Exit),
                None => value@ != "1"@ && value@ != "2"@ && value@ != "3"@,
            },
    {
        if str_eq(value, "1") {
            Some(SupplierLockedCommand::Logout)
        } else if str_eq(value, "2") {
            Some(SupplierLockedCommand::ListProducts)
        } else if str_eq(value, "3") {
            Some(SupplierLockedCommand::Exit)
        } else {
            None
        }
    }
}

} // verus!
