use vending_machine::commands::{
    AdminLockedCommand, AdminUnlockedCommand, GuestLockedCommand, GuestUnlockedCommand,
    SupplierLockedCommand, SupplierUnlockedCommand,
};

#[test]
fn guest_unlocked_menu_choices() {
    assert_eq!(GuestUnlockedCommand::parse("1"), Some(GuestUnlockedCommand::Login));
    assert_eq!(GuestUnlockedCommand::parse("2"), Some(GuestUnlockedCommand::ListProducts));
    assert_eq!(GuestUnlockedCommand::parse("3"), Some(GuestUnlockedCommand::BuyProduct));
    assert_eq!(GuestUnlockedCommand::parse("4"), Some(GuestUnlockedCommand::Exit));
    assert_eq!(GuestUnlockedCommand::parse("5"), None);
    assert_eq!(GuestUnlockedCommand::parse("login"), None);
    assert_eq!(GuestUnlockedCommand::parse(""), None);
}

#[test]
fn guest_locked_menu_choices() {
    assert_eq!(GuestLockedCommand::parse("1"), Some(GuestLockedCommand::Login));
    assert_eq!(GuestLockedCommand::parse("2"), Some(GuestLockedCommand::ListProducts));
    assert_eq!(GuestLockedCommand::parse("3"), Some(GuestLockedCommand::Exit));
    assert_eq!(GuestLockedCommand::parse("4"), None);
}

#[test]
fn admin_unlocked_menu_choices() {
    assert_eq!(AdminUnlockedCommand::parse("1"), Some(AdminUnlockedCommand::Logout));
    assert_eq!(AdminUnlockedCommand::parse("2"), Some(AdminUnlockedCommand::ListProducts));
    assert_eq!(AdminUnlockedCommand::parse("3"), Some(AdminUnlockedCommand::ListSales));
    assert_eq!(AdminUnlockedCommand::parse("4"), Some(AdminUnlockedCommand::Lock));
    assert_eq!(AdminUnlockedCommand::parse("5"), Some(AdminUnlockedCommand::Exit));
    assert_eq!(AdminUnlockedCommand::parse("6"), None);
}

#[test]
fn admin_locked_menu_choices() {
    assert_eq!(AdminLockedCommand::parse("1"), Some(AdminLockedCommand::Logout));
    assert_eq!(AdminLockedCommand::parse("2"), Some(AdminLockedCommand::ListProducts));
    assert_eq!(AdminLockedCommand::parse("3"), Some(AdminLockedCommand::ListSales));
    assert_eq!(AdminLockedCommand::parse("4"), Some(AdminLockedCommand::Unlock));
    assert_eq!(AdminLockedCommand::parse("5"), Some(AdminLockedCommand::Exit));
    assert_eq!(AdminLockedCommand::parse("0"), None);
}

#[test]
fn supplier_unlocked_menu_choices() {
    assert_eq!(SupplierUnlockedCommand::parse("1"), Some(SupplierUnlockedCommand::Logout));
    assert_eq!(SupplierUnlockedCommand::parse("2"), Some(SupplierUnlockedCommand::ListProducts));
    assert_eq!(SupplierUnlockedCommand::parse("3"), Some(SupplierUnlockedCommand::SupplyProduct));
    assert_eq!(SupplierUnlockedCommand::parse("4"), Some(SupplierUnlockedCommand::Exit));
    assert_eq!(SupplierUnlockedCommand::parse("44"), None);
}

#[test]
fn supplier_locked_menu_choices() {
    assert_eq!(SupplierLockedCommand::parse("1"), Some(SupplierLockedCommand::Logout));
    assert_eq!(SupplierLockedCommand::parse("2"), Some(SupplierLockedCommand::ListProducts));
    assert_eq!(SupplierLockedCommand::parse("3"), Some(SupplierLockedCommand::Exit));
    assert_eq!(SupplierLockedCommand::parse("x"), None);
}
