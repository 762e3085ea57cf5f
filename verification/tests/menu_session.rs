use inventory_store::session::{next_step, Command, Step};

#[test]
fn menu_digits_stand_for_the_commands() {
    assert_eq!(Command::parse("1"), Some(Command::AddProduct));
    assert_eq!(Command::parse("2"), Some(Command::EditProduct));
    assert_eq!(Command::parse("3"), Some(Command::DeleteProduct));
    assert_eq!(Command::parse("4"), Some(Command::ListInventory));
    assert_eq!(Command::parse("5"), Some(Command::RecordSale));
    assert_eq!(Command::parse("6"), Some(Command::RecordPurchase));
    assert_eq!(Command::parse("7"), Some(Command::GenerateReports));
    assert_eq!(Command::parse("8"), Some(Command::Logout));
    assert_eq!(Command::parse("9"), Some(Command::Exit));
}

#[test]
fn other_choices_are_no_command() {
    assert_eq!(Command::parse(""), None);
    assert_eq!(Command::parse("0"), None);
    assert_eq!(Command::parse("10"), None);
    assert_eq!(Command::parse(" 1"), None);
    assert_eq!(Command::parse("1 "), None);
    assert_eq!(Command::parse("01"), None);
    assert_eq!(Command::parse("one"), None);
    assert_eq!(Command::parse("exit"), None);
}

#[test]
fn changing_commands_need_a_login() {
    assert!(Command::AddProduct.changes_store());
    assert!(Command::EditProduct.changes_store());
    assert!(Command::DeleteProduct.changes_store());
    assert!(Command::RecordSale.changes_store());
    assert!(Command::RecordPurchase.changes_store());
    assert!(!Command::ListInventory.changes_store());
    assert!(!Command::GenerateReports.changes_store());
    assert!(!Command::Logout.changes_store());
    assert!(!Command::Exit.changes_store());
}

#[test]
fn session_ends_on_exit_and_on_a_failed_new_login() {
    assert_eq!(next_step(Some(Command::Exit), true), Step::Leave);
    assert_eq!(next_step(Some(Command::Exit), false), Step::Leave);
    assert_eq!(next_step(Some(Command::Logout), false), Step::Leave);
    assert_eq!(next_step(Some(Command::Logout), true), Step::SaveAndGoOn);
}

#[test]
fn every_other_choice_is_followed_by_saving() {
    assert_eq!(next_step(None, true), Step::SaveAndGoOn);
    assert_eq!(next_step(None, false), Step::SaveAndGoOn);
    assert_eq!(next_step(Some(Command::AddProduct), true), Step::SaveAndGoOn);
    assert_eq!(next_step(Some(Command::AddProduct), false), Step::SaveAndGoOn);
    assert_eq!(next_step(Some(Command::ListInventory), false), Step::SaveAndGoOn);
    assert_eq!(next_step(Some(Command::GenerateReports), true), Step::SaveAndGoOn);
    assert_eq!(next_step(Some(Command::RecordSale), true), Step::SaveAndGoOn);
}
