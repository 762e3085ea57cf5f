//! The commands of the store's menu, and when the operator leaves it.

use vstd::prelude::*;

verus! {

/// What an operator can ask of the store.
#[derive(Clone, Copy, Debug, PartialEq, Eq, Structural)]
pub enum Command {
    AddProduct,
    EditProduct,
    DeleteProduct,
    ListInventory,
    RecordSale,
    RecordPurchase,
    GenerateReports,
    Logout,
    Exit,
}

/// What follows a command.
#[derive(Clone, Copy, Debug, PartialEq, Eq, Structural)]
pub enum Step {
    /// The store is saved and the menu is shown again.
    SaveAndGoOn,
    /// The operator leaves, and nothing is saved.
    Leave,
}

/// The command that a choice at the menu stands for: the digits one to nine
/// in the menu's order, and nothing else.
pub open spec fn spec_parse(choice: Seq<char>) -> Option<Command> {
    if choice == "1"@ {
        Some(Command::AddProduct)
    } else if choice == "2"@ {
        Some(Command::EditProduct)
    } else if choice == "3"@ {
        Some(Command::DeleteProduct)
    } else if choice == "4"@ {
        Some(Command::ListInventory)
    } else if choice == "5"@ {
        Some(Command::RecordSale)
    } else if choice == "6"@ {
        Some(Command::RecordPurchase)
    } else if choice == "7"@ {
        Some(Command::GenerateReports)
    } else if choice == "8"@ {
        Some(Command::Logout)
    } else if choice == "9"@ {
        Some(Command::Exit)
    } else {
        None
    }
}

/// What follows a choice at the menu, once its command has run. `logged_in`
/// says whether somebody is logged in then. `Exit` is followed by leaving, and
/// so is `Logout` when nobody has logged in after it. Every other choice,
/// one that is no command too, is followed by saving.
pub open spec fn spec_step(command: Option<Command>, logged_in: bool) -> Step {
    if command == Some(Command::Exit) || (command == Some(Command::Logout) && !logged_in) {
        Step::Leave
    } else {
        Step::SaveAndGoOn
    }
}

/// Whether two texts are the same.
fn same_text(left: &str, right: &str) -> (same: bool)
    ensures
        same == (left@ == right@),
{
    left.to_owned() == right.to_owned()
}

impl Command {
    /// Reads a choice at the menu.
    pub fn parse(choice: &str) -> (command: Option<Command>)
        ensures
            command == spec_parse(choice@),
    {
        if same_text(choice, "1") {
            Some(Command::AddProduct)
        } else if same_text(choice, "2") {
            Some(Command::EditProduct)
        } else if same_text(choice, "3") {
            Some(Command::DeleteProduct)
        } else if same_text(choice, "4") {
            Some(Command::ListInventory)
        } else if same_text(choice, "5") {
            Some(Command::RecordSale)
        } else if same_text(choice, "6") {
            Some(Command::RecordPurchase)
        } else if same_text(choice, "7") {
            Some(Command::GenerateReports)
        } else if same_text(choice, "8") {
            Some(Command::Logout)
        } else if same_text(choice, "9") {
            Some(Command::Exit)
        } else {
            None
        }
    }

    /// Whether the command changes the store, and so needs a login.
    pub fn changes_store(self) -> (changes: bool)
        ensures
            changes == (self == Command::AddProduct || self == Command::EditProduct || self
                == Command::DeleteProduct || self == Command::RecordSale || self
                == Command::RecordPurchase),
    {
        match self {
            Command::AddProduct
            | Command::EditProduct
            | Command::DeleteProduct
            | Command::RecordSale
            | Command::RecordPurchase => true,
            _ => false,
        }
    }
}

/// Decides what follows a choice at the menu, once its command has run.
pub fn next_step(command: Option<Command>, logged_in: bool) -> (step: Step)
    ensures
        step == spec_step(command, logged_in),
{
    match command {
        Some(Command::Exit) => Step::Leave,
        Some(Command::Logout) => if logged_in {
            Step::SaveAndGoOn
        } else {
            Step::Leave
        },
        _ => Step::SaveAndGoOn,
    }
}

} // verus!
