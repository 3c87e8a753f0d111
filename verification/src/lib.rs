use vstd::prelude::*;

pub mod auth;
pub mod display;
pub mod inventory;
pub mod reporting;
pub mod theorems;
pub mod transaction;
pub mod util;

use crate::inventory::{Inventory, ProductView};
use crate::transaction::{TransactionManager, TransactionView};
use crate::util::same_text;

verus! {

/// The catalog and the ledger of one store.
pub struct Store {
    pub inventory: Inventory,
    pub transaction_manager: TransactionManager,
}

impl Store {
    /// A store with an empty catalog and an empty ledger.
    pub fn new() -> (store: Store)
        ensures
            store.inventory.wf(),
            store.inventory@ == Map::<Seq<char>, ProductView>::empty(),
            store.transaction_manager@ == Seq::<TransactionView>::empty(),
    {
        Store { inventory: Inventory::new(), transaction_manager: TransactionManager::new() }
    }
}

/// What a user can ask of the store.
#[derive(Debug, Clone, Copy, PartialEq, Eq, Structural)]
pub enum Command {
    AddProduct,
    EditProduct,
    DeleteProduct,
    ListProducts,
    RecordSale,
    RecordPurchase,
    ListTransactions,
    GenerateReports,
    Exit,
}

/// The command that a choice from the menu stands for, if it stands for
/// one: the digits `1` to `9`, in the order of the menu.
pub open spec fn command_of(choice: Seq<char>) -> Option<Command> {
    if choice == "1"@ {
        Some(Command::AddProduct)
    } else if choice == "2"@ {
        Some(Command::EditProduct)
    } else if choice == "3"@ {
        Some(Command::DeleteProduct)
    } else if choice == "4"@ {
        Some(Command::ListProducts)
    } else if choice == "5"@ {
        Some(Command::RecordSale)
    } else if choice == "6"@ {
        Some(Command::RecordPurchase)
    } else if choice == "7"@ {
        Some(Command::ListTransactions)
    } else if choice == "8"@ {
        Some(Command::GenerateReports)
    } else if choice == "9"@ {
        Some(Command::Exit)
    } else {
        None
    }
}

/// Reads a choice from the menu.
pub fn execute(choice: &str) -> (command: Option<Command>)
    ensures
        command == command_of(choice@),
{
    if same_text(choice, "1") {
        Some(Command::AddProduct)
    } else if same_text(choice, "2") {
        Some(Command::EditProduct)
    } else if same_text(choice, "3") {
        Some(Command::DeleteProduct)
    } else if same_text(choice, "4") {
        Some(Command::ListProducts)
    } else if same_text(choice, "5") {
        Some(Command::RecordSale)
    } else if same_text(choice, "6") {
        Some(Command::RecordPurchase)
    } else if same_text(choice, "7") {
        Some(Command::ListTransactions)
    } else if same_text(choice, "8") {
        Some(Command::GenerateReports)
    } else if same_text(choice, "9") {
        Some(Command::Exit)
    } else {
        None
    }
}

/// The lines of the menu.
pub open spec fn menu_text() -> Seq<char> {
    "\n--- Rusty Store Management ---\n"@ + "1. Add Product\n"@ + "2. Edit Product\n"@
        + "3. Delete Product\n"@ + "4. List Products\n"@ + "5. Record Sale\n"@
        + "6. Record Purchase\n"@ + "7. List Transactions\n"@ + "8. Generate Reports\n"@
        + "9. Exit\n"@
}

/// Writes the menu.
pub fn display_menu() -> (shown: String)
    ensures
        shown@ == menu_text(),
{
    let mut shown = String::from_str("\n--- Rusty Store Management ---\n");
    shown.append("1. Add Product\n");
    shown.append("2. Edit Product\n");
    shown.append("3. Delete Product\n");
    shown.append("4. List Products\n");
    shown.append("5. Record Sale\n");
    shown.append("6. Record Purchase\n");
    shown.append("7. List Transactions\n");
    shown.append("8. Generate Reports\n");
    shown.append("9. Exit\n");
    shown
}

} // verus!
