use rusty_store::inventory::{self, Inventory, InventoryManagement, Product};
use rusty_store::reporting::{
    generate_inventory_report, generate_profit_loss_summary, generate_purchase_report,
    generate_reports, generate_sales_report, profit_or_loss, total_purchases, total_sales,
    Balance,
};
use rusty_store::transaction::{self, Transaction, TransactionManager, TransactionType};

fn laptop_inventory() -> Inventory {
    let mut inventory = Inventory::new();
    inventory
        .add_product(Product {
            name: "Laptop".to_string(),
            description: "A gaming laptop".to_string(),
            price: 120000,
            quantity: 20,
        })
        .unwrap();
    inventory
}

fn busy_ledger() -> (Inventory, TransactionManager) {
    let mut inventory = Inventory::new();
    let mut ledger = TransactionManager::new();
    ledger
        .record_purchase(&mut inventory, "Widget", 20, 4500)
        .unwrap();
    ledger
        .record_sale(&mut inventory, "Widget", 10, 5500)
        .unwrap();
    (inventory, ledger)
}

#[test]
fn inventory_report_lists_every_product() {
    let report = generate_inventory_report(&laptop_inventory());
    assert_eq!(
        report,
        "\n--- Inventory Report: ---\n-----------------\nItem 1:\n  Product: Laptop\n  Description: A gaming laptop\n  Price: $1200.00\n  Quantity: 20\n\n"
    );
}

#[test]
fn inventory_report_of_empty_catalog_has_only_the_title() {
    let report = generate_inventory_report(&Inventory::new());
    assert_eq!(report, "\n--- Inventory Report: ---\n-----------------\n");
}

#[test]
fn sales_report_lists_sales_and_their_total() {
    let (_, ledger) = busy_ledger();
    assert_eq!(
        generate_sales_report(&ledger),
        "\n--- Sales Report: ---\n----------------------\nItem 1:\n  Product: Widget\n  Quantity Sold: 10\n  Sale Price: $55.00\n  Amount: $550.00\n\nTotal Sales: $550.00\n"
    );
}

#[test]
fn purchase_report_lists_purchases_and_their_total() {
    let (_, ledger) = busy_ledger();
    assert_eq!(
        generate_purchase_report(&ledger),
        "\n--- Purchase Report: ---\n--------------------------\nItem 1:\n  Product: Widget\n  Quantity Bought: 20\n  Purchase Price: $45.00\n  Amount: $900.00\n\nTotal Purchases: $900.00\n"
    );
}

#[test]
fn summary_shows_a_loss_with_a_minus_before_the_sign() {
    let (_, ledger) = busy_ledger();
    assert_eq!(
        generate_profit_loss_summary(&ledger),
        "===============================\nTotal Profit/Loss: -$350.00\n===============================\n"
    );
}

#[test]
fn summary_shows_a_profit_without_a_sign() {
    let mut inventory = Inventory::new();
    let mut ledger = TransactionManager::new();
    ledger.record_purchase(&mut inventory, "Pen", 10, 100).unwrap();
    ledger.record_sale(&mut inventory, "Pen", 10, 250).unwrap();
    assert_eq!(
        generate_profit_loss_summary(&ledger),
        "===============================\nTotal Profit/Loss: $15.00\n===============================\n"
    );
}

#[test]
fn totals_sum_price_times_quantity_per_kind() {
    let (_, mut ledger) = busy_ledger();
    assert_eq!(total_sales(&ledger), 55000);
    assert_eq!(total_purchases(&ledger), 90000);
    assert_eq!(
        profit_or_loss(&ledger),
        Balance {
            is_loss: true,
            size: 35000
        }
    );

    ledger.transactions.push(Transaction {
        transaction_type: TransactionType::Sale,
        product_name: "Odd".to_string(),
        quantity: 3,
        price: 7,
        total: 1,
    });
    assert_eq!(total_sales(&ledger), 55021);
}

#[test]
fn totals_of_an_empty_ledger_are_zero() {
    let ledger = TransactionManager::new();
    assert_eq!(total_sales(&ledger), 0);
    assert_eq!(total_purchases(&ledger), 0);
    assert_eq!(
        profit_or_loss(&ledger),
        Balance {
            is_loss: false,
            size: 0
        }
    );
}

#[test]
fn totals_take_the_largest_amounts() {
    let mut ledger = TransactionManager::new();
    for _ in 0..3 {
        ledger.transactions.push(Transaction {
            transaction_type: TransactionType::Purchase,
            product_name: "Big".to_string(),
            quantity: u32::MAX,
            price: i64::MIN,
            total: 0,
        });
    }
    let one = (i64::MIN as i128) * (u32::MAX as i128);
    assert_eq!(total_purchases(&ledger), 3 * one);
    assert_eq!(
        profit_or_loss(&ledger),
        Balance {
            is_loss: false,
            size: (-3 * one) as u128
        }
    );
}

#[test]
fn reports_are_chosen_by_number() {
    let (inventory, ledger) = busy_ledger();
    let stock = generate_inventory_report(&inventory) + "\n";
    let sales = generate_sales_report(&ledger) + "\n";
    let purchases = generate_purchase_report(&ledger) + "\n";
    let summary = generate_profit_loss_summary(&ledger) + "\n";

    assert_eq!(generate_reports(&ledger, &inventory, "1"), stock);
    assert_eq!(generate_reports(&ledger, &inventory, "2"), sales);
    assert_eq!(generate_reports(&ledger, &inventory, "3"), purchases);
    let all = format!("{}{}{}{}", stock, sales, purchases, summary);
    assert_eq!(generate_reports(&ledger, &inventory, ""), all);
    assert_eq!(generate_reports(&ledger, &inventory, "4"), all);
    assert_eq!(generate_reports(&ledger, &inventory, " 1"), all);
}

#[test]
fn product_table_has_a_numbered_row_for_each_product() {
    let shown = inventory::list_products(&laptop_inventory());
    let expected = format!(
        "{:<2} {:<6} {:<15} {:<7} {:<8} \n{:-<2} {:-<6} {:-<15} {:-<7} {:-<8} \n{:<2} {:<6} {:<15} {:<7} {:<8} \n",
        "No", "Name", "Description", "Price", "Quantity",
        "-", "-", "-", "-", "-",
        "1", "Laptop", "A gaming laptop", "1200.00", "20"
    );
    assert_eq!(shown, expected);
    assert_eq!(
        shown,
        "No Name   Description     Price   Quantity \n-- ------ --------------- ------- -------- \n1  Laptop A gaming laptop 1200.00 20       \n"
    );
}

#[test]
fn product_table_of_empty_catalog_is_a_notice() {
    assert_eq!(
        inventory::list_products(&Inventory::new()),
        "No products available in the inventory."
    );
}

#[test]
fn transaction_table_shows_the_ledger_in_order() {
    let (_, ledger) = busy_ledger();
    let shown = transaction::list_transactions(&ledger);
    let expected = format!(
        "{:<2} {:<8} {:<7} {:<8} {:<14} {:<12} \n{:-<2} {:-<8} {:-<7} {:-<8} {:-<14} {:-<12} \n{:<2} {:<8} {:<7} {:<8} {:<14} {:<12} \n{:<2} {:<8} {:<7} {:<8} {:<14} {:<12} \n",
        "No", "Type", "Product", "Quantity", "Price per Unit", "Total Amount",
        "-", "-", "-", "-", "-", "-",
        "1", "Purchase", "Widget", "20", "$45.00", "$900.00",
        "2", "Sale", "Widget", "10", "$55.00", "$550.00"
    );
    assert_eq!(shown, expected);
}

#[test]
fn transaction_table_of_empty_ledger_has_header_and_rule() {
    let shown = transaction::list_transactions(&TransactionManager::new());
    assert_eq!(
        shown,
        "No Type Product Quantity Price per Unit Total Amount \n-- ---- ------- -------- -------------- ------------ \n"
    );
}

#[test]
fn catalog_operations_say_how_they_went() {
    let mut inventory = Inventory::new();
    let pen = Product {
        name: "Pen".to_string(),
        description: "Blue".to_string(),
        price: 150,
        quantity: 3,
    };
    assert_eq!(
        inventory::add_product(&mut inventory, pen.clone()),
        "Product added successfully!"
    );
    let bad = Product { price: -1, ..pen };
    assert_eq!(
        inventory::add_product(&mut inventory, bad),
        "Error adding product: Price cannot be negative!"
    );
    assert_eq!(
        inventory::edit_product(&mut inventory, "Pen", None, Some(175), None),
        "Product edited successfully!"
    );
    assert_eq!(inventory.get("Pen").unwrap().price, 175);
    assert_eq!(
        inventory::edit_product(&mut inventory, "Pen", None, None, None),
        "Error editing product: At least one field must be provided for update."
    );
    assert_eq!(
        inventory::edit_product(&mut inventory, "Ink", None, Some(1), None),
        "Error editing product: Product 'Ink' not found."
    );
    assert_eq!(
        inventory::edit_product(&mut inventory, "Pen", None, Some(-1), None),
        "Error editing product: Price cannot be negative!"
    );
    assert_eq!(
        inventory::delete_product(&mut inventory, "Ink"),
        "Error deleting product: Product 'Ink' not found."
    );
    assert_eq!(
        inventory::delete_product(&mut inventory, "Pen"),
        "Product deleted successfully!"
    );
    assert!(inventory.is_empty());
}

#[test]
fn ledger_operations_say_how_they_went() {
    let mut inventory = Inventory::new();
    let mut ledger = TransactionManager::new();
    assert_eq!(
        transaction::handle_sale_transaction(&mut ledger, &mut inventory, "Pen", 1, 100),
        "Error recording sale: Product not found."
    );
    assert_eq!(
        transaction::handle_purchase_transaction(&mut ledger, &mut inventory, "Pen", 2, 80),
        "Purchase recorded successfully."
    );
    assert_eq!(
        transaction::handle_sale_transaction(&mut ledger, &mut inventory, "Pen", 3, 100),
        "Error recording sale: Not enough stock to complete the sale."
    );
    assert_eq!(
        transaction::handle_sale_transaction(&mut ledger, &mut inventory, "Pen", 2, 100),
        "Sale recorded successfully."
    );
    assert_eq!(ledger.transactions.len(), 2);
    assert_eq!(inventory.get("Pen").unwrap().quantity, 0);
}
