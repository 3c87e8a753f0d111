use rusty_store::inventory::{Inventory, InventoryError, InventoryManagement, Product};

fn product(name: &str, description: &str, price: i64, quantity: u32) -> Product {
    Product {
        name: name.to_string(),
        description: description.to_string(),
        price,
        quantity,
    }
}

#[test]
fn adds_valid_product() {
    let mut inventory = Inventory::new();

    let result = inventory.add_product(Product {
        name: "Laptop".to_string(),
        description: "A gaming laptop".to_string(),
        price: 1200,
        quantity: 20,
    });

    assert!(result.is_ok());
    assert!(inventory.contains("Laptop"));
}

#[test]
fn prevents_adding_product_with_negative_price() {
    let mut inventory = Inventory::new();

    let result = inventory.add_product(Product {
        name: "Smartphone".to_string(),
        description: "A high-end smartphone".to_string(),
        price: -999,
        quantity: 20,
    });

    assert!(result.is_err());
    assert_eq!(
        result.unwrap_err().message(),
        "Price cannot be negative!".to_string()
    );
    assert!(!inventory.contains("Smartphone"));
}

#[test]
fn updates_product_with_single_field() {
    let mut inventory = Inventory::new();

    let _ = inventory.add_product(Product {
        name: "Tablet".to_string(),
        description: "A basic tablet".to_string(),
        price: 300,
        quantity: 50,
    });

    let result = inventory.edit_product("Tablet", None, Some(280), None);

    assert!(result.is_ok());
    let product = inventory.get("Tablet").unwrap();
    assert_eq!(product.price, 280);
}

#[test]
fn updates_product_with_multiple_fields() {
    let mut inventory: Inventory = Inventory::new();

    let _ = inventory.add_product(Product {
        name: "Test Product".to_string(),
        description: "A product for testing".to_string(),
        price: 100,
        quantity: 20,
    });

    let result = inventory.edit_product(
        "Test Product",
        Some("Updated description".to_string()),
        Some(150),
        Some(25),
    );

    let product = inventory.get("Test Product").unwrap();

    assert!(result.is_ok());
    assert_eq!(product.description, "Updated description");
    assert_eq!(product.price, 150);
    assert_eq!(product.quantity, 25);
}

#[test]
fn update_product_requires_at_least_one_field() {
    let mut inventory = Inventory::new();

    let _ = inventory.add_product(Product {
        name: "Laptop".to_string(),
        description: "A gaming laptop".to_string(),
        price: 1200,
        quantity: 10,
    });

    let result = inventory.edit_product("Laptop", None, None, None);

    assert!(result.is_err());
    assert_eq!(
        result.unwrap_err().message(),
        "At least one field must be provided for update.".to_string()
    );
}

#[test]
fn handles_missing_product() {
    let mut inventory = Inventory::new();

    let result = inventory.edit_product("Nonexistent", None, Some(500), None);

    assert!(result.is_err());
    assert_eq!(
        result.unwrap_err().message(),
        "Product 'Nonexistent' not found.".to_string()
    );
}

#[test]
fn deletes_product() {
    let mut inventory = Inventory::new();
    let _ = inventory.add_product(Product {
        name: "Laptop".to_string(),
        description: "A gaming laptop".to_string(),
        price: 1200,
        quantity: 10,
    });

    let product = inventory.get("Laptop").unwrap();
    assert_eq!(product.name, "Laptop");
    assert!(inventory.contains("Laptop"));

    let result = inventory.delete_product("Laptop");
    assert!(result.is_ok());
    assert!(!inventory.contains("Laptop"));
}

#[test]
fn deletes_non_existent_product() {
    let mut inventory = Inventory::new();

    let result = inventory.delete_product("Laptop");
    assert!(result.is_err());
    assert_eq!(
        result.unwrap_err().message(),
        "Product 'Laptop' not found.".to_string()
    );
}

#[test]
fn negative_price_leaves_catalog_unchanged() {
    let mut inventory = Inventory::new();
    inventory
        .add_product(product("Pen", "Blue", 150, 3))
        .unwrap();

    let result = inventory.add_product(product("Pen", "Red", -1, 9));

    assert_eq!(result, Err(InventoryError::InvalidPrice));
    let kept = inventory.get("Pen").unwrap();
    assert_eq!(kept.description, "Blue");
    assert_eq!(kept.price, 150);
    assert_eq!(kept.quantity, 3);
    assert_eq!(inventory.list().len(), 1);
}

#[test]
fn zero_price_is_accepted() {
    let mut inventory = Inventory::new();
    assert_eq!(inventory.add_product(product("Free", "", 0, 1)), Ok(()));
    assert_eq!(inventory.get("Free").unwrap().price, 0);
}

#[test]
fn adding_an_existing_name_replaces_the_entry() {
    let mut inventory = Inventory::new();
    inventory
        .add_product(product("Pen", "Blue", 150, 3))
        .unwrap();
    inventory
        .add_product(product("Ink", "Black", 700, 1))
        .unwrap();
    inventory
        .add_product(product("Pen", "Red", 175, 8))
        .unwrap();

    assert_eq!(inventory.list().len(), 2);
    let pen = inventory.get("Pen").unwrap();
    assert_eq!(pen.description, "Red");
    assert_eq!(pen.price, 175);
    assert_eq!(pen.quantity, 8);
    assert_eq!(inventory.get("Ink").unwrap().price, 700);
}

#[test]
fn edit_without_fields_fails_for_unknown_name_too() {
    let mut inventory = Inventory::new();
    let result = inventory.edit_product("Nobody", None, None, None);
    assert_eq!(result, Err(InventoryError::NoFieldsProvided));
}

#[test]
fn edit_with_negative_price_applies_nothing() {
    let mut inventory = Inventory::new();
    inventory
        .add_product(product("Pen", "Blue", 150, 3))
        .unwrap();

    let result = inventory.edit_product("Pen", Some("Red".to_string()), Some(-5), Some(40));

    assert_eq!(result, Err(InventoryError::InvalidPrice));
    let pen = inventory.get("Pen").unwrap();
    assert_eq!(pen.description, "Blue");
    assert_eq!(pen.price, 150);
    assert_eq!(pen.quantity, 3);
}

#[test]
fn edit_of_unknown_name_with_negative_price_reports_the_name() {
    let mut inventory = Inventory::new();
    let result = inventory.edit_product("Ghost", None, Some(-5), None);
    assert_eq!(
        result,
        Err(InventoryError::ProductNotFound("Ghost".to_string()))
    );
}

#[test]
fn edit_keeps_fields_that_were_not_supplied() {
    let mut inventory = Inventory::new();
    inventory
        .add_product(product("Pen", "Blue", 150, 3))
        .unwrap();
    inventory
        .add_product(product("Ink", "Black", 700, 1))
        .unwrap();

    inventory
        .edit_product("Pen", None, None, Some(12))
        .unwrap();

    let pen = inventory.get("Pen").unwrap();
    assert_eq!(pen.name, "Pen");
    assert_eq!(pen.description, "Blue");
    assert_eq!(pen.price, 150);
    assert_eq!(pen.quantity, 12);
    let ink = inventory.get("Ink").unwrap();
    assert_eq!(ink.description, "Black");
    assert_eq!(ink.quantity, 1);
}

#[test]
fn delete_removes_only_the_named_entry() {
    let mut inventory = Inventory::new();
    inventory.add_product(product("A", "a", 1, 1)).unwrap();
    inventory.add_product(product("B", "b", 2, 2)).unwrap();
    inventory.add_product(product("C", "c", 3, 3)).unwrap();

    assert_eq!(inventory.delete_product("B"), Ok(()));

    assert!(inventory.contains("A"));
    assert!(!inventory.contains("B"));
    assert!(inventory.contains("C"));
    assert_eq!(inventory.get("C").unwrap().quantity, 3);
    assert_eq!(inventory.list().len(), 2);
    assert_eq!(
        inventory.delete_product("B"),
        Err(InventoryError::ProductNotFound("B".to_string()))
    );
}

#[test]
fn get_of_unknown_name_is_none() {
    let inventory = Inventory::new();
    assert!(inventory.get("Laptop").is_none());
    assert!(inventory.is_empty());
}

#[test]
fn insert_checks_no_price() {
    let mut inventory = Inventory::new();
    inventory.insert(product("Odd", "", -3, 2));
    assert_eq!(inventory.get("Odd").unwrap().price, -3);
}

#[test]
fn list_is_the_same_when_asked_twice() {
    let mut inventory = Inventory::new();
    inventory.add_product(product("A", "a", 1, 1)).unwrap();
    inventory.add_product(product("B", "b", 2, 2)).unwrap();

    let first: Vec<(String, String, i64, u32)> = inventory
        .list()
        .iter()
        .map(|p| (p.name.clone(), p.description.clone(), p.price, p.quantity))
        .collect();
    let second: Vec<(String, String, i64, u32)> = inventory
        .list()
        .iter()
        .map(|p| (p.name.clone(), p.description.clone(), p.price, p.quantity))
        .collect();

    assert_eq!(first, second);
    assert_eq!(first.len(), 2);
    let mut names: Vec<String> = first.iter().map(|p| p.0.clone()).collect();
    names.sort();
    assert_eq!(names, vec!["A".to_string(), "B".to_string()]);
}

#[test]
fn every_inventory_error_has_its_message() {
    assert_eq!(
        InventoryError::InvalidPrice.message(),
        "Price cannot be negative!"
    );
    assert_eq!(
        InventoryError::ProductNotFound("X Y".to_string()).message(),
        "Product 'X Y' not found."
    );
    assert_eq!(
        InventoryError::NoFieldsProvided.message(),
        "At least one field must be provided for update."
    );
}
