use rusty_store::auth::{authenticate, decide, hash_password, AuthError};
use rusty_store::{display_menu, execute, Command, Store};

#[test]
fn a_new_store_is_empty() {
    let store = Store::new();
    assert!(store.inventory.is_empty());
    assert!(store.transaction_manager.transactions.is_empty());
}

#[test]
fn choices_one_to_nine_are_commands() {
    assert_eq!(execute("1"), Some(Command::AddProduct));
    assert_eq!(execute("2"), Some(Command::EditProduct));
    assert_eq!(execute("3"), Some(Command::DeleteProduct));
    assert_eq!(execute("4"), Some(Command::ListProducts));
    assert_eq!(execute("5"), Some(Command::RecordSale));
    assert_eq!(execute("6"), Some(Command::RecordPurchase));
    assert_eq!(execute("7"), Some(Command::ListTransactions));
    assert_eq!(execute("8"), Some(Command::GenerateReports));
    assert_eq!(execute("9"), Some(Command::Exit));
}

#[test]
fn other_choices_are_no_commands() {
    assert_eq!(execute(""), None);
    assert_eq!(execute("0"), None);
    assert_eq!(execute("10"), None);
    assert_eq!(execute(" 1"), None);
    assert_eq!(execute("exit"), None);
}

#[test]
fn menu_lists_the_nine_commands() {
    assert_eq!(
        display_menu(),
        "\n--- Rusty Store Management ---\n1. Add Product\n2. Edit Product\n3. Delete Product\n4. List Products\n5. Record Sale\n6. Record Purchase\n7. List Transactions\n8. Generate Reports\n9. Exit\n"
    );
}

#[test]
fn the_right_password_logs_in() {
    let stored = "$2a$04$UuTkLRZZ6QofpDOlMz32MuuxEHA43WOemOYHPz6.SjsVsyO1tDU96";
    assert_eq!(authenticate(Some(stored), "password"), Ok(()));
}

#[test]
fn a_wrong_password_is_refused() {
    let stored = "$2b$04$EGdrhbKUv8Oc9vGiXX0HQOxSg445d458Muh7DAHskb6QbtCvdxcie";
    assert_eq!(
        authenticate(Some(stored), "wrong"),
        Err(AuthError::InvalidCredentials)
    );
    assert_eq!(
        authenticate(Some(stored), "correctbatteryhorsestapler"),
        Ok(())
    );
}

#[test]
fn an_unknown_user_is_refused() {
    assert_eq!(
        authenticate(None, "password"),
        Err(AuthError::InvalidCredentials)
    );
}

#[test]
fn a_stored_text_that_is_no_hash_cannot_be_verified() {
    assert_eq!(
        authenticate(Some("password"), "password"),
        Err(AuthError::VerifyFailed)
    );
    assert_eq!(
        authenticate(Some("$2a$04$tjARW6ZON3PhrAIRW2LG/u9a."), "x"),
        Err(AuthError::VerifyFailed)
    );
}

#[test]
fn decide_follows_the_outcome_of_the_check() {
    assert_eq!(decide(Some(true)), Ok(()));
    assert_eq!(decide(Some(false)), Err(AuthError::InvalidCredentials));
    assert_eq!(decide(None), Err(AuthError::VerifyFailed));
}

#[test]
fn a_hashed_password_is_sixty_characters_and_not_the_password() {
    let hash = hash_password("hunter2").unwrap();
    assert_eq!(hash.chars().count(), 60);
    assert_ne!(hash, "hunter2");
    assert!(hash.starts_with("$2b$12$"));
}

#[test]
fn a_hashed_password_verifies() {
    let hash = hash_password("hunter2").unwrap();
    assert_eq!(authenticate(Some(&hash), "hunter2"), Ok(()));
}

#[test]
fn every_auth_error_has_its_message() {
    assert_eq!(AuthError::HashFailed.message(), "Failed to hash password");
    assert_eq!(AuthError::InsertFailed.message(), "Failed to insert user");
    assert_eq!(AuthError::QueryFailed.message(), "Failed to query database");
    assert_eq!(
        AuthError::VerifyFailed.message(),
        "Failed to verify password"
    );
    assert_eq!(
        AuthError::InvalidCredentials.message(),
        "Invalid username or password"
    );
}
