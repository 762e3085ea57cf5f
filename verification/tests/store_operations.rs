use inventory_store::product::Product;
use inventory_store::store::{Store, StoreError};

/// An amount in minor units from whole units and hundredths.
fn money(units: u64, hundredths: u64) -> u64 {
    units * 100 + hundredths
}

fn setup_store() -> Store {
    let mut store = Store::new();
    store.authenticated = true;
    store
}

#[test]
fn test_add_product() {
    let mut store = setup_store();
    let product = Product::new(
        "TestProduct".to_string(),
        "Test Description".to_string(),
        money(10, 0),
        5,
    );
    let added = store.add_product(
        product.name.clone(),
        product.description.clone(),
        product.price,
        product.quantity,
    );
    assert_eq!(added, Ok(()));
    assert!(store.inventory.contains_key("TestProduct"));
    assert_eq!(store.inventory.get("TestProduct").unwrap().quantity, 5);
}

#[test]
fn test_edit_product() {
    let mut store = setup_store();
    store
        .add_product(
            "EditProduct".to_string(),
            "Initial Description".to_string(),
            money(20, 0),
            10,
        )
        .unwrap();
    let edited = store.edit_product("EditProduct", "New Description".to_string(), money(25, 0), 15);
    assert_eq!(edited, Ok(()));
    let updated = store.inventory.get("EditProduct").unwrap();
    assert_eq!(updated.description, "New Description");
    assert_eq!(updated.price, money(25, 0));
    assert_eq!(updated.quantity, 15);
}

#[test]
fn test_delete_product() {
    let mut store = setup_store();
    store
        .add_product("DeleteProduct".to_string(), "To be deleted".to_string(), money(5, 0), 3)
        .unwrap();
    let deleted = store.delete_product("DeleteProduct");
    assert_eq!(deleted, Ok(()));
    assert!(!store.inventory.contains_key("DeleteProduct"));
}

#[test]
fn test_record_purchase() {
    let mut store = setup_store();
    let recorded = store.record_purchase("NewItem".to_string(), 10, money(2, 50));
    assert_eq!(recorded, Ok(()));
    assert!(store.inventory.contains_key("NewItem"));
    assert_eq!(store.inventory.get("NewItem").unwrap().quantity, 10);
    assert_eq!(store.purchases.len(), 1);
}

#[test]
fn test_record_sale_success() {
    let mut store = setup_store();
    store.add_product("SaleItem".to_string(), "Sell me".to_string(), money(8, 0), 20).unwrap();
    let sold = store.record_sale("SaleItem".to_string(), 5, money(10, 0));
    assert!(sold.is_ok());
    assert_eq!(store.inventory.get("SaleItem").unwrap().quantity, 15);
    assert_eq!(store.sales.len(), 1);
}

#[test]
fn test_record_sale_insufficient_stock() {
    let mut store = setup_store();
    store
        .add_product("LimitedStock".to_string(), "Rare item".to_string(), money(15, 0), 2)
        .unwrap();
    let sold = store.record_sale("LimitedStock".to_string(), 5, money(20, 0));
    assert_eq!(sold, Err(StoreError::InsufficientStock));
    assert_eq!(store.inventory.get("LimitedStock").unwrap().quantity, 2);
    assert!(store.sales.is_empty());
}

#[test]
fn new_store_is_empty_and_logged_out() {
    let store = Store::new();
    assert!(store.inventory.is_empty());
    assert_eq!(store.inventory.len(), 0);
    assert!(store.sales.is_empty());
    assert!(store.purchases.is_empty());
    assert!(!store.authenticated);
    assert!(!store.require_authentication());
    assert_eq!(store.password, "admin");
}

#[test]
fn authenticate_with_the_password_logs_in() {
    let mut store = Store::new();
    assert!(store.authenticate("admin"));
    assert!(store.authenticated);
    assert!(store.require_authentication());
}

#[test]
fn authenticate_with_a_wrong_password_changes_nothing() {
    let mut store = Store::new();
    assert!(!store.authenticate("Admin"));
    assert!(!store.authenticated);
    assert!(!store.authenticate(""));
    assert!(!store.authenticated);
    assert!(store.authenticate("admin"));
    assert!(!store.authenticate("wrong"));
    assert!(store.authenticated);
}

#[test]
fn logout_ends_the_login() {
    let mut store = Store::new();
    assert!(store.authenticate("admin"));
    store.add_product("Pen".to_string(), "Blue".to_string(), money(1, 20), 7).unwrap();
    store.logout();
    assert!(!store.authenticated);
    assert_eq!(
        store.add_product("Ink".to_string(), "Black".to_string(), money(3, 0), 1),
        Err(StoreError::AccessDenied)
    );
    assert_eq!(store.inventory.len(), 1);
    assert_eq!(store.inventory.get("Pen").unwrap().quantity, 7);
}

#[test]
fn logged_out_operations_are_denied_and_change_nothing() {
    let mut store = setup_store();
    store.add_product("Pen".to_string(), "Blue".to_string(), money(1, 20), 7).unwrap();
    store.record_purchase("Pen".to_string(), 3, money(1, 0)).unwrap();
    store.logout();

    assert_eq!(
        store.add_product("Ink".to_string(), "Black".to_string(), money(3, 0), 1),
        Err(StoreError::AccessDenied)
    );
    assert_eq!(
        store.edit_product("Pen", "Red".to_string(), money(2, 0), 1),
        Err(StoreError::AccessDenied)
    );
    assert_eq!(store.delete_product("Pen"), Err(StoreError::AccessDenied));
    assert_eq!(
        store.record_sale("Pen".to_string(), 1, money(2, 0)),
        Err(StoreError::AccessDenied)
    );
    assert_eq!(
        store.record_purchase("Pen".to_string(), 1, money(2, 0)),
        Err(StoreError::AccessDenied)
    );

    assert_eq!(store.inventory.len(), 1);
    let pen = store.inventory.get("Pen").unwrap();
    assert_eq!(pen.description, "Blue");
    assert_eq!(pen.price, money(1, 20));
    assert_eq!(pen.quantity, 10);
    assert_eq!(pen.total_cost, money(3, 0));
    assert_eq!(pen.total_purchased_qty, 3);
    assert!(store.sales.is_empty());
    assert_eq!(store.purchases.len(), 1);
}

#[test]
fn added_product_has_no_cost_history() {
    let mut store = setup_store();
    store.add_product("Pen".to_string(), "Blue".to_string(), money(1, 20), 7).unwrap();
    let pen = store.inventory.get("Pen").unwrap();
    assert_eq!(pen.name, "Pen");
    assert_eq!(pen.description, "Blue");
    assert_eq!(pen.price, 120);
    assert_eq!(pen.quantity, 7);
    assert_eq!(pen.total_cost, 0);
    assert_eq!(pen.total_purchased_qty, 0);
    assert_eq!(pen.average_cost(), 0);
}

#[test]
fn add_product_on_a_duplicate_name_leaves_the_entry() {
    let mut store = setup_store();
    store.record_purchase("Pen".to_string(), 4, money(1, 0)).unwrap();
    let again = store.add_product("Pen".to_string(), "Other".to_string(), money(9, 99), 1);
    assert_eq!(again, Err(StoreError::DuplicateProduct));
    assert_eq!(store.inventory.len(), 1);
    let pen = store.inventory.get("Pen").unwrap();
    assert_eq!(pen.name, "Pen");
    assert_eq!(pen.description, "No description");
    assert_eq!(pen.price, 110);
    assert_eq!(pen.quantity, 4);
    assert_eq!(pen.total_cost, 400);
    assert_eq!(pen.total_purchased_qty, 4);
}

#[test]
fn edit_product_keeps_the_cost_history() {
    let mut store = setup_store();
    store.record_purchase("Pen".to_string(), 4, money(1, 0)).unwrap();
    store.edit_product("Pen", "Blue".to_string(), money(3, 0), 9).unwrap();
    let pen = store.inventory.get("Pen").unwrap();
    assert_eq!(pen.name, "Pen");
    assert_eq!(pen.description, "Blue");
    assert_eq!(pen.price, 300);
    assert_eq!(pen.quantity, 9);
    assert_eq!(pen.total_cost, 400);
    assert_eq!(pen.total_purchased_qty, 4);
    assert_eq!(pen.average_cost(), 100);
}

#[test]
fn edit_product_on_an_unknown_name_is_not_found() {
    let mut store = setup_store();
    store.add_product("Pen".to_string(), "Blue".to_string(), money(1, 20), 7).unwrap();
    let edited = store.edit_product("Ink", "Black".to_string(), money(3, 0), 1);
    assert_eq!(edited, Err(StoreError::NotFound));
    assert_eq!(store.inventory.len(), 1);
    assert!(!store.inventory.contains_key("Ink"));
    assert_eq!(store.inventory.get("Pen").unwrap().description, "Blue");
}

#[test]
fn delete_product_on_an_unknown_name_leaves_the_inventory() {
    let mut store = setup_store();
    store.add_product("Pen".to_string(), "Blue".to_string(), money(1, 20), 7).unwrap();
    store.add_product("Ink".to_string(), "Black".to_string(), money(3, 0), 1).unwrap();
    let deleted = store.delete_product("Ghost");
    assert_eq!(deleted, Err(StoreError::NotFound));
    assert_eq!(store.inventory.len(), 2);
    assert_eq!(store.inventory.get("Pen").unwrap().quantity, 7);
    assert_eq!(store.inventory.get("Ink").unwrap().quantity, 1);
}

#[test]
fn delete_product_discards_the_cost_history() {
    let mut store = setup_store();
    store.record_purchase("Pen".to_string(), 4, money(1, 0)).unwrap();
    store.add_product("Ink".to_string(), "Black".to_string(), money(3, 0), 1).unwrap();
    store.delete_product("Pen").unwrap();
    assert_eq!(store.inventory.len(), 1);
    assert!(store.inventory.get("Pen").is_none());
    assert_eq!(store.inventory.get("Ink").unwrap().price, 300);
    store.add_product("Pen".to_string(), "Blue".to_string(), money(1, 20), 7).unwrap();
    let pen = store.inventory.get("Pen").unwrap();
    assert_eq!(pen.total_cost, 0);
    assert_eq!(pen.total_purchased_qty, 0);
    assert_eq!(store.purchases.len(), 1);
}

#[test]
fn purchase_of_an_unknown_product_creates_it() {
    let mut store = setup_store();
    store.record_purchase("NewItem".to_string(), 10, money(2, 50)).unwrap();
    assert_eq!(store.inventory.len(), 1);
    let item = store.inventory.get("NewItem").unwrap();
    assert_eq!(item.name, "NewItem");
    assert_eq!(item.description, "No description");
    assert_eq!(item.price, 275);
    assert_eq!(item.quantity, 10);
    assert_eq!(item.total_cost, 2500);
    assert_eq!(item.total_purchased_qty, 10);
    assert_eq!(store.purchases.len(), 1);
    assert_eq!(store.purchases[0].product_name, "NewItem");
    assert_eq!(store.purchases[0].quantity, 10);
    assert_eq!(store.purchases[0].purchase_price, 250);
}

#[test]
fn purchase_of_a_held_product_adds_to_its_totals() {
    let mut store = setup_store();
    store.add_product("Pen".to_string(), "Blue".to_string(), money(5, 0), 7).unwrap();
    store.record_purchase("Pen".to_string(), 3, money(2, 0)).unwrap();
    {
        let pen = store.inventory.get("Pen").unwrap();
        assert_eq!(pen.quantity, 10);
        assert_eq!(pen.total_cost, 600);
        assert_eq!(pen.total_purchased_qty, 3);
        assert_eq!(pen.price, 500);
        assert_eq!(pen.description, "Blue");
    }
    store.record_purchase("Pen".to_string(), 2, money(4, 0)).unwrap();
    let pen = store.inventory.get("Pen").unwrap();
    assert_eq!(pen.quantity, 12);
    assert_eq!(pen.total_cost, 1400);
    assert_eq!(pen.total_purchased_qty, 5);
    assert_eq!(pen.price, 500);
    assert_eq!(pen.average_cost(), 280);
    assert_eq!(store.purchases.len(), 2);
    assert_eq!(store.inventory.len(), 1);
}

#[test]
fn purchase_above_the_selling_price_marks_the_price_up() {
    let mut store = setup_store();
    store.add_product("Pen".to_string(), "Blue".to_string(), money(5, 0), 7).unwrap();
    store.record_purchase("Pen".to_string(), 1, money(5, 0)).unwrap();
    assert_eq!(store.inventory.get("Pen").unwrap().price, 500);
    store.record_purchase("Pen".to_string(), 1, money(5, 1)).unwrap();
    assert_eq!(store.inventory.get("Pen").unwrap().price, 551);
    store.record_purchase("Pen".to_string(), 1, money(5, 51)).unwrap();
    assert_eq!(store.inventory.get("Pen").unwrap().price, 551);
    store.record_purchase("Pen".to_string(), 1, money(6, 0)).unwrap();
    assert_eq!(store.inventory.get("Pen").unwrap().price, 660);
}

#[test]
fn purchase_that_does_not_fit_is_refused_and_changes_nothing() {
    let mut store = setup_store();
    store.record_purchase("Pen".to_string(), u32::MAX, 1).unwrap();
    let again = store.record_purchase("Pen".to_string(), 1, 1);
    assert_eq!(again, Err(StoreError::Overflow));
    let pen = store.inventory.get("Pen").unwrap();
    assert_eq!(pen.quantity, u32::MAX);
    assert_eq!(pen.total_purchased_qty, u32::MAX);
    assert_eq!(pen.total_cost, u32::MAX as u64);
    assert_eq!(store.purchases.len(), 1);

    let dear = store.record_purchase("Gem".to_string(), 1, u64::MAX);
    assert_eq!(dear, Err(StoreError::Overflow));
    assert!(!store.inventory.contains_key("Gem"));
    let many = store.record_purchase("Gem".to_string(), 3, u64::MAX / 2);
    assert_eq!(many, Err(StoreError::Overflow));
    assert!(!store.inventory.contains_key("Gem"));
    assert_eq!(store.purchases.len(), 1);
    assert_eq!(store.inventory.len(), 1);
}

#[test]
fn purchase_under_the_selling_price_needs_no_markup_to_fit() {
    let mut store = setup_store();
    store.add_product("Gem".to_string(), "Rare".to_string(), u64::MAX, 0).unwrap();
    let bought = store.record_purchase("Gem".to_string(), 1, u64::MAX);
    assert_eq!(bought, Ok(()));
    let gem = store.inventory.get("Gem").unwrap();
    assert_eq!(gem.price, u64::MAX);
    assert_eq!(gem.total_cost, u64::MAX);
    assert_eq!(gem.quantity, 1);
}

#[test]
fn purchase_of_no_units_is_recorded() {
    let mut store = setup_store();
    store.add_product("Pen".to_string(), "Blue".to_string(), money(5, 0), 7).unwrap();
    store.record_purchase("Pen".to_string(), 0, money(2, 0)).unwrap();
    let pen = store.inventory.get("Pen").unwrap();
    assert_eq!(pen.quantity, 7);
    assert_eq!(pen.total_cost, 0);
    assert_eq!(pen.total_purchased_qty, 0);
    assert_eq!(pen.average_cost(), 0);
    assert_eq!(store.purchases.len(), 1);
}

#[test]
fn sale_within_stock_records_the_profit() {
    let mut store = setup_store();
    store.record_purchase("Pen".to_string(), 10, money(2, 0)).unwrap();
    store.record_purchase("Pen".to_string(), 5, money(3, 50)).unwrap();
    // 37.50 spent on 15 units: 2.50 each.
    let sold = store.record_sale("Pen".to_string(), 15, money(4, 0));
    assert_eq!(sold, Ok(2250));
    let pen = store.inventory.get("Pen").unwrap();
    assert_eq!(pen.quantity, 0);
    assert_eq!(pen.total_cost, 3750);
    assert_eq!(pen.total_purchased_qty, 15);
    assert_eq!(pen.price, 385);
    assert_eq!(store.sales.len(), 1);
    assert_eq!(store.sales[0].product_name, "Pen");
    assert_eq!(store.sales[0].quantity, 15);
    assert_eq!(store.sales[0].sale_price, 400);
    assert_eq!(store.sales[0].profit, 2250);
}

#[test]
fn sale_under_cost_has_a_negative_profit() {
    let mut store = setup_store();
    store.record_purchase("Pen".to_string(), 10, money(2, 0)).unwrap();
    let sold = store.record_sale("Pen".to_string(), 3, money(1, 50));
    assert_eq!(sold, Ok(-150));
    assert_eq!(store.sales[0].profit, -150);
    assert_eq!(store.inventory.get("Pen").unwrap().quantity, 7);
}

#[test]
fn sale_of_a_product_never_purchased_counts_no_cost() {
    let mut store = setup_store();
    store.add_product("SaleItem".to_string(), "Sell me".to_string(), money(8, 0), 20).unwrap();
    let sold = store.record_sale("SaleItem".to_string(), 5, money(10, 0));
    assert_eq!(sold, Ok(5000));
    assert_eq!(store.sales[0].profit, 5000);
}

#[test]
fn sale_beyond_stock_changes_nothing() {
    let mut store = setup_store();
    store.record_purchase("Pen".to_string(), 10, money(2, 0)).unwrap();
    store.record_sale("Pen".to_string(), 4, money(3, 0)).unwrap();
    let sold = store.record_sale("Pen".to_string(), 7, money(3, 0));
    assert_eq!(sold, Err(StoreError::InsufficientStock));
    let pen = store.inventory.get("Pen").unwrap();
    assert_eq!(pen.quantity, 6);
    assert_eq!(pen.total_cost, 2000);
    assert_eq!(pen.total_purchased_qty, 10);
    assert_eq!(pen.price, 220);
    assert_eq!(store.sales.len(), 1);
    assert_eq!(store.purchases.len(), 1);
    let all = store.record_sale("Pen".to_string(), 6, money(3, 0));
    assert_eq!(all, Ok(600));
    assert_eq!(store.inventory.get("Pen").unwrap().quantity, 0);
}

#[test]
fn widget_is_purchased_and_then_sold() {
    let mut store = setup_store();
    store.record_purchase("Widget".to_string(), 10, money(2, 0)).unwrap();
    {
        let widget = store.inventory.get("Widget").unwrap();
        assert_eq!(widget.quantity, 10);
        assert_eq!(widget.total_cost, money(20, 0));
        assert_eq!(widget.total_purchased_qty, 10);
        assert_eq!(widget.price, money(2, 20));
    }
    let sold = store.record_sale("Widget".to_string(), 4, money(5, 0));
    assert_eq!(sold, Ok(1200));
    assert_eq!(store.inventory.get("Widget").unwrap().quantity, 6);
    assert_eq!(store.sales.len(), 1);
    assert_eq!(store.sales[0].profit, money(12, 0) as i128);
}

#[test]
fn sale_of_ghost_is_not_found() {
    let mut store = setup_store();
    store.add_product("Pen".to_string(), "Blue".to_string(), money(1, 20), 7).unwrap();
    let sold = store.record_sale("Ghost".to_string(), 1, money(1, 0));
    assert_eq!(sold, Err(StoreError::NotFound));
    assert_eq!(store.inventory.len(), 1);
    assert!(!store.inventory.contains_key("Ghost"));
    assert_eq!(store.inventory.get("Pen").unwrap().quantity, 7);
    assert!(store.sales.is_empty());
    assert!(store.purchases.is_empty());
}

#[test]
fn names_are_told_apart_exactly() {
    let mut store = setup_store();
    store.add_product("Pen".to_string(), "Blue".to_string(), money(1, 20), 7).unwrap();
    store.add_product("pen".to_string(), "Red".to_string(), money(1, 30), 8).unwrap();
    store.add_product("Pen ".to_string(), "Green".to_string(), money(1, 40), 9).unwrap();
    assert_eq!(store.inventory.len(), 3);
    assert_eq!(store.inventory.get("Pen").unwrap().quantity, 7);
    assert_eq!(store.inventory.get("pen").unwrap().quantity, 8);
    assert_eq!(store.inventory.get("Pen ").unwrap().quantity, 9);
    assert!(!store.inventory.contains_key("Pe"));
}

#[test]
fn error_messages_name_the_refusal() {
    assert_eq!(StoreError::AccessDenied.message(), "Access denied. Please authenticate first.");
    assert_eq!(StoreError::DuplicateProduct.message(), "Product already exists. Use edit instead.");
    assert_eq!(StoreError::NotFound.message(), "Product not found.");
    assert_eq!(StoreError::InsufficientStock.message(), "Not enough stock.");
    assert_eq!(StoreError::Overflow.message(), "Amount out of range.");
}
