//! What holds of the store's operations on every state, proved from the
//! transition functions that the operations' contracts are stated with.

use vstd::prelude::*;
use crate::money::{spec_line_total, spec_markup, spec_profit};
use crate::product::{ProductView, PurchaseView, SaleView};
use crate::store::{StoreError, StoreView};

verus! {

/// A product of which nothing was purchased has average cost zero.
pub proof fn law_average_cost_without_purchases(product: ProductView)
    requires
        product.total_purchased_qty == 0,
    ensures
        product.average_cost() == 0,
{
}

/// A product that was added or edited, and never purchased, has average
/// cost zero.
pub proof fn law_fresh_product_costs_nothing(
    name: Seq<char>,
    description: Seq<char>,
    price: nat,
    quantity: nat,
)
    ensures
        ProductView::fresh(name, description, price, quantity).average_cost() == 0,
{
}

/// While nobody is logged in, every changing operation answers
/// `AccessDenied` and leaves the store as it was.
pub proof fn law_logged_out_changes_nothing(
    store: StoreView,
    name: Seq<char>,
    description: Seq<char>,
    price: nat,
    quantity: nat,
)
    requires
        !store.authenticated,
    ensures
        store.add_product_outcome(name) == Err::<(), StoreError>(StoreError::AccessDenied),
        store.after_add_product(name, description, price, quantity) == store,
        store.edit_product_outcome(name) == Err::<(), StoreError>(StoreError::AccessDenied),
        store.after_edit_product(name, description, price, quantity) == store,
        store.delete_product_outcome(name) == Err::<(), StoreError>(StoreError::AccessDenied),
        store.after_delete_product(name) == store,
        store.record_sale_outcome(name, quantity, price) == Err::<int, StoreError>(
            StoreError::AccessDenied,
        ),
        store.after_record_sale(name, quantity, price) == store,
        store.record_purchase_outcome(name, quantity, price) == Err::<(), StoreError>(
            StoreError::AccessDenied,
        ),
        store.after_record_purchase(name, quantity, price) == store,
{
}

/// A purchase of an unknown product creates it with the purchase price
/// marked up as its selling price, the purchased quantity as its stock and
/// as its units purchased, and the purchase's value as its total cost. The
/// purchase is appended to the log.
pub proof fn law_purchase_creates(
    store: StoreView,
    name: Seq<char>,
    quantity: nat,
    purchase_price: nat,
)
    requires
        !store.holds(name),
        store.record_purchase_outcome(name, quantity, purchase_price).is_ok(),
    ensures
        ({
            let after = store.after_record_purchase(name, quantity, purchase_price);
            &&& after.holds(name)
            &&& after.inventory[name].name == name
            &&& after.inventory[name].price == spec_markup(purchase_price)
            &&& after.inventory[name].quantity == quantity
            &&& after.inventory[name].total_cost == spec_line_total(purchase_price, quantity)
            &&& after.inventory[name].total_purchased_qty == quantity
            &&& after.inventory.remove(name) == store.inventory
            &&& after.purchases == store.purchases.push(
                PurchaseView { product_name: name, quantity, purchase_price },
            )
            &&& after.sales == store.sales
        }),
{
    let after = store.after_record_purchase(name, quantity, purchase_price);
    assert(after.inventory.remove(name) =~= store.inventory);
}

/// A purchase of a product that is held adds the purchased quantity to its
/// stock and to its units purchased, and the purchase's value to its total
/// cost. Its selling price changes only where the purchase price is above
/// it, and then to the purchase price marked up. Name and description stay,
/// and so does every other product. The purchase is appended to the log.
pub proof fn law_purchase_restocks(
    store: StoreView,
    name: Seq<char>,
    quantity: nat,
    purchase_price: nat,
)
    requires
        store.holds(name),
        store.record_purchase_outcome(name, quantity, purchase_price).is_ok(),
    ensures
        ({
            let before = store.inventory[name];
            let after = store.after_record_purchase(name, quantity, purchase_price);
            &&& after.holds(name)
            &&& after.inventory[name].quantity == before.quantity + quantity
            &&& after.inventory[name].total_purchased_qty == before.total_purchased_qty + quantity
            &&& after.inventory[name].total_cost == before.total_cost + spec_line_total(
                purchase_price,
                quantity,
            )
            &&& purchase_price > before.price ==> after.inventory[name].price == spec_markup(
                purchase_price,
            )
            &&& purchase_price <= before.price ==> after.inventory[name].price == before.price
            &&& after.inventory[name].name == before.name
            &&& after.inventory[name].description == before.description
            &&& after.inventory.remove(name) == store.inventory.remove(name)
            &&& after.purchases == store.purchases.push(
                PurchaseView { product_name: name, quantity, purchase_price },
            )
            &&& after.sales == store.sales
        }),
{
    let after = store.after_record_purchase(name, quantity, purchase_price);
    assert(after.inventory.remove(name) =~= store.inventory.remove(name));
}

/// A purchase of at least one unit at a positive price, of a product that
/// is held, makes its total cost and its units purchased strictly larger.
pub proof fn law_purchase_strictly_increases(
    store: StoreView,
    name: Seq<char>,
    quantity: nat,
    purchase_price: nat,
)
    requires
        store.holds(name),
        store.record_purchase_outcome(name, quantity, purchase_price).is_ok(),
        quantity > 0,
        purchase_price > 0,
    ensures
        ({
            let before = store.inventory[name];
            let after = store.after_record_purchase(name, quantity, purchase_price);
            &&& after.inventory[name].total_cost > before.total_cost
            &&& after.inventory[name].total_purchased_qty > before.total_purchased_qty
            &&& after.inventory[name].quantity > before.quantity
        }),
{
    assert(spec_line_total(purchase_price, quantity) > 0) by (nonlinear_arith)
        requires
            quantity > 0,
            purchase_price > 0,
    ;
}

/// A sale of more units than are in stock answers `InsufficientStock` and
/// leaves the store as it was: stock, totals and the log of sales.
pub proof fn law_sale_beyond_stock(
    store: StoreView,
    name: Seq<char>,
    quantity: nat,
    sale_price: nat,
)
    requires
        store.authenticated,
        store.holds(name),
        quantity > store.inventory[name].quantity,
    ensures
        store.record_sale_outcome(name, quantity, sale_price) == Err::<int, StoreError>(
            StoreError::InsufficientStock,
        ),
        store.after_record_sale(name, quantity, sale_price) == store,
{
}

/// A sale of no more units than are in stock takes exactly that many out of
/// stock, leaves the rest of the entry and every other product, and appends
/// exactly one sale to the log, whose profit is the sale price less the
/// average cost before the sale, times the quantity. That profit is the
/// answer.
pub proof fn law_sale_within_stock(
    store: StoreView,
    name: Seq<char>,
    quantity: nat,
    sale_price: nat,
)
    requires
        store.authenticated,
        store.holds(name),
        quantity <= store.inventory[name].quantity,
    ensures
        ({
            let before = store.inventory[name];
            let after = store.after_record_sale(name, quantity, sale_price);
            let profit = spec_profit(sale_price, before.average_cost(), quantity);
            &&& store.record_sale_outcome(name, quantity, sale_price) == Ok::<int, StoreError>(
                profit,
            )
            &&& after.holds(name)
            &&& after.inventory[name].quantity == before.quantity - quantity
            &&& after.inventory[name] == (ProductView {
                quantity: after.inventory[name].quantity,
                ..before
            })
            &&& after.inventory.remove(name) == store.inventory.remove(name)
            &&& after.sales.len() == store.sales.len() + 1
            &&& after.sales == store.sales.push(
                SaleView { product_name: name, quantity, sale_price, profit },
            )
            &&& after.purchases == store.purchases
        }),
{
    let after = store.after_record_sale(name, quantity, sale_price);
    assert(after.inventory.remove(name) =~= store.inventory.remove(name));
}

/// A sale of an unknown product answers `NotFound` and leaves the store as
/// it was.
pub proof fn law_sale_of_unknown(
    store: StoreView,
    name: Seq<char>,
    quantity: nat,
    sale_price: nat,
)
    requires
        store.authenticated,
        !store.holds(name),
    ensures
        store.record_sale_outcome(name, quantity, sale_price) == Err::<int, StoreError>(
            StoreError::NotFound,
        ),
        store.after_record_sale(name, quantity, sale_price) == store,
{
}

/// Adding a product under a name that is held answers `DuplicateProduct`
/// and leaves the store, and so the entry of that name, as it was.
pub proof fn law_add_duplicate(
    store: StoreView,
    name: Seq<char>,
    description: Seq<char>,
    price: nat,
    quantity: nat,
)
    requires
        store.authenticated,
        store.holds(name),
    ensures
        store.add_product_outcome(name) == Err::<(), StoreError>(StoreError::DuplicateProduct),
        store.after_add_product(name, description, price, quantity) == store,
        store.after_add_product(name, description, price, quantity).inventory[name]
            == store.inventory[name],
{
}

/// Deleting a product of an unknown name answers `NotFound` and leaves the
/// inventory as it was, in size and in contents.
pub proof fn law_delete_unknown(store: StoreView, name: Seq<char>)
    requires
        store.authenticated,
        !store.holds(name),
    ensures
        store.delete_product_outcome(name) == Err::<(), StoreError>(StoreError::NotFound),
        store.after_delete_product(name) == store,
        store.after_delete_product(name).inventory.dom().len() == store.inventory.dom().len(),
{
}

/// Editing a product of an unknown name answers `NotFound` and leaves the
/// store as it was.
pub proof fn law_edit_unknown(
    store: StoreView,
    name: Seq<char>,
    description: Seq<char>,
    price: nat,
    quantity: nat,
)
    requires
        store.authenticated,
        !store.holds(name),
    ensures
        store.edit_product_outcome(name) == Err::<(), StoreError>(StoreError::NotFound),
        store.after_edit_product(name, description, price, quantity) == store,
{
}

/// Only a purchase changes a product's cost history: an edit and a sale
/// leave its total cost and its units purchased, and so its average cost.
pub proof fn law_cost_history_kept(
    store: StoreView,
    name: Seq<char>,
    description: Seq<char>,
    price: nat,
    quantity: nat,
)
    requires
        store.holds(name),
    ensures
        ({
            let before = store.inventory[name];
            let edited = store.after_edit_product(name, description, price, quantity).inventory[name];
            let sold = store.after_record_sale(name, quantity, price).inventory[name];
            &&& edited.total_cost == before.total_cost
            &&& edited.total_purchased_qty == before.total_purchased_qty
            &&& edited.average_cost() == before.average_cost()
            &&& sold.total_cost == before.total_cost
            &&& sold.total_purchased_qty == before.total_purchased_qty
            &&& sold.average_cost() == before.average_cost()
        }),
{
}

} // verus!
