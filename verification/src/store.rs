//! The store: the inventory, the logs of sales and purchases, and the
//! login, with the rules by which operations change them.

use vstd::prelude::*;
use crate::inventory::{map_of, Inventory};
use crate::product::{
    product_views, purchase_views, sale_views, Product, ProductView, Purchase, PurchaseView, Sale,
    SaleView,
};

verus! {

/// Why an operation on the store was refused.
#[derive(Clone, Copy, Debug, PartialEq, Eq, Structural)]
pub enum StoreError {
    /// A changing operation was tried while nobody was logged in.
    AccessDenied,
    /// A product of that name is held already.
    DuplicateProduct,
    /// No product of that name is held.
    NotFound,
    /// More units were to be sold than are in stock.
    InsufficientStock,
    /// A number of the result does not fit the machine type that holds it.
    Overflow,
}

impl StoreError {
    /// The words that tell an operator of the refusal.
    pub open spec fn spec_message(self) -> Seq<char> {
        match self {
            StoreError::AccessDenied => "Access denied. Please authenticate first."@,
            StoreError::DuplicateProduct => "Product already exists. Use edit instead."@,
            StoreError::NotFound => "Product not found."@,
            StoreError::InsufficientStock => "Not enough stock."@,
            StoreError::Overflow => "Amount out of range."@,
        }
    }

    /// The words that tell an operator of the refusal.
    pub fn message(&self) -> (text: String)
        ensures
            text@ == self.spec_message(),
    {
        match self {
            StoreError::AccessDenied => "Access denied. Please authenticate first.".to_owned(),
            StoreError::DuplicateProduct => "Product already exists. Use edit instead.".to_owned(),
            StoreError::NotFound => "Product not found.".to_owned(),
            StoreError::InsufficientStock => "Not enough stock.".to_owned(),
            StoreError::Overflow => "Amount out of range.".to_owned(),
        }
    }
}

/// The store's state.
#[derive(Debug)]
pub struct Store {
    pub inventory: Inventory,
    /// Sales in the order in which they were recorded.
    pub sales: Vec<Sale>,
    /// Purchases in the order in which they were recorded.
    pub purchases: Vec<Purchase>,
    /// Whether somebody is logged in.
    pub authenticated: bool,
    pub password: String,
}

/// The value of a [`Store`].
pub ghost struct StoreView {
    pub inventory: Map<Seq<char>, ProductView>,
    pub sales: Seq<SaleView>,
    pub purchases: Seq<PurchaseView>,
    pub authenticated: bool,
    pub password: Seq<char>,
}

impl View for Store {
    type V = StoreView;

    open spec fn view(&self) -> StoreView {
        StoreView {
            inventory: self.inventory@,
            sales: sale_views(self.sales@),
            purchases: purchase_views(self.purchases@),
            authenticated: self.authenticated,
            password: self.password@,
        }
    }
}

/// The password of a store that was given none.
pub open spec fn default_password() -> Seq<char> {
    "admin"@
}

impl StoreView {
    /// Whether a product of this name is held.
    pub open spec fn holds(self, name: Seq<char>) -> bool {
        self.inventory.dom().contains(name)
    }

    /// The state with the product put into the inventory under `name`.
    pub open spec fn with_product(self, name: Seq<char>, product: ProductView) -> StoreView {
        StoreView { inventory: self.inventory.insert(name, product), ..self }
    }

    /// What an attempt to log in with `submitted` leaves: logged in where
    /// the password matches, unchanged where it does not.
    pub open spec fn after_authenticate(self, submitted: Seq<char>) -> StoreView {
        StoreView { authenticated: self.authenticated || submitted == self.password, ..self }
    }

    /// The state after logging out.
    pub open spec fn after_logout(self) -> StoreView {
        StoreView { authenticated: false, ..self }
    }

    /// What `add_product` answers.
    pub open spec fn add_product_outcome(self, name: Seq<char>) -> Result<(), StoreError> {
        if !self.authenticated {
            Err(StoreError::AccessDenied)
        } else if self.holds(name) {
            Err(StoreError::DuplicateProduct)
        } else {
            Ok(())
        }
    }

    /// The state that `add_product` leaves.
    pub open spec fn after_add_product(
        self,
        name: Seq<char>,
        description: Seq<char>,
        price: nat,
        quantity: nat,
    ) -> StoreView {
        if self.add_product_outcome(name).is_ok() {
            self.with_product(name, ProductView::fresh(name, description, price, quantity))
        } else {
            self
        }
    }

    /// What `edit_product` answers.
    pub open spec fn edit_product_outcome(self, name: Seq<char>) -> Result<(), StoreError> {
        if !self.authenticated {
            Err(StoreError::AccessDenied)
        } else if !self.holds(name) {
            Err(StoreError::NotFound)
        } else {
            Ok(())
        }
    }

    /// The state that `edit_product` leaves.
    pub open spec fn after_edit_product(
        self,
        name: Seq<char>,
        description: Seq<char>,
        price: nat,
        quantity: nat,
    ) -> StoreView {
        if self.edit_product_outcome(name).is_ok() {
            self.with_product(name, self.inventory[name].edited(description, price, quantity))
        } else {
            self
        }
    }

    /// What `delete_product` answers.
    pub open spec fn delete_product_outcome(self, name: Seq<char>) -> Result<(), StoreError> {
        if !self.authenticated {
            Err(StoreError::AccessDenied)
        } else if !self.holds(name) {
            Err(StoreError::NotFound)
        } else {
            Ok(())
        }
    }

    /// The state that `delete_product` leaves.
    pub open spec fn after_delete_product(self, name: Seq<char>) -> StoreView {
        if self.delete_product_outcome(name).is_ok() {
            StoreView { inventory: self.inventory.remove(name), ..self }
        } else {
            self
        }
    }

    /// What `record_sale` answers: the profit of the sale, or why it was
    /// refused.
    pub open spec fn record_sale_outcome(
        self,
        name: Seq<char>,
        quantity: nat,
        sale_price: nat,
    ) -> Result<int, StoreError> {
        if !self.authenticated {
            Err(StoreError::AccessDenied)
        } else if !self.holds(name) {
            Err(StoreError::NotFound)
        } else if quantity > self.inventory[name].quantity {
            Err(StoreError::InsufficientStock)
        } else {
            Ok(self.inventory[name].profit(quantity, sale_price))
        }
    }

    /// The state that `record_sale` leaves.
    pub open spec fn after_record_sale(
        self,
        name: Seq<char>,
        quantity: nat,
        sale_price: nat,
    ) -> StoreView {
        match self.record_sale_outcome(name, quantity, sale_price) {
            Ok(profit) => StoreView {
                inventory: self.inventory.insert(name, self.inventory[name].sold(quantity)),
                sales: self.sales.push(
                    SaleView { product_name: name, quantity, sale_price, profit },
                ),
                ..self
            },
            Err(_) => self,
        }
    }

    /// The entry that a purchase leaves under `name`.
    pub open spec fn purchased_entry(
        self,
        name: Seq<char>,
        quantity: nat,
        purchase_price: nat,
    ) -> ProductView {
        if self.holds(name) {
            self.inventory[name].restocked(quantity, purchase_price)
        } else {
            ProductView::first_purchase(name, quantity, purchase_price)
        }
    }

    /// What `record_purchase` answers.
    pub open spec fn record_purchase_outcome(
        self,
        name: Seq<char>,
        quantity: nat,
        purchase_price: nat,
    ) -> Result<(), StoreError> {
        if !self.authenticated {
            Err(StoreError::AccessDenied)
        } else if !self.purchased_entry(name, quantity, purchase_price).representable() {
            Err(StoreError::Overflow)
        } else {
            Ok(())
        }
    }

    /// The state that `record_purchase` leaves.
    pub open spec fn after_record_purchase(
        self,
        name: Seq<char>,
        quantity: nat,
        purchase_price: nat,
    ) -> StoreView {
        if self.record_purchase_outcome(name, quantity, purchase_price).is_ok() {
            StoreView {
                inventory: self.inventory.insert(
                    name,
                    self.purchased_entry(name, quantity, purchase_price),
                ),
                purchases: self.purchases.push(
                    PurchaseView { product_name: name, quantity, purchase_price },
                ),
                ..self
            }
        } else {
            self
        }
    }
}

impl Store {
    /// An empty store, logged out, with the default password.
    pub fn new() -> (store: Self)
        ensures
            store@ == (StoreView {
                inventory: Map::empty(),
                sales: Seq::empty(),
                purchases: Seq::empty(),
                authenticated: false,
                password: default_password(),
            }),
    {
        let store = Store {
            inventory: Inventory::new(),
            sales: Vec::new(),
            purchases: Vec::new(),
            authenticated: false,
            password: "admin".to_owned(),
        };
        proof {
            assert(sale_views(store.sales@) =~= Seq::empty());
            assert(purchase_views(store.purchases@) =~= Seq::empty());
        }
        store
    }

    /// The store that loaded collections make, logged out and with the
    /// default password. A collection that could not be loaded is `None`,
    /// and counts as empty. Of two products of one name the later stays.
    pub fn from_parts(
        inventory: Option<Vec<Product>>,
        sales: Option<Vec<Sale>>,
        purchases: Option<Vec<Purchase>>,
    ) -> (store: Self)
        ensures
            store@ == (StoreView {
                inventory: match inventory {
                    Some(products) => map_of(product_views(products@)),
                    None => Map::empty(),
                },
                sales: match sales {
                    Some(log) => sale_views(log@),
                    None => Seq::empty(),
                },
                purchases: match purchases {
                    Some(log) => purchase_views(log@),
                    None => Seq::empty(),
                },
                authenticated: false,
                password: default_password(),
            }),
    {
        let inventory = match inventory {
            Some(products) => Inventory::from_products(products),
            None => Inventory::new(),
        };
        let sales = match sales {
            Some(log) => log,
            None => Vec::new(),
        };
        let purchases = match purchases {
            Some(log) => log,
            None => Vec::new(),
        };
        proof {
            if sales@.len() == 0 {
                assert(sale_views(sales@) =~= Seq::empty());
            }
            if purchases@.len() == 0 {
                assert(purchase_views(purchases@) =~= Seq::empty());
            }
        }
        Store { inventory, sales, purchases, authenticated: false, password: "admin".to_owned() }
    }

    /// Logs in where `submitted` is the store's password. A wrong password
    /// changes nothing.
    pub fn authenticate(&mut self, submitted: &str) -> (granted: bool)
        ensures
            granted == (submitted@ == old(self)@.password),
            final(self)@ == old(self)@.after_authenticate(submitted@),
    {
        let given = submitted.to_owned();
        if given == self.password {
            self.authenticated = true;
            true
        } else {
            false
        }
    }

    /// Logs out.
    pub fn logout(&mut self)
        ensures
            final(self)@ == old(self)@.after_logout(),
    {
        self.authenticated = false;
    }

    /// Whether changing operations are admitted: whether somebody is logged
    /// in.
    pub fn require_authentication(&self) -> (admitted: bool)
        ensures
            admitted == self@.authenticated,
    {
        self.authenticated
    }

    /// Adds a product without purchase history. Refused when logged out, and
    /// when a product of this name is held.
    pub fn add_product(
        &mut self,
        name: String,
        description: String,
        price: u64,
        quantity: u32,
    ) -> (result: Result<(), StoreError>)
        ensures
            result == old(self)@.add_product_outcome(name@),
            final(self)@ == old(self)@.after_add_product(
                name@,
                description@,
                price as nat,
                quantity as nat,
            ),
    {
        if !self.authenticated {
            return Err(StoreError::AccessDenied);
        }
        if self.inventory.contains_key(name.as_str()) {
            return Err(StoreError::DuplicateProduct);
        }
        self.inventory.insert(Product::new(name, description, price, quantity));
        Ok(())
    }

    /// Overwrites description, price and stock of a product, and leaves its
    /// cost history. Refused when logged out, and when no product of this
    /// name is held.
    pub fn edit_product(
        &mut self,
        name: &str,
        description: String,
        price: u64,
        quantity: u32,
    ) -> (result: Result<(), StoreError>)
        ensures
            result == old(self)@.edit_product_outcome(name@),
            final(self)@ == old(self)@.after_edit_product(
                name@,
                description@,
                price as nat,
                quantity as nat,
            ),
    {
        if !self.authenticated {
            return Err(StoreError::AccessDenied);
        }
        let updated = match self.inventory.get(name) {
            Some(product) => product.edited(description, price, quantity),
            None => {
                return Err(StoreError::NotFound);
            },
        };
        self.inventory.insert(updated);
        Ok(())
    }

    /// Removes a product, with its cost history. Refused when logged out,
    /// and when no product of this name is held.
    pub fn delete_product(&mut self, name: &str) -> (result: Result<(), StoreError>)
        ensures
            result == old(self)@.delete_product_outcome(name@),
            final(self)@ == old(self)@.after_delete_product(name@),
    {
        if !self.authenticated {
            return Err(StoreError::AccessDenied);
        }
        match self.inventory.remove(name) {
            Some(_) => Ok(()),
            None => {
                proof {
                    assert(self.inventory@ =~= old(self).inventory@);
                }
                Err(StoreError::NotFound)
            },
        }
    }

    /// Records a sale: takes the units out of stock, appends the sale with
    /// its profit over the product's average cost to the log, and returns
    /// the profit. Refused, with nothing changed, when logged out, when no
    /// product of this name is held, and when fewer units are in stock.
    pub fn record_sale(
        &mut self,
        product_name: String,
        quantity: u32,
        sale_price: u64,
    ) -> (result: Result<i128, StoreError>)
        ensures
            match result {
                Ok(profit) => old(self)@.record_sale_outcome(
                    product_name@,
                    quantity as nat,
                    sale_price as nat,
                ) == Ok::<int, StoreError>(profit as int),
                Err(e) => old(self)@.record_sale_outcome(
                    product_name@,
                    quantity as nat,
                    sale_price as nat,
                ) == Err::<int, StoreError>(e),
            },
            final(self)@ == old(self)@.after_record_sale(
                product_name@,
                quantity as nat,
                sale_price as nat,
            ),
    {
        if !self.authenticated {
            return Err(StoreError::AccessDenied);
        }
        let (updated, profit) = match self.inventory.get(product_name.as_str()) {
            Some(product) => match product.sold(quantity) {
                Some(updated) => (updated, product.profit(quantity, sale_price)),
                None => {
                    return Err(StoreError::InsufficientStock);
                },
            },
            None => {
                return Err(StoreError::NotFound);
            },
        };
        self.inventory.insert(updated);
        let sale = Sale { product_name, quantity, sale_price, profit };
        proof {
            assert(sale_views(self.sales@.push(sale)) =~= sale_views(self.sales@).push(sale@));
        }
        self.sales.push(sale);
        Ok(profit)
    }

    /// Records a purchase: restocks the product, or creates it where none
    /// of this name is held, and appends the purchase to the log. Refused,
    /// with nothing changed, when logged out, and when a number of the new
    /// entry does not fit its type.
    pub fn record_purchase(
        &mut self,
        product_name: String,
        quantity: u32,
        purchase_price: u64,
    ) -> (result: Result<(), StoreError>)
        ensures
            result == old(self)@.record_purchase_outcome(
                product_name@,
                quantity as nat,
                purchase_price as nat,
            ),
            final(self)@ == old(self)@.after_record_purchase(
                product_name@,
                quantity as nat,
                purchase_price as nat,
            ),
    {
        if !self.authenticated {
            return Err(StoreError::AccessDenied);
        }
        let entry = match self.inventory.get(product_name.as_str()) {
            Some(product) => product.restocked(quantity, purchase_price),
            None => Product::first_purchase(product_name.clone(), quantity, purchase_price),
        };
        match entry {
            Some(updated) => {
                self.inventory.insert(updated);
                let purchase = Purchase { product_name, quantity, purchase_price };
                proof {
                    assert(purchase_views(self.purchases@.push(purchase)) =~= purchase_views(
                        self.purchases@,
                    ).push(purchase@));
                }
                self.purchases.push(purchase);
                Ok(())
            },
            None => Err(StoreError::Overflow),
        }
    }
}

} // verus!
