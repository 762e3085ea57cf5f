//! The ledger's records: a product's entry, a sale and a purchase, each with
//! the mathematical value that contracts speak of.

use vstd::prelude::*;
use crate::money::{
    average_cost_of, lemma_line_total_bound, line_total, markup_price, profit_of,
    spec_average_cost, spec_line_total, spec_markup, spec_profit,
};

verus! {

/// One product's current state and cost history.
#[derive(Debug)]
pub struct Product {
    pub name: String,
    pub description: String,
    /// Selling price per unit, in minor units.
    pub price: u64,
    /// Stock on hand.
    pub quantity: u32,
    /// Money spent on purchases of this product so far, in minor units.
    pub total_cost: u64,
    /// Units purchased so far.
    pub total_purchased_qty: u32,
}

/// The value of a [`Product`].
pub ghost struct ProductView {
    pub name: Seq<char>,
    pub description: Seq<char>,
    pub price: nat,
    pub quantity: nat,
    pub total_cost: nat,
    pub total_purchased_qty: nat,
}

impl ProductView {
    /// Total cost divided by units purchased, rounded down; zero when nothing
    /// has been purchased.
    pub open spec fn average_cost(self) -> nat {
        spec_average_cost(self.total_cost, self.total_purchased_qty)
    }

    /// A product with no purchase history.
    pub open spec fn fresh(
        name: Seq<char>,
        description: Seq<char>,
        price: nat,
        quantity: nat,
    ) -> ProductView {
        ProductView { name, description, price, quantity, total_cost: 0, total_purchased_qty: 0 }
    }

    /// The entry with description, price and stock overwritten. The cost
    /// history stays.
    pub open spec fn edited(self, description: Seq<char>, price: nat, quantity: nat) -> ProductView {
        ProductView { description, price, quantity, ..self }
    }

    /// The entry after `quantity` units were sold.
    pub open spec fn sold(self, quantity: nat) -> ProductView
        recommends
            quantity <= self.quantity,
    {
        ProductView { quantity: (self.quantity - quantity) as nat, ..self }
    }

    /// The entry after `quantity` units were bought at `purchase_price`
    /// each: stock and cost history grow, and a purchase price above the
    /// selling price raises the selling price to the purchase price marked
    /// up.
    pub open spec fn restocked(self, quantity: nat, purchase_price: nat) -> ProductView {
        ProductView {
            price: if purchase_price > self.price {
                spec_markup(purchase_price)
            } else {
                self.price
            },
            quantity: self.quantity + quantity,
            total_cost: self.total_cost + spec_line_total(purchase_price, quantity),
            total_purchased_qty: self.total_purchased_qty + quantity,
            ..self
        }
    }

    /// The entry that a first purchase of an unknown product creates.
    pub open spec fn first_purchase(
        name: Seq<char>,
        quantity: nat,
        purchase_price: nat,
    ) -> ProductView {
        ProductView {
            name,
            description: "No description"@,
            price: spec_markup(purchase_price),
            quantity,
            total_cost: spec_line_total(purchase_price, quantity),
            total_purchased_qty: quantity,
        }
    }

    /// The profit of selling `quantity` units of this product at
    /// `sale_price` each, over its average cost.
    pub open spec fn profit(self, quantity: nat, sale_price: nat) -> int {
        spec_profit(sale_price, self.average_cost(), quantity)
    }

    /// Every number of the entry fits the machine type that holds it.
    pub open spec fn representable(self) -> bool {
        &&& self.price <= u64::MAX
        &&& self.quantity <= u32::MAX
        &&& self.total_cost <= u64::MAX
        &&& self.total_purchased_qty <= u32::MAX
    }
}

impl View for Product {
    type V = ProductView;

    open spec fn view(&self) -> ProductView {
        ProductView {
            name: self.name@,
            description: self.description@,
            price: self.price as nat,
            quantity: self.quantity as nat,
            total_cost: self.total_cost as nat,
            total_purchased_qty: self.total_purchased_qty as nat,
        }
    }
}

impl Clone for Product {
    fn clone(&self) -> (copy: Self)
        ensures
            copy@ == self@,
    {
        Product {
            name: self.name.clone(),
            description: self.description.clone(),
            price: self.price,
            quantity: self.quantity,
            total_cost: self.total_cost,
            total_purchased_qty: self.total_purchased_qty,
        }
    }
}

impl Product {
    /// A product with no purchase history.
    pub fn new(name: String, description: String, price: u64, quantity: u32) -> (product: Self)
        ensures
            product@ == (ProductView {
                name: name@,
                description: description@,
                price: price as nat,
                quantity: quantity as nat,
                total_cost: 0,
                total_purchased_qty: 0,
            }),
    {
        Product { name, description, price, quantity, total_cost: 0, total_purchased_qty: 0 }
    }

    /// The average cost per unit purchased; zero when nothing has been
    /// purchased.
    pub fn average_cost(&self) -> (avg: u64)
        ensures
            avg as nat == self@.average_cost(),
            self.total_purchased_qty == 0 ==> avg == 0,
    {
        average_cost_of(self.total_cost, self.total_purchased_qty)
    }

    /// The profit of selling `quantity` units at `sale_price` each.
    pub fn profit(&self, quantity: u32, sale_price: u64) -> (profit: i128)
        ensures
            profit as int == self@.profit(quantity as nat, sale_price as nat),
    {
        profit_of(sale_price, self.average_cost(), quantity)
    }

    /// This product with description, price and stock overwritten.
    pub fn edited(&self, description: String, price: u64, quantity: u32) -> (product: Product)
        ensures
            product@ == self@.edited(description@, price as nat, quantity as nat),
    {
        Product {
            name: self.name.clone(),
            description,
            price,
            quantity,
            total_cost: self.total_cost,
            total_purchased_qty: self.total_purchased_qty,
        }
    }

    /// This product after `quantity` units were sold; `None` when fewer are
    /// in stock.
    pub fn sold(&self, quantity: u32) -> (product: Option<Product>)
        ensures
            product.is_some() == (quantity <= self.quantity),
            product.is_some() ==> product.unwrap()@ == self@.sold(quantity as nat),
    {
        if quantity <= self.quantity {
            Some(
                Product {
                    name: self.name.clone(),
                    description: self.description.clone(),
                    price: self.price,
                    quantity: self.quantity - quantity,
                    total_cost: self.total_cost,
                    total_purchased_qty: self.total_purchased_qty,
                },
            )
        } else {
            None
        }
    }

    /// This product after `quantity` units were bought at `purchase_price`
    /// each; `None` when a number of the new entry does not fit its type.
    pub fn restocked(&self, quantity: u32, purchase_price: u64) -> (product: Option<Product>)
        ensures
            product.is_some() == self@.restocked(
                quantity as nat,
                purchase_price as nat,
            ).representable(),
            product.is_some() ==> product.unwrap()@ == self@.restocked(
                quantity as nat,
                purchase_price as nat,
            ),
    {
        let new_quantity: u64 = self.quantity as u64 + quantity as u64;
        let new_purchased: u64 = self.total_purchased_qty as u64 + quantity as u64;
        let cost: u128 = line_total(purchase_price, quantity);
        proof {
            lemma_line_total_bound(purchase_price, quantity);
        }
        let new_cost: u128 = self.total_cost as u128 + cost;
        let new_price: Option<u64> = if purchase_price > self.price {
            markup_price(purchase_price)
        } else {
            Some(self.price)
        };
        if new_quantity > u32::MAX as u64 || new_purchased > u32::MAX as u64 || new_cost
            > u64::MAX as u128 {
            return None;
        }
        match new_price {
            Some(price) => Some(
                Product {
                    name: self.name.clone(),
                    description: self.description.clone(),
                    price,
                    quantity: new_quantity as u32,
                    total_cost: new_cost as u64,
                    total_purchased_qty: new_purchased as u32,
                },
            ),
            None => None,
        }
    }

    /// The entry that a first purchase of an unknown product creates; `None`
    /// when a number of it does not fit its type.
    pub fn first_purchase(
        name: String,
        quantity: u32,
        purchase_price: u64,
    ) -> (product: Option<Product>)
        ensures
            product.is_some() == ProductView::first_purchase(
                name@,
                quantity as nat,
                purchase_price as nat,
            ).representable(),
            product.is_some() ==> product.unwrap()@ == ProductView::first_purchase(
                name@,
                quantity as nat,
                purchase_price as nat,
            ),
    {
        let cost: u128 = line_total(purchase_price, quantity);
        if cost > u64::MAX as u128 {
            return None;
        }
        match markup_price(purchase_price) {
            Some(price) => Some(
                Product {
                    name,
                    description: "No description".to_owned(),
                    price,
                    quantity,
                    total_cost: cost as u64,
                    total_purchased_qty: quantity,
                },
            ),
            None => None,
        }
    }
}

/// One sale, as it was recorded.
#[derive(Debug)]
pub struct Sale {
    pub product_name: String,
    pub quantity: u32,
    /// Price per unit, in minor units.
    pub sale_price: u64,
    /// Profit of the whole sale, in minor units.
    pub profit: i128,
}

/// The value of a [`Sale`].
pub ghost struct SaleView {
    pub product_name: Seq<char>,
    pub quantity: nat,
    pub sale_price: nat,
    pub profit: int,
}

impl View for Sale {
    type V = SaleView;

    open spec fn view(&self) -> SaleView {
        SaleView {
            product_name: self.product_name@,
            quantity: self.quantity as nat,
            sale_price: self.sale_price as nat,
            profit: self.profit as int,
        }
    }
}

/// One purchase, as it was recorded.
#[derive(Debug)]
pub struct Purchase {
    pub product_name: String,
    pub quantity: u32,
    /// Price per unit, in minor units.
    pub purchase_price: u64,
}

/// The value of a [`Purchase`].
pub ghost struct PurchaseView {
    pub product_name: Seq<char>,
    pub quantity: nat,
    pub purchase_price: nat,
}

impl View for Purchase {
    type V = PurchaseView;

    open spec fn view(&self) -> PurchaseView {
        PurchaseView {
            product_name: self.product_name@,
            quantity: self.quantity as nat,
            purchase_price: self.purchase_price as nat,
        }
    }
}

/// The values of a sequence of products, in order.
pub open spec fn product_views(products: Seq<Product>) -> Seq<ProductView> {
    products.map_values(|p: Product| p@)
}

/// The values of a sequence of sales, in order.
pub open spec fn sale_views(sales: Seq<Sale>) -> Seq<SaleView> {
    sales.map_values(|s: Sale| s@)
}

/// The values of a sequence of purchases, in order.
pub open spec fn purchase_views(purchases: Seq<Purchase>) -> Seq<PurchaseView> {
    purchases.map_values(|p: Purchase| p@)
}

} // verus!
