//! Read-only summaries of a store: the inventory listing and the totals over
//! the logs of sales and purchases.

use vstd::prelude::*;
use crate::inventory::lemma_map_of_distinct;
use crate::money::{line_total, spec_line_total};
use crate::product::{
    product_views, purchase_views, sale_views, Product, ProductView, Purchase, PurchaseView, Sale,
    SaleView,
};
use crate::store::{Store, StoreError};

verus! {

/// One line of the inventory listing.
#[derive(Debug)]
pub struct InventoryRow {
    pub name: String,
    pub description: String,
    /// Selling price per unit, in minor units.
    pub price: u64,
    /// Stock on hand.
    pub quantity: u32,
    /// Average cost per unit purchased, in minor units.
    pub average_cost: u64,
}

/// The value of an [`InventoryRow`].
pub ghost struct InventoryRowView {
    pub name: Seq<char>,
    pub description: Seq<char>,
    pub price: nat,
    pub quantity: nat,
    pub average_cost: nat,
}

impl View for InventoryRow {
    type V = InventoryRowView;

    open spec fn view(&self) -> InventoryRowView {
        InventoryRowView {
            name: self.name@,
            description: self.description@,
            price: self.price as nat,
            quantity: self.quantity as nat,
            average_cost: self.average_cost as nat,
        }
    }
}

/// The values of a sequence of rows, in order.
pub open spec fn row_views(rows: Seq<InventoryRow>) -> Seq<InventoryRowView> {
    rows.map_values(|r: InventoryRow| r@)
}

/// The line that the listing shows for a product.
pub open spec fn row_of(product: ProductView) -> InventoryRowView {
    InventoryRowView {
        name: product.name,
        description: product.description,
        price: product.price,
        quantity: product.quantity,
        average_cost: product.average_cost(),
    }
}

/// `rows` lists `inventory`: one row for each product and no other, in any
/// order.
pub open spec fn lists(
    rows: Seq<InventoryRowView>,
    inventory: Map<Seq<char>, ProductView>,
) -> bool {
    &&& inventory.dom().finite()
    &&& rows.len() == inventory.dom().len()
    &&& forall|i: int|
        0 <= i < rows.len() ==> inventory.dom().contains(#[trigger] rows[i].name) && rows[i]
            == row_of(inventory[rows[i].name])
    &&& forall|i: int, j: int| 0 <= i < j < rows.len() ==> rows[i].name != rows[j].name
}

/// The money taken by the sales: for each, price times quantity.
pub open spec fn sales_revenue(sales: Seq<SaleView>) -> nat
    decreases sales.len(),
{
    if sales.len() == 0 {
        0
    } else {
        sales_revenue(sales.drop_last()) + spec_line_total(
            sales.last().sale_price,
            sales.last().quantity,
        )
    }
}

/// The sum of the profits that the sales were recorded with.
pub open spec fn sales_profit(sales: Seq<SaleView>) -> int
    decreases sales.len(),
{
    if sales.len() == 0 {
        0
    } else {
        sales_profit(sales.drop_last()) + sales.last().profit
    }
}

/// The money spent on the purchases: for each, price times quantity.
pub open spec fn purchases_cost(purchases: Seq<PurchaseView>) -> nat
    decreases purchases.len(),
{
    if purchases.len() == 0 {
        0
    } else {
        purchases_cost(purchases.drop_last()) + spec_line_total(
            purchases.last().purchase_price,
            purchases.last().quantity,
        )
    }
}

/// The revenue of a part of the log is at most that of the whole.
pub proof fn lemma_revenue_prefix(sales: Seq<SaleView>, n: int)
    requires
        0 <= n <= sales.len(),
    ensures
        sales_revenue(sales.take(n)) <= sales_revenue(sales),
    decreases sales.len() - n,
{
    if n == sales.len() {
        assert(sales.take(n) =~= sales);
    } else {
        lemma_revenue_prefix(sales, n + 1);
        assert(sales.take(n + 1).drop_last() =~= sales.take(n));
    }
}

/// The cost of a part of the log is at most that of the whole.
pub proof fn lemma_cost_prefix(purchases: Seq<PurchaseView>, n: int)
    requires
        0 <= n <= purchases.len(),
    ensures
        purchases_cost(purchases.take(n)) <= purchases_cost(purchases),
    decreases purchases.len() - n,
{
    if n == purchases.len() {
        assert(purchases.take(n) =~= purchases);
    } else {
        lemma_cost_prefix(purchases, n + 1);
        assert(purchases.take(n + 1).drop_last() =~= purchases.take(n));
    }
}

/// Adds up the revenue of the sales. `None` when the sum does not fit in a
/// `u128`.
pub fn total_sales(sales: &Vec<Sale>) -> (total: Option<u128>)
    ensures
        total == (if sales_revenue(sale_views(sales@)) <= u128::MAX {
            Some(sales_revenue(sale_views(sales@)) as u128)
        } else {
            None
        }),
{
    let ghost log = sale_views(sales@);
    let mut sum: u128 = 0;
    let mut i: usize = 0;
    while i < sales.len()
        invariant
            i <= sales.len(),
            log == sale_views(sales@),
            sum as nat == sales_revenue(log.take(i as int)),
        decreases sales.len() - i,
    {
        let term = line_total(sales[i].sale_price, sales[i].quantity);
        proof {
            assert(log.take(i + 1).drop_last() =~= log.take(i as int));
            lemma_revenue_prefix(log, i + 1);
        }
        if term > u128::MAX - sum {
            return None;
        }
        sum = sum + term;
        i += 1;
    }
    proof {
        assert(log.take(sales.len() as int) =~= log);
    }
    Some(sum)
}

/// Adds up the cost of the purchases. `None` when the sum does not fit in a
/// `u128`.
pub fn total_purchase_cost(purchases: &Vec<Purchase>) -> (total: Option<u128>)
    ensures
        total == (if purchases_cost(purchase_views(purchases@)) <= u128::MAX {
            Some(purchases_cost(purchase_views(purchases@)) as u128)
        } else {
            None
        }),
{
    let ghost log = purchase_views(purchases@);
    let mut sum: u128 = 0;
    let mut i: usize = 0;
    while i < purchases.len()
        invariant
            i <= purchases.len(),
            log == purchase_views(purchases@),
            sum as nat == purchases_cost(log.take(i as int)),
        decreases purchases.len() - i,
    {
        let term = line_total(purchases[i].purchase_price, purchases[i].quantity);
        proof {
            assert(log.take(i + 1).drop_last() =~= log.take(i as int));
            lemma_cost_prefix(log, i + 1);
        }
        if term > u128::MAX - sum {
            return None;
        }
        sum = sum + term;
        i += 1;
    }
    proof {
        assert(log.take(purchases.len() as int) =~= log);
    }
    Some(sum)
}

/// Adds up the recorded profits of the sales. `None` when the sum does not
/// fit in an `i128`; sums on the way may leave that range and come back.
pub fn total_profit(sales: &Vec<Sale>) -> (total: Option<i128>)
    ensures
        total == (if i128::MIN <= sales_profit(sale_views(sales@)) <= i128::MAX {
            Some(sales_profit(sale_views(sales@)) as i128)
        } else {
            None
        }),
{
    let ghost log = sale_views(sales@);
    // The sum so far is `low + wraps * 2^128`.
    let mut low: i128 = 0;
    let mut wraps: i128 = 0;
    let mut i: usize = 0;
    while i < sales.len()
        invariant
            i <= sales.len(),
            log == sale_views(sales@),
            -(i as int) <= wraps <= i as int,
            low + wraps * 0x1_0000_0000_0000_0000_0000_0000_0000_0000 == sales_profit(
                log.take(i as int),
            ),
        decreases sales.len() - i,
    {
        let term = sales[i].profit;
        proof {
            assert(log.take(i + 1).drop_last() =~= log.take(i as int));
        }
        if term > 0 && low > i128::MAX - term {
            low = (low - i128::MAX - 1) + (term - i128::MAX - 1);
            wraps = wraps + 1;
        } else if term < 0 && low < i128::MIN - term {
            low = (low + i128::MAX + 1) + (term + i128::MAX + 1);
            wraps = wraps - 1;
        } else {
            low = low + term;
        }
        i += 1;
    }
    proof {
        assert(log.take(sales.len() as int) =~= log);
    }
    if wraps == 0 {
        Some(low)
    } else {
        None
    }
}

/// The totals over the logs, and the inventory listing.
#[derive(Debug)]
pub struct Report {
    /// Revenue of all sales, in minor units.
    pub total_sales: u128,
    /// Sum of the profits of all sales, in minor units.
    pub total_profit: i128,
    /// Cost of all purchases, in minor units.
    pub total_purchase_cost: u128,
    pub inventory: Vec<InventoryRow>,
}

/// Each of the three totals of a store fits the machine type that a report
/// holds it in.
pub open spec fn totals_fit(sales: Seq<SaleView>, purchases: Seq<PurchaseView>) -> bool {
    &&& sales_revenue(sales) <= u128::MAX
    &&& i128::MIN <= sales_profit(sales) <= i128::MAX
    &&& purchases_cost(purchases) <= u128::MAX
}

impl InventoryRow {
    /// The line that the listing shows for a product.
    pub fn of(product: &Product) -> (row: InventoryRow)
        ensures
            row@ == row_of(product@),
    {
        InventoryRow {
            name: product.name.clone(),
            description: product.description.clone(),
            price: product.price,
            quantity: product.quantity,
            average_cost: product.average_cost(),
        }
    }
}

impl Store {
    /// The inventory listing: one row for each product, in no particular
    /// order. Needs no login.
    pub fn list_inventory(&self) -> (rows: Vec<InventoryRow>)
        ensures
            lists(row_views(rows@), self@.inventory),
    {
        let products = self.inventory.products();
        let ghost views = product_views(products@);
        let mut rows: Vec<InventoryRow> = Vec::new();
        let mut i: usize = 0;
        while i < products.len()
            invariant
                i <= products.len(),
                rows.len() == i,
                views == product_views(products@),
                forall|j: int| 0 <= j < i ==> (#[trigger] rows[j])@ == row_of(views[j]),
            decreases products.len() - i,
        {
            rows.push(InventoryRow::of(&products[i]));
            i += 1;
        }
        proof {
            let listed = row_views(rows@);
            self.inventory.lemma_keys();
            lemma_map_of_distinct(views);
            assert forall|k: int| 0 <= k < listed.len() implies self@.inventory.dom().contains(
                #[trigger] listed[k].name,
            ) && listed[k] == row_of(self@.inventory[listed[k].name]) by {
                assert(rows[k]@ == row_of(views[k]));
                assert(listed[k].name == views[k].name);
            }
            assert forall|a: int, b: int| 0 <= a < b < listed.len() implies listed[a].name
                != listed[b].name by {
                assert(rows[a]@ == row_of(views[a]));
                assert(rows[b]@ == row_of(views[b]));
                assert(views[a].name != views[b].name);
            }
        }
        rows
    }

    /// The totals over the logs of sales and purchases, with the inventory
    /// listing. Needs no login. Refused when a total does not fit the type
    /// that holds it.
    pub fn generate_reports(&self) -> (result: Result<Report, StoreError>)
        ensures
            result.is_ok() == totals_fit(self@.sales, self@.purchases),
            match result {
                Ok(report) => {
                    &&& report.total_sales == sales_revenue(self@.sales)
                    &&& report.total_profit == sales_profit(self@.sales)
                    &&& report.total_purchase_cost == purchases_cost(self@.purchases)
                    &&& lists(row_views(report.inventory@), self@.inventory)
                },
                Err(e) => e == StoreError::Overflow,
            },
    {
        let sales = total_sales(&self.sales);
        let profit = total_profit(&self.sales);
        let cost = total_purchase_cost(&self.purchases);
        match (sales, profit, cost) {
            (Some(total_sales), Some(total_profit), Some(total_purchase_cost)) => Ok(
                Report {
                    total_sales,
                    total_profit,
                    total_purchase_cost,
                    inventory: self.list_inventory(),
                },
            ),
            _ => Err(StoreError::Overflow),
        }
    }
}

} // verus!
