//! Amounts of money as whole minor units (hundredths of the currency unit),
//! and the arithmetic rules of the ledger over them.

use vstd::prelude::*;

verus! {

/// The average cost per unit, rounded down to a whole minor unit; zero when
/// nothing has been purchased.
pub open spec fn spec_average_cost(total_cost: nat, total_purchased_qty: nat) -> nat {
    if total_purchased_qty == 0 {
        0
    } else {
        total_cost / total_purchased_qty
    }
}

/// The selling price that the markup rule sets: the purchase price plus ten
/// percent, rounded down to a whole minor unit.
pub open spec fn spec_markup(purchase_price: nat) -> nat {
    (purchase_price * 11) / 10
}

/// The value of `quantity` units at `unit_price` each.
pub open spec fn spec_line_total(unit_price: nat, quantity: nat) -> nat {
    unit_price * quantity
}

/// The profit of selling `quantity` units at `sale_price` each when a unit
/// cost `average_cost`. Negative when sold under cost.
pub open spec fn spec_profit(sale_price: nat, average_cost: nat, quantity: nat) -> int {
    (sale_price - average_cost) * quantity
}

/// A line total is below 2^96, so it always fits in a `u128`.
pub proof fn lemma_line_total_bound(unit_price: u64, quantity: u32)
    ensures
        spec_line_total(unit_price as nat, quantity as nat) <= 0xFFFF_FFFF_FFFF_FFFF * 0xFFFF_FFFF,
{
    assert(unit_price as nat * quantity as nat <= 0xFFFF_FFFF_FFFF_FFFF * 0xFFFF_FFFF)
        by (nonlinear_arith)
        requires
            unit_price as nat <= 0xFFFF_FFFF_FFFF_FFFF,
            quantity as nat <= 0xFFFF_FFFF,
    ;
}

/// A profit lies strictly between -2^96 and 2^96, so it always fits in an
/// `i128`.
pub proof fn lemma_profit_bound(sale_price: u64, average_cost: u64, quantity: u32)
    ensures
        -(0xFFFF_FFFF_FFFF_FFFF * 0xFFFF_FFFF) <= spec_profit(
            sale_price as nat,
            average_cost as nat,
            quantity as nat,
        ) <= 0xFFFF_FFFF_FFFF_FFFF * 0xFFFF_FFFF,
{
    let d = sale_price as int - average_cost as int;
    let q = quantity as int;
    assert(-(0xFFFF_FFFF_FFFF_FFFF * 0xFFFF_FFFF) <= d * q <= 0xFFFF_FFFF_FFFF_FFFF * 0xFFFF_FFFF)
        by (nonlinear_arith)
        requires
            -0xFFFF_FFFF_FFFF_FFFF <= d <= 0xFFFF_FFFF_FFFF_FFFF,
            0 <= q <= 0xFFFF_FFFF,
    ;
}

/// Computes the average cost per unit.
pub fn average_cost_of(total_cost: u64, total_purchased_qty: u32) -> (avg: u64)
    ensures
        avg as nat == spec_average_cost(total_cost as nat, total_purchased_qty as nat),
        total_purchased_qty == 0 ==> avg == 0,
{
    if total_purchased_qty == 0 {
        0
    } else {
        let q: u64 = total_purchased_qty as u64;
        total_cost / q
    }
}

/// Applies the markup rule to a purchase price. `None` when the marked-up
/// price does not fit in a `u64`.
pub fn markup_price(purchase_price: u64) -> (price: Option<u64>)
    ensures
        price == (if spec_markup(purchase_price as nat) <= u64::MAX {
            Some(spec_markup(purchase_price as nat) as u64)
        } else {
            None
        }),
{
    let wide: u128 = (purchase_price as u128) * 11 / 10;
    if wide <= u64::MAX as u128 {
        Some(wide as u64)
    } else {
        None
    }
}

/// Computes the value of `quantity` units at `unit_price` each.
pub fn line_total(unit_price: u64, quantity: u32) -> (total: u128)
    ensures
        total as nat == spec_line_total(unit_price as nat, quantity as nat),
{
    proof {
        lemma_line_total_bound(unit_price, quantity);
    }
    (unit_price as u128) * (quantity as u128)
}

/// Computes the profit of a sale.
pub fn profit_of(sale_price: u64, average_cost: u64, quantity: u32) -> (profit: i128)
    ensures
        profit as int == spec_profit(sale_price as nat, average_cost as nat, quantity as nat),
{
    proof {
        lemma_profit_bound(sale_price, average_cost, quantity);
    }
    let margin: i128 = sale_price as i128 - average_cost as i128;
    margin * (quantity as i128)
}

} // verus!
