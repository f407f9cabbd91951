//! Arithmetic of the shared request counter. The HTTP layer holds the
//! counter behind a lock and applies these steps to it.

use vstd::prelude::*;

verus! {

/// One up-tick of the counter.
pub fn increment(counter: i32) -> (r: i32)
    requires
        counter < i32::MAX,
    ensures
        r == counter + 1,
{
    counter + 1
}

/// One down-tick of the counter.
pub fn decrement(counter: i32) -> (r: i32)
    requires
        counter > i32::MIN,
    ensures
        r == counter - 1,
{
    counter - 1
}

/// Add a requested amount to the counter.
pub fn add_amount(counter: i32, amount: i32) -> (r: i32)
    requires
        i32::MIN <= counter + amount <= i32::MAX,
    ensures
        r == counter + amount,
{
    counter + amount
}

/// Subtract a requested amount from the counter.
pub fn subtract_amount(counter: i32, amount: i32) -> (r: i32)
    requires
        i32::MIN <= counter - amount <= i32::MAX,
    ensures
        r == counter - amount,
{
    counter - amount
}

/// Add a requested amount, scaled by a multiplier, to the counter.
pub fn add_product(counter: i32, amount: i32, multiplier: i32) -> (r: i32)
    requires
        i32::MIN <= amount * multiplier <= i32::MAX,
        i32::MIN <= counter + amount * multiplier <= i32::MAX,
    ensures
        r == counter + amount * multiplier,
{
    counter + amount * multiplier
}

/// Subtract a requested amount, scaled by a multiplier, from the
/// counter.
pub fn subtract_product(counter: i32, amount: i32, multiplier: i32) -> (r: i32)
    requires
        i32::MIN <= amount * multiplier <= i32::MAX,
        i32::MIN <= counter - amount * multiplier <= i32::MAX,
    ensures
        r == counter - amount * multiplier,
{
    counter - amount * multiplier
}

} // verus!
