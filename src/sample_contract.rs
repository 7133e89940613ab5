//! A small counter contract, the kind of module whose call structure the
//! analysis describes.

use vstd::prelude::*;

verus! {

/// A contract that keeps a running amount.
#[derive(Default)]
pub struct Contract {
    count: u64,
}

impl Contract {
    /// The amount held.
    pub closed spec fn spec_count(&self) -> u64 {
        self.count
    }

    pub fn new(count: u64) -> (r: Self)
        ensures
            r.spec_count() == count,
    {
        Self { count }
    }

    /// Adds `amount`; an amount of two is added twice, once through
    /// `SomeStruct::add_two`.
    pub fn add(&mut self, amount: u64)
        requires
            old(self).spec_count() + amount + (if amount == 2 { 2int } else { 0int }) <= u64::MAX,
        ensures
            final(self).spec_count() == old(self).spec_count() + amount + (if amount == 2 {
                2int
            } else {
                0int
            }),
    {
        if amount == 2 {
            self.count = SomeStruct::add_two(self.count);
        }
        self.add_amount(amount);
    }

    pub fn show_amount(self) -> (r: u64)
        ensures
            r == self.spec_count(),
    {
        self.count
    }

    pub fn add_amount(&mut self, amount: u64)
        requires
            old(self).spec_count() + amount <= u64::MAX,
        ensures
            final(self).spec_count() == old(self).spec_count() + amount,
    {
        self.count = self.count + amount;
    }
}

/// A helper type of the contract with one associated function.
pub struct SomeStruct {}

impl SomeStruct {
    pub fn add_two(count: u64) -> (r: u64)
        requires
            count + 2 <= u64::MAX,
        ensures
            r == count + 2,
    {
        count + 2
    }
}

} // verus!
