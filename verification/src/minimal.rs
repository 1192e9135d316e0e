//! The smallest module shape: state built at initialisation, owned for the
//! module's lifetime.

use vstd::prelude::*;

verus! {

/// A module holding only a list of numbers built at initialisation.
pub struct RustMinimal {
    numbers: Vec<i32>,
}

impl View for RustMinimal {
    type V = Seq<i32>;

    closed spec fn view(&self) -> Seq<i32> {
        self.numbers@
    }
}

impl RustMinimal {
    /// Build the module state: exactly the three numbers, in order.
    pub fn init() -> (s: Self)
        ensures
            s@ == seq![72i32, 108i32, 200i32],
    {
        let mut numbers: Vec<i32> = Vec::new();
        numbers.push(72);
        numbers.push(108);
        numbers.push(200);
        proof {
            assert(numbers@ =~= seq![72i32, 108i32, 200i32]);
        }
        RustMinimal { numbers }
    }

    /// The numbers the module holds.
    pub fn numbers(&self) -> (r: &Vec<i32>)
        ensures
            r@ == self@,
    {
        &self.numbers
    }
}

} // verus!
