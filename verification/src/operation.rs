//! A two-way tagged union of arithmetic operations on 32-bit integers.

use vstd::prelude::*;

verus! {

/// What to do with two numbers.
#[derive(Clone, Copy, Debug, PartialEq, Eq, Structural)]
pub enum VeryVerboseEnumOfThingsToDoWithNumbers {
    Add,
    Subtract,
}

/// A short name for [`VeryVerboseEnumOfThingsToDoWithNumbers`].
pub type Operations = VeryVerboseEnumOfThingsToDoWithNumbers;

impl VeryVerboseEnumOfThingsToDoWithNumbers {
    /// The exact result of the operation on `x` and `y`.
    pub open spec fn apply(self, x: int, y: int) -> int {
        match self {
            VeryVerboseEnumOfThingsToDoWithNumbers::Add => x + y,
            VeryVerboseEnumOfThingsToDoWithNumbers::Subtract => x - y,
        }
    }

    /// Whether the exact result is a 32-bit integer.
    pub open spec fn fits(self, x: int, y: int) -> bool {
        i32::MIN <= self.apply(x, y) <= i32::MAX
    }

    /// The sum or the difference of `x` and `y`. The result must be a 32-bit
    /// integer.
    pub fn run(&self, x: i32, y: i32) -> (r: i32)
        requires
            self.fits(x as int, y as int),
        ensures
            r == self.apply(x as int, y as int),
    {
        match self {
            Self::Add => x + y,
            Self::Subtract => x - y,
        }
    }

    /// The sum or the difference of `x` and `y`, or `None` exactly when it is
    /// no 32-bit integer.
    pub fn checked_run(&self, x: i32, y: i32) -> (r: Option<i32>)
        ensures
            r == if self.fits(x as int, y as int) {
                Some(self.apply(x as int, y as int) as i32)
            } else {
                None
            },
    {
        let exact: i64 = match self {
            Self::Add => x as i64 + y as i64,
            Self::Subtract => x as i64 - y as i64,
        };
        if -2147483648 <= exact && exact <= 2147483647 {
            Some(self.run(x, y))
        } else {
            None
        }
    }
}

} // verus!
