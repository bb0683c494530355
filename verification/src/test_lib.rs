//! Sample targets: small callables of each shape a harness can be generated
//! for. A free function that takes a value, a constructor, and methods that
//! take `self` by shared and by mutable reference.

use vstd::prelude::*;
use vstd::string::*;
use vstd::utf8::encode_utf8;

pub mod module;

verus! {

/// The length of `string` in bytes.
pub fn bool_to_num(string: String) -> (n: usize)
    ensures
        n == encode_utf8(string@).len() as usize,
{
    string.as_str().len()
}

/// Two numbers.
#[derive(Debug)]
pub struct TestStruct {
    a: u64,
    b: u64,
}

impl View for TestStruct {
    type V = (u64, u64);

    closed spec fn view(&self) -> (u64, u64) {
        (self.a, self.b)
    }
}

impl TestStruct {
    /// Holds `a` and `b`.
    pub fn new(a: u64, b: u64) -> (made: TestStruct)
        ensures
            made@ == (a, b),
    {
        TestStruct { a, b }
    }

    /// The first number.
    pub fn get_a(&self) -> (a: u64)
        ensures
            a == self@.0,
    {
        self.a
    }

    /// Replaces the second number.
    pub fn set_b(&mut self, b: u64)
        ensures
            final(self)@ == (old(self)@.0, b),
    {
        self.b = b;
    }

    /// Multiplies the first number by the second. The product has to fit.
    pub fn multiply(&mut self)
        requires
            old(self)@.0 * old(self)@.1 <= u64::MAX,
        ensures
            final(self)@.0 == old(self)@.0 * old(self)@.1,
            final(self)@.1 == old(self)@.1,
    {
        self.a = self.a * self.b;
    }
}

} // verus!
