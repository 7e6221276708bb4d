//! A 64-bit word that is known not to be zero.

use vstd::prelude::*;

verus! {

/// A 64-bit value other than zero.
///
/// Zero is the mark of an identifier that has no value yet, so every value an
/// identifier can resolve to is carried in this type.
#[derive(Clone, Copy, Debug, PartialEq, Eq, Hash)]
pub struct NonZeroWord {
    value: u64,
}

impl View for NonZeroWord {
    type V = u64;

    closed spec fn view(&self) -> u64 {
        self.value
    }
}

impl NonZeroWord {
    #[verifier::type_invariant]
    spec fn is_nonzero(self) -> bool {
        self.value != 0
    }

    /// Wraps `value`, or returns `None` when it is zero.
    pub fn new(value: u64) -> (r: Option<NonZeroWord>)
        ensures
            value == 0 ==> r is None,
            value != 0 ==> r is Some && r->Some_0@ == value,
    {
        if value == 0 {
            None
        } else {
            Some(NonZeroWord { value })
        }
    }

    /// The wrapped value.
    pub fn get(self) -> (value: u64)
        ensures
            value == self@,
            value != 0,
    {
        proof {
            use_type_invariant(&self);
        }
        self.value
    }
}

} // verus!
