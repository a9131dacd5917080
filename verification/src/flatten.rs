use vstd::prelude::*;

verus! {

/// A value that can be represented as a `u32`: the normalization step that
/// turns a heterogeneous sample (a boolean, a unit event, a counter) into a
/// single unsigned count contribution.
///
/// An open capability: new sample kinds may add their own mapping, as long
/// as it is pure and total.
pub trait Flatten {
    /// The count contribution of this sample.
    spec fn spec_as_u32(&self) -> u32;

    /// Returns the sample's count contribution; pure, total, no side
    /// effects.
    fn as_u32(&self) -> (r: u32)
        ensures
            r == self.spec_as_u32(),
    ;
}

impl Flatten for u32 {
    /// A counter contributes its own value.
    open spec fn spec_as_u32(&self) -> u32 {
        *self
    }

    fn as_u32(&self) -> (r: u32) {
        *self
    }
}

impl Flatten for () {
    /// A unit event carries no payload and contributes nothing.
    open spec fn spec_as_u32(&self) -> u32 {
        0
    }

    fn as_u32(&self) -> (r: u32) {
        0
    }
}

impl Flatten for bool {
    /// A set flag contributes one, a cleared flag nothing.
    open spec fn spec_as_u32(&self) -> u32 {
        if *self {
            1
        } else {
            0
        }
    }

    fn as_u32(&self) -> (r: u32) {
        if *self {
            1
        } else {
            0
        }
    }
}

} // verus!
