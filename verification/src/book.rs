//! Order-book request parameters.

use vstd::prelude::*;

verus! {

/// The price-aggregation precision of an order-book request, as the wire
/// names the levels.
#[derive(Clone, Copy, Debug, PartialEq, Eq, Structural)]
pub enum BookPrecision {
    P0,
    P1,
    P2,
    P3,
    P4,
    R0,
}

impl BookPrecision {
    /// The wire name of the precision level.
    pub open spec fn spec_str(self) -> Seq<char> {
        match self {
            BookPrecision::P0 => "P0"@,
            BookPrecision::P1 => "P1"@,
            BookPrecision::P2 => "P2"@,
            BookPrecision::P3 => "P3"@,
            BookPrecision::P4 => "P4"@,
            BookPrecision::R0 => "R0"@,
        }
    }

    pub fn to_string(&self) -> (r: String)
        ensures
            r@ == self.spec_str(),
    {
        match self {
            BookPrecision::P0 => "P0".to_owned(),
            BookPrecision::P1 => "P1".to_owned(),
            BookPrecision::P2 => "P2".to_owned(),
            BookPrecision::P3 => "P3".to_owned(),
            BookPrecision::P4 => "P4".to_owned(),
            BookPrecision::R0 => "R0".to_owned(),
        }
    }
}

} // verus!
