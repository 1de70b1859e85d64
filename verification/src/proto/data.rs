//! The catalog-source enumeration as the wire protocol carries it.

use vstd::prelude::*;

verus! {

/// Wire-level catalog source.  Enumeration messages carry it as an
/// integer: zero stands for the unknown value, the known sources follow.
#[derive(Clone, Copy, Debug, PartialEq, Eq, Structural)]
pub enum Source {
    Unknown,
    Anidb,
}

/// The integer a wire enumeration value is encoded as.
pub open spec fn wire_value_of(s: Source) -> i32 {
    match s {
        Source::Unknown => 0,
        Source::Anidb => 1,
    }
}

impl Source {
    /// Returns the integer this value is encoded as on the wire.
    pub fn wire_value(self) -> (r: i32)
        ensures
            r == wire_value_of(self),
    {
        match self {
            Source::Unknown => 0,
            Source::Anidb => 1,
        }
    }
}

} // verus!
