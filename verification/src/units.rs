//! Display units for data rates.
use vstd::prelude::*;

verus! {

/// Which unit family network throughput is displayed in.
#[derive(Clone, Copy, Debug, PartialEq, Eq)]
pub enum DataUnit {
    Byte,
    Bit,
}

} // verus!
