//! The shape of harvested data as the reducer consumes it.
use vstd::prelude::*;

verus! {

/// Which unit harvested temperatures are displayed in.
#[derive(Clone, Copy, Debug, PartialEq, Eq)]
pub enum TemperatureType {
    Celsius,
    Kelvin,
    Fahrenheit,
}

/// One harvested snapshot of system metrics. The metric payload itself is
/// produced and rendered by collaborators outside this core; the reducer
/// reads only the harvest instant.
#[derive(Clone, Copy, Debug, PartialEq, Eq)]
pub struct Data {
    /// When this snapshot was harvested, in milliseconds.
    pub collection_time: u64,
}

} // verus!
