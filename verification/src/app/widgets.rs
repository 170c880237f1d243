//! The widget kinds a layout can place.
use vstd::prelude::*;

verus! {

/// Every widget kind the layout tree can place. Several kinds belong to one
/// widget category (basic and full variants, legends and search panes of a
/// main widget).
#[derive(Clone, Copy, Debug, PartialEq, Eq)]
pub enum BottomWidgetType {
    Empty,
    Cpu,
    CpuLegend,
    Mem,
    Net,
    Proc,
    ProcSearch,
    ProcSort,
    Temp,
    Disk,
    BasicCpu,
    BasicMem,
    BasicNet,
    BasicTables,
    Battery,
}

} // verus!
