//! Closed taxonomies of processor sockets and memory types.
//!
//! These are inert descriptive tags: no capacity logic reads them. Each set
//! is closed but extensible, with an `Other` catch-all for uncommon or
//! future hardware.

use vstd::prelude::*;

verus! {

/// Processor socket types a mainboard can expose.
#[derive(Clone, Copy, Debug, PartialEq, Eq)]
pub enum CPUSocket {
    // Intel desktop sockets
    LGA1151,
    LGA1155,
    LGA1200,
    LGA1700,
    LGA1366,
    LGA2011,
    LGA2066,
    // Intel server/workstation sockets
    LGA4189,
    LGA4677,
    // AMD desktop sockets
    AM3,
    AM3Plus,
    AM4,
    AM5,
    // AMD HEDT/workstation sockets
    TR4,
    STRX4,
    SWRX8,
    // AMD server sockets
    SP3,
    // Miscellaneous
    BGA,
    ARM,
    Other,
}

/// Memory technologies a mainboard can support.
#[derive(Clone, Copy, Debug, PartialEq, Eq)]
pub enum RAMType {
    SDR,
    DDR,
    DDR2,
    DDR3,
    DDR4,
    DDR5,
    LPDDR3,
    LPDDR4,
    LPDDR5,
    Other,
}

} // verus!
