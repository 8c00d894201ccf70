//! The resource schedule: unit conversion ratio, static charges, limits and
//! host-call prices.

use vstd::prelude::*;
use crate::error::Error;

verus! {

/// Largest initial-memory rate that keeps the static memory charge within 64 bits.
pub const MAX_INITIAL_MEM_RATE: u32 = 65535;

/// Largest number of linear-memory pages a module may ask for.
pub const MAX_MEMORY_PAGES: u32 = 16384;

/// Bytes in one page of linear memory.
pub const PAGE_SIZE: usize = 65536;

/// Costs and limits for one call, supplied by the embedder and never changed.
#[derive(Clone, Copy, Debug)]
pub struct ResourceSchedule {
    /// Numerator of the native-to-internal gas ratio.
    pub opcodes_mul: u32,
    /// Denominator of the native-to-internal gas ratio.
    pub opcodes_div: u32,
    /// Internal gas charged per initial memory page before execution.
    pub initial_mem: u32,
    /// Most function imports a module may declare.
    pub max_imports: u32,
    /// Most linear-memory pages a module may declare.
    pub max_memory_pages: u32,
    /// Deepest nesting of calls that may still start another call.
    pub max_depth: u32,
    /// Base internal gas of every host call.
    pub regular: u32,
    /// Internal gas per byte copied between linear memory and the host.
    pub mem_copy: u32,
    /// Internal gas of a storage read.
    pub sload: u32,
    /// Internal gas of a storage write.
    pub sstore: u32,
    /// Internal gas of a self-destruct.
    pub suicide: u32,
    /// Internal gas of starting a nested call.
    pub call: u32,
}

impl ResourceSchedule {
    /// The bounds that keep every conversion and static charge in range.
    pub open spec fn wf(&self) -> bool {
        &&& self.opcodes_mul > 0
        &&& self.opcodes_div > 0
        &&& self.initial_mem <= MAX_INITIAL_MEM_RATE
        &&& self.max_memory_pages <= MAX_MEMORY_PAGES
    }

    /// Accepts exactly the schedules that satisfy `wf`.
    pub fn validate(&self) -> (r: Result<(), Error>)
        ensures
            r.is_ok() <==> self.wf(),
            r.is_err() ==> r == Err::<(), Error>(Error::InvalidSchedule),
    {
        if self.opcodes_mul > 0 && self.opcodes_div > 0 && self.initial_mem <= MAX_INITIAL_MEM_RATE
            && self.max_memory_pages <= MAX_MEMORY_PAGES {
            Ok(())
        } else {
            Err(Error::InvalidSchedule)
        }
    }
}

} // verus!
