//! How a call can fail.

use vstd::prelude::*;

verus! {

/// Every way in which a call fails; none of them leaves durable effects.
#[derive(Clone, Copy, Debug, PartialEq, Eq, Structural)]
pub enum Error {
    /// The module's structure or entry-point signature is invalid, or it
    /// asks for more memory than allowed.
    MalformedModule,
    /// An import names no host function, has the wrong signature, or the
    /// module declares more imports than the cap allows.
    UnresolvedImport,
    /// The budget does not fit in the internal 64-bit counter.
    GasConversionOverflow,
    /// The internal budget ran out.
    OutOfGas,
    /// A host call referred to bytes outside linear memory.
    MemoryAccessFault,
    /// Any other fault inside the sandbox.
    ExecutionFault,
    /// The resource schedule could let the engine's arithmetic overflow.
    InvalidSchedule,
}

} // verus!
