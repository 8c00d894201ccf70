//! Classifying how the entry point ended and assembling the call's result.

use vstd::prelude::*;
use crate::error::Error;
use crate::gas::{native_gas, to_native};
use crate::runtime::{Runtime, Trap};
use crate::host::{host_cost, copy_cost};
use crate::schedule::ResourceSchedule;
use crate::uint::Uint256;

verus! {

/// How the entry point ended.
#[derive(Clone, Copy, Debug, PartialEq, Eq, Structural)]
pub enum Invocation {
    /// It returned normally.
    Completed,
    /// A host call or the interpreter stopped it.
    Trapped(Trap),
}

/// The result of a successful call.
#[derive(Clone, Debug)]
pub enum GasLeft {
    /// Native gas left, with no payload.
    Known(Uint256),
    /// Native gas left and a payload; `apply_state` tells the caller to keep
    /// the call's effects.
    NeedsReturn { gas_left: Uint256, data: Vec<u8>, apply_state: bool },
}

/// The error a fault surfaces as: faults the runtime raises keep their
/// kind, anything else is an execution fault.
pub open spec fn fault_error(e: Error) -> Error {
    match e {
        Error::OutOfGas => Error::OutOfGas,
        Error::MemoryAccessFault => Error::MemoryAccessFault,
        _ => Error::ExecutionFault,
    }
}

/// Maps a fault to the error it surfaces as.
pub fn to_fault_error(e: Error) -> (r: Error)
    ensures
        r == fault_error(e),
{
    match e {
        Error::OutOfGas => Error::OutOfGas,
        Error::MemoryAccessFault => Error::MemoryAccessFault,
        _ => Error::ExecutionFault,
    }
}

/// Whether `r` is the result for an entry point that ended as `inv` with
/// `left` internal gas and `staged` as the halt-with-return payload.
pub open spec fn assembled(
    r: Result<GasLeft, Error>,
    left: u64,
    staged: Seq<u8>,
    inv: Invocation,
    s: ResourceSchedule,
) -> bool {
    match inv {
        Invocation::Completed => match r {
            Ok(GasLeft::Known(g)) => g.value() == native_gas(left as nat, s),
            _ => false,
        },
        Invocation::Trapped(Trap::Return) => match r {
            Ok(GasLeft::NeedsReturn { gas_left, data, apply_state }) => gas_left.value()
                == native_gas(left as nat, s) && data@ == staged && apply_state,
            _ => false,
        },
        Invocation::Trapped(Trap::Suicide) => match r {
            Ok(GasLeft::NeedsReturn { gas_left, data, apply_state }) => gas_left.value()
                == native_gas(left as nat, s) && data@.len() == 0 && apply_state,
            _ => false,
        },
        Invocation::Trapped(Trap::Fault(e)) => r == Err::<GasLeft, Error>(fault_error(e)),
    }
}

/// Turns how the entry point ended into the call's result: a normal return
/// gives the remaining gas, a halt-with-return also the staged payload, a
/// self-destruct an empty payload, and a fault its error.
pub fn assemble(left: u64, staged: Vec<u8>, inv: Invocation, schedule: &ResourceSchedule) -> (r:
    Result<GasLeft, Error>)
    requires
        schedule.wf(),
    ensures
        assembled(r, left, staged@, inv, *schedule),
{
    match inv {
        Invocation::Completed => Ok(GasLeft::Known(to_native(left, schedule))),
        Invocation::Trapped(Trap::Return) => Ok(
            GasLeft::NeedsReturn {
                gas_left: to_native(left, schedule),
                data: staged,
                apply_state: true,
            },
        ),
        Invocation::Trapped(Trap::Suicide) => Ok(
            GasLeft::NeedsReturn {
                gas_left: to_native(left, schedule),
                data: Vec::new(),
                apply_state: true,
            },
        ),
        Invocation::Trapped(Trap::Fault(e)) => Err(to_fault_error(e)),
    }
}

/// A halt-with-return ends the call successfully with the staged payload,
/// the remaining gas in native units, and the apply-state flag set.
pub proof fn lemma_halt_returns_payload(
    r: Result<GasLeft, Error>,
    left: u64,
    staged: Seq<u8>,
    s: ResourceSchedule,
)
    requires
        assembled(r, left, staged, Invocation::Trapped(Trap::Return), s),
    ensures
        r matches Ok(GasLeft::NeedsReturn { gas_left, data, apply_state }) && data@ == staged
            && apply_state && gas_left.value() == native_gas(left as nat, s),
{
}

/// A self-destruct ends the call successfully with an empty payload and the
/// remaining gas in native units, whatever had been staged.
pub proof fn lemma_suicide_returns_nothing(
    r: Result<GasLeft, Error>,
    left: u64,
    staged: Seq<u8>,
    s: ResourceSchedule,
)
    requires
        assembled(r, left, staged, Invocation::Trapped(Trap::Suicide), s),
    ensures
        r matches Ok(GasLeft::NeedsReturn { gas_left, data, apply_state }) && data@.len() == 0
            && apply_state && gas_left.value() == native_gas(left as nat, s),
{
}

/// No fault is ever assembled into a success, and only the runtime's own
/// fault kinds come out.
pub proof fn lemma_fault_is_error(
    r: Result<GasLeft, Error>,
    left: u64,
    staged: Seq<u8>,
    e: Error,
    s: ResourceSchedule,
)
    requires
        assembled(r, left, staged, Invocation::Trapped(Trap::Fault(e)), s),
    ensures
        r == Err::<GasLeft, Error>(fault_error(e)),
        r matches Err(k) && (k == Error::OutOfGas || k == Error::MemoryAccessFault || k
            == Error::ExecutionFault),
{
}

/// A halt-with-return that succeeds, as `Runtime::ret` states it, ends the
/// call with exactly the bytes it named as payload, the apply-state flag
/// set, and the gas left after its charge, converted at the schedule's ratio.
pub proof fn lemma_ret_ends_call(
    before: Runtime,
    after: Runtime,
    ptr: u32,
    len: u32,
    r: Result<GasLeft, Error>,
)
    requires
        before.ret_outcome(ptr, len) == Trap::Return,
        after.result@ == before.memory@.subrange(ptr as int, ptr + len),
        after.gas.left == before.gas.left - host_cost(
            before.schedule,
            copy_cost(before.schedule, len as nat),
        ),
        assembled(r, after.gas.left, after.result@, Invocation::Trapped(Trap::Return), before.schedule),
    ensures
        r matches Ok(GasLeft::NeedsReturn { gas_left, data, apply_state }) && data@
            == before.memory@.subrange(ptr as int, ptr + len) && apply_state && gas_left.value()
            == native_gas(
            (before.gas.left - host_cost(before.schedule, copy_cost(before.schedule, len as nat)))
                as nat,
            before.schedule,
        ),
{
}

} // verus!
