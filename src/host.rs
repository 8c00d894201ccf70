//! Host functions: each decodes its arguments from linear memory, charges
//! its cost, then reaches the blockchain through `Ext`. A halt-with-return
//! or a self-destruct stops the module through a `Trap`.

use vstd::prelude::*;
use crate::error::Error;
use crate::module::{HostFn, host_params};
use crate::runtime::{
    CallResult, Ext, Runtime, Trap, write_bytes, in_bounds, ADDRESS_LEN, WORD_LEN, MAX_TOPICS, CALL_OK,
    CALL_FAILED,
};
use crate::uint::be_bytes_of_words;

verus! {

/// Arguments `from..n` of an `n`-argument call are 32-bit values.
pub open spec fn args32(args: Seq<u64>, from: int, n: nat) -> bool {
    &&& args.len() == n
    &&& forall|i: int| from <= i < n ==> args[i] <= u32::MAX
}

/// The smaller of two lengths.
pub open spec fn min_len(a: nat, b: nat) -> nat {
    if a <= b {
        a
    } else {
        b
    }
}

/// Number of parameters of a host function.
fn host_param_count(f: HostFn) -> (r: usize)
    ensures
        r == host_params(f).len(),
{
    crate::module::host_signature(f).params.len()
}

/// Internal gas of a host call: the base cost plus `extra`.
pub open spec fn host_cost(s: crate::schedule::ResourceSchedule, extra: nat) -> nat {
    s.regular as nat + extra
}

/// Internal gas of copying `len` bytes.
pub open spec fn copy_cost(s: crate::schedule::ResourceSchedule, len: nat) -> nat {
    len * s.mem_copy as nat
}

/// Reads argument `i` as a 32-bit value.
fn arg32(args: &Vec<u64>, i: usize) -> (r: Result<u32, Trap>)
    requires
        i < args@.len(),
    ensures
        args@[i as int] <= u32::MAX ==> r == Ok::<u32, Trap>(args@[i as int] as u32),
        args@[i as int] > u32::MAX ==> r == Err::<u32, Trap>(Trap::Fault(Error::ExecutionFault)),
{
    if args[i] > 0xffff_ffffu64 {
        Err(Trap::Fault(Error::ExecutionFault))
    } else {
        Ok(args[i] as u32)
    }
}

impl Runtime {
    /// The single entry for host calls: runs host function `f` on `args`
    /// (32-bit arguments as their unsigned value) and gives its result, if it
    /// has one. Only `ret` stops the module with `Trap::Return` and only
    /// `suicide` with `Trap::Suicide`.
    pub fn invoke<E: Ext>(&mut self, ext: &mut E, f: HostFn, args: &Vec<u64>) -> (r: Result<
        Option<u64>,
        Trap,
    >)
        ensures
            f == HostFn::Value && args32(args@, 0, 1) && host_cost(old(self).schedule, 0) <= old(
                self,
            ).gas.left && old(self).fits(args@[0] as u32, WORD_LEN as nat) ==> r == Ok::<
                Option<u64>,
                Trap,
            >(None) && final(self).memory@ == write_bytes(
                old(self).memory@,
                args@[0] as int,
                be_bytes_of_words(old(self).context.value.words@),
            ),
            f == HostFn::Address && args32(args@, 0, 1) && host_cost(old(self).schedule, 0) <= old(
                self,
            ).gas.left && old(self).fits(args@[0] as u32, old(self).context.address@.len()) ==> r
                == Ok::<Option<u64>, Trap>(None) && final(self).memory@ == write_bytes(
                old(self).memory@,
                args@[0] as int,
                old(self).context.address@,
            ),
            f == HostFn::Sender && args32(args@, 0, 1) && host_cost(old(self).schedule, 0) <= old(
                self,
            ).gas.left && old(self).fits(args@[0] as u32, old(self).context.sender@.len()) ==> r
                == Ok::<Option<u64>, Trap>(None) && final(self).memory@ == write_bytes(
                old(self).memory@,
                args@[0] as int,
                old(self).context.sender@,
            ),
            f == HostFn::Origin && args32(args@, 0, 1) && host_cost(old(self).schedule, 0) <= old(
                self,
            ).gas.left && old(self).fits(args@[0] as u32, old(self).context.origin@.len()) ==> r
                == Ok::<Option<u64>, Trap>(None) && final(self).memory@ == write_bytes(
                old(self).memory@,
                args@[0] as int,
                old(self).context.origin@,
            ),
            f == HostFn::InputLength && args@.len() == 0 && host_cost(old(self).schedule, 0) <= old(
                self,
            ).gas.left && old(self).input@.len() <= u32::MAX ==> r == Ok::<Option<u64>, Trap>(
                Some(old(self).input@.len() as u64),
            ),
            f == HostFn::FetchInput && args32(args@, 0, 1) && old(self).input@.len() <= u32::MAX
                && host_cost(old(self).schedule, copy_cost(old(self).schedule, old(self).input@.len()))
                <= old(self).gas.left && old(self).fits(args@[0] as u32, old(self).input@.len()) ==> r
                == Ok::<Option<u64>, Trap>(None) && final(self).memory@ == write_bytes(
                old(self).memory@,
                args@[0] as int,
                old(self).input@,
            ),
            f == HostFn::Balance && args32(args@, 0, 2) && old(self).fits(
                args@[0] as u32,
                ADDRESS_LEN as nat,
            ) && old(self).fits(args@[1] as u32, WORD_LEN as nat) && host_cost(old(self).schedule, 0)
                <= old(self).gas.left ==> r == Ok::<Option<u64>, Trap>(None),
            f == HostFn::StorageWrite && args32(args@, 0, 2) && old(self).fits(
                args@[0] as u32,
                WORD_LEN as nat,
            ) && old(self).fits(args@[1] as u32, WORD_LEN as nat) && host_cost(
                old(self).schedule,
                old(self).schedule.sstore as nat,
            ) <= old(self).gas.left ==> r == Ok::<Option<u64>, Trap>(None),
            f == HostFn::Elog && args32(args@, 0, 4) && old(self).elog_ok(
                args@[0] as u32,
                args@[1] as u32,
                args@[2] as u32,
                args@[3] as u32,
            ) ==> r == Ok::<Option<u64>, Trap>(None),
            f == HostFn::Ccall && args32(args@, 1, 7) && old(self).ccall_fits(
                args@[1] as u32,
                args@[2] as u32,
                args@[3] as u32,
                args@[4] as u32,
            ) && host_cost(old(self).schedule, old(self).schedule.call as nat) <= old(self).gas.left
                && old(self).context.depth >= old(self).schedule.max_depth ==> r == Ok::<
                Option<u64>,
                Trap,
            >(Some(CALL_FAILED)) && final(self).memory == old(self).memory && *final(ext) == *old(
                ext,
            ),
            final(self).gas.left <= old(self).gas.left,
            args@.len() != host_params(f).len() ==> r == Err::<Option<u64>, Trap>(
                Trap::Fault(Error::ExecutionFault),
            ),
            r == Err::<Option<u64>, Trap>(Trap::Return) ==> f == HostFn::Ret,
            r == Err::<Option<u64>, Trap>(Trap::Suicide) ==> f == HostFn::Suicide,
            f == HostFn::Ret && args@.len() == 2 && args@[0] <= u32::MAX && args@[1] <= u32::MAX
                ==> r == Err::<Option<u64>, Trap>(
                old(self).ret_outcome(args@[0] as u32, args@[1] as u32),
            ),
            f == HostFn::Ret && args@.len() == 2 && args@[0] <= u32::MAX && args@[1] <= u32::MAX
                && r == Err::<Option<u64>, Trap>(Trap::Return) ==> final(self).result@ == old(
                self,
            ).memory@.subrange(args@[0] as int, args@[0] + args@[1]),
            f == HostFn::Suicide && args@.len() == 1 && args@[0] <= u32::MAX ==> r == Err::<
                Option<u64>,
                Trap,
            >(old(self).suicide_outcome(args@[0] as u32)),
            f == HostFn::Suicide && r == Err::<Option<u64>, Trap>(Trap::Suicide) ==> final(self).result@.len()
                == 0,
            f == HostFn::Gas && args@.len() == 1 && args@[0] <= old(self).gas.left && args@[0]
                <= u32::MAX ==> r == Ok::<Option<u64>, Trap>(None) && final(self).gas.left == old(
                self,
            ).gas.left - args@[0],
            f == HostFn::Gas && args@.len() == 1 && old(self).gas.left < args@[0] <= u32::MAX ==> r
                == Err::<Option<u64>, Trap>(Trap::Fault(Error::OutOfGas)) && final(self).gas.left
                == 0,
    {
        if args.len() != host_param_count(f) {
            return Err(Trap::Fault(Error::ExecutionFault));
        }
        match f {
            HostFn::StorageRead => {
                let a = arg32(args, 0)?;
                let b = arg32(args, 1)?;
                self.storage_read(ext, a, b)?;
                Ok(None)
            },
            HostFn::StorageWrite => {
                let a = arg32(args, 0)?;
                let b = arg32(args, 1)?;
                self.storage_write(ext, a, b)?;
                Ok(None)
            },
            HostFn::Balance => {
                let a = arg32(args, 0)?;
                let b = arg32(args, 1)?;
                self.balance(ext, a, b)?;
                Ok(None)
            },
            HostFn::Ret => {
                let a = arg32(args, 0)?;
                let b = arg32(args, 1)?;
                Err(self.ret(a, b))
            },
            HostFn::Suicide => {
                let a = arg32(args, 0)?;
                Err(self.suicide(ext, a))
            },
            HostFn::Gas => {
                let a = arg32(args, 0)?;
                self.gas(a)?;
                Ok(None)
            },
            HostFn::Value => {
                let a = arg32(args, 0)?;
                self.value(a)?;
                Ok(None)
            },
            HostFn::Address => {
                let a = arg32(args, 0)?;
                self.address(a)?;
                Ok(None)
            },
            HostFn::Sender => {
                let a = arg32(args, 0)?;
                self.sender(a)?;
                Ok(None)
            },
            HostFn::Origin => {
                let a = arg32(args, 0)?;
                self.origin(a)?;
                Ok(None)
            },
            HostFn::InputLength => {
                let n = self.input_length()?;
                Ok(Some(n))
            },
            HostFn::FetchInput => {
                let a = arg32(args, 0)?;
                self.fetch_input(a)?;
                Ok(None)
            },
            HostFn::Blockhash => {
                let b = arg32(args, 1)?;
                self.blockhash(ext, args[0], b)?;
                Ok(None)
            },
            HostFn::Blocknumber => {
                let cost = self.base_plus(0);
                self.charge(cost)?;
                Ok(Some(ext.block_number()))
            },
            HostFn::Timestamp => {
                let cost = self.base_plus(0);
                self.charge(cost)?;
                Ok(Some(ext.timestamp()))
            },
            HostFn::Coinbase => {
                let a = arg32(args, 0)?;
                self.coinbase(ext, a)?;
                Ok(None)
            },
            HostFn::Elog => {
                let a = arg32(args, 0)?;
                let b = arg32(args, 1)?;
                let c = arg32(args, 2)?;
                let d = arg32(args, 3)?;
                self.elog(ext, a, b, c, d)?;
                Ok(None)
            },
            HostFn::Ccall => {
                let a = arg32(args, 1)?;
                let b = arg32(args, 2)?;
                let c = arg32(args, 3)?;
                let d = arg32(args, 4)?;
                let e = arg32(args, 5)?;
                let g = arg32(args, 6)?;
                let status = self.ccall(ext, args[0], a, b, c, d, e, g)?;
                Ok(Some(status))
            },
        }
    }

    /// How `ret(ptr, len)` ends on this runtime.
    pub open spec fn ret_outcome(&self, ptr: u32, len: u32) -> Trap {
        if !in_bounds(self.memory@.len(), ptr as nat, len as nat) {
            Trap::Fault(Error::MemoryAccessFault)
        } else if host_cost(self.schedule, copy_cost(self.schedule, len as nat)) > self.gas.left {
            Trap::Fault(Error::OutOfGas)
        } else {
            Trap::Return
        }
    }

    /// How `suicide(ptr)` ends on this runtime.
    pub open spec fn suicide_outcome(&self, ptr: u32) -> Trap {
        if !in_bounds(self.memory@.len(), ptr as nat, ADDRESS_LEN as nat) {
            Trap::Fault(Error::MemoryAccessFault)
        } else if host_cost(self.schedule, self.schedule.suicide as nat) > self.gas.left {
            Trap::Fault(Error::OutOfGas)
        } else {
            Trap::Suicide
        }
    }

    fn base_plus(&self, extra: u32) -> (r: u64)
        ensures
            r == host_cost(self.schedule, extra as nat),
    {
        self.schedule.regular as u64 + extra as u64
    }

    fn base_plus_copy(&self, len: u32) -> (r: u64)
        ensures
            r == host_cost(self.schedule, copy_cost(self.schedule, len as nat)),
    {
        let l = len as u64;
        let m = self.schedule.mem_copy as u64;
        assert(l * m <= 0xffff_ffff * 0xffff_ffff) by (nonlinear_arith)
            requires
                l <= 0xffff_ffff,
                m <= 0xffff_ffff,
        ;
        self.schedule.regular as u64 + l * m
    }

    /// Halt-with-return: stages the `len` bytes at `ptr` as the call's
    /// result and stops the module with `Trap::Return`.
    pub fn ret(&mut self, ptr: u32, len: u32) -> (r: Trap)
        ensures
            final(self).gas.left <= old(self).gas.left,
            !in_bounds(old(self).memory@.len(), ptr as nat, len as nat) ==> r == Trap::Fault(
                Error::MemoryAccessFault,
            ),
            in_bounds(old(self).memory@.len(), ptr as nat, len as nat) && host_cost(
                old(self).schedule,
                copy_cost(old(self).schedule, len as nat),
            ) > old(self).gas.left ==> r == Trap::Fault(Error::OutOfGas) && final(self).gas.left
                == 0,
            in_bounds(old(self).memory@.len(), ptr as nat, len as nat) && host_cost(
                old(self).schedule,
                copy_cost(old(self).schedule, len as nat),
            ) <= old(self).gas.left ==> r == Trap::Return && final(self).result@ == old(
                self,
            ).memory@.subrange(ptr as int, ptr + len) && final(self).gas.left == old(self).gas.left
                - host_cost(old(self).schedule, copy_cost(old(self).schedule, len as nat)),
            final(self).memory == old(self).memory,
    {
        let data = match self.memory_get(ptr, len) {
            Ok(d) => d,
            Err(t) => {
                return t;
            },
        };
        let cost = self.base_plus_copy(len);
        match self.charge(cost) {
            Ok(()) => {},
            Err(t) => {
                return t;
            },
        }
        self.result = data;
        Trap::Return
    }

    /// Self-destruct: reads the beneficiary address at `ptr`, charges, asks
    /// `ext` to remove the account, and stops the module with
    /// `Trap::Suicide` and an empty payload.
    pub fn suicide<E: Ext>(&mut self, ext: &mut E, ptr: u32) -> (r: Trap)
        ensures
            !(in_bounds(old(self).memory@.len(), ptr as nat, ADDRESS_LEN as nat) && host_cost(
                old(self).schedule,
                old(self).schedule.suicide as nat,
            ) <= old(self).gas.left) ==> *final(ext) == *old(ext),
            final(self).gas.left <= old(self).gas.left,
            !in_bounds(old(self).memory@.len(), ptr as nat, ADDRESS_LEN as nat) ==> r
                == Trap::Fault(Error::MemoryAccessFault),
            in_bounds(old(self).memory@.len(), ptr as nat, ADDRESS_LEN as nat) && host_cost(
                old(self).schedule,
                old(self).schedule.suicide as nat,
            ) > old(self).gas.left ==> r == Trap::Fault(Error::OutOfGas) && final(self).gas.left
                == 0,
            in_bounds(old(self).memory@.len(), ptr as nat, ADDRESS_LEN as nat) && host_cost(
                old(self).schedule,
                old(self).schedule.suicide as nat,
            ) <= old(self).gas.left ==> r == Trap::Suicide && final(self).result@.len() == 0
                && final(self).gas.left == old(self).gas.left - host_cost(
                old(self).schedule,
                old(self).schedule.suicide as nat,
            ),
            final(self).memory == old(self).memory,
    {
        let beneficiary = match self.memory_get(ptr, ADDRESS_LEN) {
            Ok(d) => d,
            Err(t) => {
                return t;
            },
        };
        let cost = self.base_plus(self.schedule.suicide);
        match self.charge(cost) {
            Ok(()) => {},
            Err(t) => {
                return t;
            },
        }
        ext.suicide(&beneficiary);
        self.result = Vec::new();
        Trap::Suicide
    }

    /// Charges `amount` internal gas on the module's own request.
    pub fn gas(&mut self, amount: u32) -> (r: Result<(), Trap>)
        ensures
            final(self).gas.left <= old(self).gas.left,
            r.is_err() ==> r matches Err(Trap::Fault(_)),
            final(self).same_but_gas(*old(self)),
            amount <= old(self).gas.left ==> r.is_ok() && final(self).gas.left == old(
                self,
            ).gas.left - amount,
            amount > old(self).gas.left ==> r == Err::<(), Trap>(Trap::Fault(Error::OutOfGas))
                && final(self).gas.left == 0,
    {
        self.charge(amount as u64)
    }

    /// Charges the base cost, then writes `data` at `ptr`.
    fn charged_write(&mut self, ptr: u32, data: &Vec<u8>) -> (r: Result<(), Trap>)
        ensures
            final(self).gas.left <= old(self).gas.left,
            r.is_err() ==> r matches Err(Trap::Fault(_)),
            host_cost(old(self).schedule, 0) > old(self).gas.left ==> r == Err::<(), Trap>(
                Trap::Fault(Error::OutOfGas),
            ) && final(self).memory == old(self).memory,
            host_cost(old(self).schedule, 0) <= old(self).gas.left && !in_bounds(
                old(self).memory@.len(),
                ptr as nat,
                data@.len(),
            ) ==> r == Err::<(), Trap>(Trap::Fault(Error::MemoryAccessFault)) && final(self).memory
                == old(self).memory,
            host_cost(old(self).schedule, 0) <= old(self).gas.left && in_bounds(
                old(self).memory@.len(),
                ptr as nat,
                data@.len(),
            ) ==> r.is_ok() && final(self).memory@ == write_bytes(
                old(self).memory@,
                ptr as int,
                data@,
            ) && final(self).gas.left == old(self).gas.left - host_cost(old(self).schedule, 0),
            final(self).result == old(self).result,
            final(self).schedule == old(self).schedule,
            final(self).context == old(self).context,
            final(self).input == old(self).input,
    {
        let cost = self.base_plus(0);
        self.charge(cost)?;
        self.memory_set(ptr, data)
    }

    /// Writes the 32-byte big-endian transferred value at `ptr`.
    pub fn value(&mut self, ptr: u32) -> (r: Result<(), Trap>)
        ensures
            final(self).gas.left <= old(self).gas.left,
            r.is_ok() ==> final(self).gas.left == old(self).gas.left - host_cost(old(self).schedule, 0),
            r.is_err() ==> r matches Err(Trap::Fault(_)),
            host_cost(old(self).schedule, 0) <= old(self).gas.left && in_bounds(
                old(self).memory@.len(),
                ptr as nat,
                WORD_LEN as nat,
            ) ==> r.is_ok() && final(self).memory@ == write_bytes(
                old(self).memory@,
                ptr as int,
                be_bytes_of_words(old(self).context.value.words@),
            ),
            r.is_err() ==> final(self).memory == old(self).memory,
    {
        let bytes = self.context.value.to_be_bytes();
        self.charged_write(ptr, &bytes)
    }

    /// Writes this contract's address at `ptr`.
    pub fn address(&mut self, ptr: u32) -> (r: Result<(), Trap>)
        ensures
            final(self).gas.left <= old(self).gas.left,
            r.is_ok() ==> final(self).gas.left == old(self).gas.left - host_cost(old(self).schedule, 0),
            r.is_err() ==> r matches Err(Trap::Fault(_)),
            host_cost(old(self).schedule, 0) <= old(self).gas.left && in_bounds(
                old(self).memory@.len(),
                ptr as nat,
                old(self).context.address@.len(),
            ) ==> r.is_ok() && final(self).memory@ == write_bytes(
                old(self).memory@,
                ptr as int,
                old(self).context.address@,
            ),
            r.is_err() ==> final(self).memory == old(self).memory,
    {
        let bytes = self.context.address.clone();
        self.charged_write(ptr, &bytes)
    }

    /// Writes the caller's address at `ptr`.
    pub fn sender(&mut self, ptr: u32) -> (r: Result<(), Trap>)
        ensures
            final(self).gas.left <= old(self).gas.left,
            r.is_ok() ==> final(self).gas.left == old(self).gas.left - host_cost(old(self).schedule, 0),
            r.is_err() ==> r matches Err(Trap::Fault(_)),
            host_cost(old(self).schedule, 0) <= old(self).gas.left && in_bounds(
                old(self).memory@.len(),
                ptr as nat,
                old(self).context.sender@.len(),
            ) ==> r.is_ok() && final(self).memory@ == write_bytes(
                old(self).memory@,
                ptr as int,
                old(self).context.sender@,
            ),
            r.is_err() ==> final(self).memory == old(self).memory,
    {
        let bytes = self.context.sender.clone();
        self.charged_write(ptr, &bytes)
    }

    /// Writes the transaction origin's address at `ptr`.
    pub fn origin(&mut self, ptr: u32) -> (r: Result<(), Trap>)
        ensures
            final(self).gas.left <= old(self).gas.left,
            r.is_ok() ==> final(self).gas.left == old(self).gas.left - host_cost(old(self).schedule, 0),
            r.is_err() ==> r matches Err(Trap::Fault(_)),
            host_cost(old(self).schedule, 0) <= old(self).gas.left && in_bounds(
                old(self).memory@.len(),
                ptr as nat,
                old(self).context.origin@.len(),
            ) ==> r.is_ok() && final(self).memory@ == write_bytes(
                old(self).memory@,
                ptr as int,
                old(self).context.origin@,
            ),
            r.is_err() ==> final(self).memory == old(self).memory,
    {
        let bytes = self.context.origin.clone();
        self.charged_write(ptr, &bytes)
    }

    /// Length of the call's input.
    pub fn input_length(&mut self) -> (r: Result<u64, Trap>)
        ensures
            final(self).gas.left <= old(self).gas.left,
            r.is_err() ==> r matches Err(Trap::Fault(_)),
            host_cost(old(self).schedule, 0) <= old(self).gas.left && old(self).input@.len()
                <= u32::MAX ==> r == Ok::<u64, Trap>(old(self).input@.len() as u64),
            old(self).input@.len() > u32::MAX ==> r.is_err(),
            final(self).memory == old(self).memory,
    {
        let cost = self.base_plus(0);
        self.charge(cost)?;
        if self.input.len() > 0xffff_ffffusize {
            return Err(Trap::Fault(Error::ExecutionFault));
        }
        Ok(self.input.len() as u64)
    }

    /// Copies the call's input to `ptr`.
    pub fn fetch_input(&mut self, ptr: u32) -> (r: Result<(), Trap>)
        ensures
            final(self).gas.left <= old(self).gas.left,
            r.is_err() ==> r matches Err(Trap::Fault(_)),
            old(self).input@.len() <= u32::MAX && host_cost(
                old(self).schedule,
                copy_cost(old(self).schedule, old(self).input@.len()),
            ) <= old(self).gas.left && in_bounds(
                old(self).memory@.len(),
                ptr as nat,
                old(self).input@.len(),
            ) ==> r.is_ok() && final(self).memory@ == write_bytes(
                old(self).memory@,
                ptr as int,
                old(self).input@,
            ),
            r.is_err() ==> final(self).memory == old(self).memory,
    {
        if self.input.len() > 0xffff_ffffusize {
            return Err(Trap::Fault(Error::ExecutionFault));
        }
        let cost = self.base_plus_copy(self.input.len() as u32);
        self.charge(cost)?;
        let data = self.input.clone();
        self.memory_set(ptr, &data)
    }

    /// Whether `len` bytes at `ptr` lie inside linear memory.
    pub open spec fn fits(&self, ptr: u32, len: nat) -> bool {
        in_bounds(self.memory@.len(), ptr as nat, len)
    }

    /// Writes a host answer at `ptr` when it has the expected length `len`.
    pub fn checked_write(&mut self, ptr: u32, data: &Vec<u8>, len: u32) -> (r: Result<(), Trap>)
        ensures
            data@.len() != len ==> r == Err::<(), Trap>(Trap::Fault(Error::ExecutionFault)),
            data@.len() == len && !old(self).fits(ptr, len as nat) ==> r == Err::<(), Trap>(
                Trap::Fault(Error::MemoryAccessFault),
            ),
            data@.len() == len && old(self).fits(ptr, len as nat) ==> r == Ok::<(), Trap>(())
                && final(self).memory@ == write_bytes(old(self).memory@, ptr as int, data@),
            r.is_err() ==> final(self).memory == old(self).memory,
            final(self).gas == old(self).gas,
            final(self).result == old(self).result,
            final(self).context == old(self).context,
            final(self).input == old(self).input,
            final(self).schedule == old(self).schedule,
    {
        if data.len() != len as usize {
            return Err(Trap::Fault(Error::ExecutionFault));
        }
        match self.memory_set(ptr, data) {
            Ok(()) => Ok(()),
            Err(t) => Err(t),
        }
    }

    /// Reads the 32-byte key at `key_ptr`, charges a storage read, and writes
    /// the stored 32-byte value at `val_ptr`.
    pub fn storage_read<E: Ext>(&mut self, ext: &mut E, key_ptr: u32, val_ptr: u32) -> (r: Result<
        (),
        Trap,
    >)
        ensures
            r.is_err() ==> r matches Err(Trap::Fault(_)),
            *final(ext) == *old(ext),
            final(self).gas.left <= old(self).gas.left,
            !old(self).fits(key_ptr, WORD_LEN as nat) ==> r == Err::<(), Trap>(
                Trap::Fault(Error::MemoryAccessFault),
            ) && final(self).gas == old(self).gas,
            old(self).fits(key_ptr, WORD_LEN as nat) && host_cost(
                old(self).schedule,
                old(self).schedule.sload as nat,
            ) > old(self).gas.left ==> r == Err::<(), Trap>(Trap::Fault(Error::OutOfGas))
                && final(self).gas.left == 0,
            old(self).fits(key_ptr, WORD_LEN as nat) && host_cost(
                old(self).schedule,
                old(self).schedule.sload as nat,
            ) <= old(self).gas.left ==> final(self).gas.left == old(self).gas.left - host_cost(
                old(self).schedule,
                old(self).schedule.sload as nat,
            ),
            r.is_ok() ==> exists|v: Seq<u8>|
                v.len() == WORD_LEN && final(self).memory@ == #[trigger] write_bytes(
                    old(self).memory@,
                    val_ptr as int,
                    v,
                ),
            r.is_err() ==> final(self).memory == old(self).memory,
    {
        let key = self.memory_get(key_ptr, WORD_LEN)?;
        let cost = self.base_plus(self.schedule.sload);
        self.charge(cost)?;
        let value = ext.storage_at(&key);
        self.checked_write(val_ptr, &value, WORD_LEN)
    }

    /// Reads a 32-byte key and value from memory, charges a storage write, and
    /// hands both to `ext`.
    pub fn storage_write<E: Ext>(&mut self, ext: &mut E, key_ptr: u32, val_ptr: u32) -> (r:
        Result<(), Trap>)
        ensures
            r.is_err() ==> r matches Err(Trap::Fault(_)),
            r.is_err() ==> *final(ext) == *old(ext),
            final(self).gas.left <= old(self).gas.left,
            !old(self).fits(key_ptr, WORD_LEN as nat) || !old(self).fits(val_ptr, WORD_LEN as nat)
                ==> r == Err::<(), Trap>(Trap::Fault(Error::MemoryAccessFault)) && final(self).gas
                == old(self).gas,
            old(self).fits(key_ptr, WORD_LEN as nat) && old(self).fits(val_ptr, WORD_LEN as nat)
                && host_cost(old(self).schedule, old(self).schedule.sstore as nat) > old(
                self,
            ).gas.left ==> r == Err::<(), Trap>(Trap::Fault(Error::OutOfGas)) && final(self).gas.left == 0,
            old(self).fits(key_ptr, WORD_LEN as nat) && old(self).fits(val_ptr, WORD_LEN as nat)
                && host_cost(old(self).schedule, old(self).schedule.sstore as nat) <= old(
                self,
            ).gas.left ==> r == Ok::<(), Trap>(()) && final(self).gas.left == old(self).gas.left
                - host_cost(old(self).schedule, old(self).schedule.sstore as nat),
            final(self).memory == old(self).memory,
    {
        let key = self.memory_get(key_ptr, WORD_LEN)?;
        let value = self.memory_get(val_ptr, WORD_LEN)?;
        let cost = self.base_plus(self.schedule.sstore);
        self.charge(cost)?;
        ext.set_storage(key, value);
        Ok(())
    }

    /// Reads an address at `addr_ptr`, charges, and writes its 32-byte
    /// big-endian balance at `out_ptr`.
    pub fn balance<E: Ext>(&mut self, ext: &mut E, addr_ptr: u32, out_ptr: u32) -> (r: Result<
        (),
        Trap,
    >)
        ensures
            r.is_err() ==> r matches Err(Trap::Fault(_)),
            *final(ext) == *old(ext),
            final(self).gas.left <= old(self).gas.left,
            !old(self).fits(addr_ptr, ADDRESS_LEN as nat) ==> r == Err::<(), Trap>(
                Trap::Fault(Error::MemoryAccessFault),
            ) && final(self).gas == old(self).gas,
            old(self).fits(addr_ptr, ADDRESS_LEN as nat) && host_cost(old(self).schedule, 0) > old(
                self,
            ).gas.left ==> r == Err::<(), Trap>(Trap::Fault(Error::OutOfGas)) && final(self).gas.left == 0,
            old(self).fits(addr_ptr, ADDRESS_LEN as nat) && host_cost(old(self).schedule, 0)
                <= old(self).gas.left && !old(self).fits(out_ptr, WORD_LEN as nat) ==> r == Err::<
                (),
                Trap,
            >(Trap::Fault(Error::MemoryAccessFault)),
            old(self).fits(addr_ptr, ADDRESS_LEN as nat) && host_cost(old(self).schedule, 0)
                <= old(self).gas.left && old(self).fits(out_ptr, WORD_LEN as nat) ==> r == Ok::<
                (),
                Trap,
            >(()) && final(self).gas.left == old(self).gas.left - host_cost(old(self).schedule, 0)
                && exists|v: Seq<u8>|
                v.len() == WORD_LEN && final(self).memory@ == #[trigger] write_bytes(
                    old(self).memory@,
                    out_ptr as int,
                    v,
                ),
            r.is_err() ==> final(self).memory == old(self).memory,
    {
        let address = self.memory_get(addr_ptr, ADDRESS_LEN)?;
        let cost = self.base_plus(0);
        self.charge(cost)?;
        let b = ext.balance(&address);
        let bytes = b.to_be_bytes();
        self.checked_write(out_ptr, &bytes, WORD_LEN)
    }

    /// Charges, then writes the hash of block `number` at `ptr`.
    pub fn blockhash<E: Ext>(&mut self, ext: &mut E, number: u64, ptr: u32) -> (r: Result<
        (),
        Trap,
    >)
        ensures
            r.is_err() ==> r matches Err(Trap::Fault(_)),
            *final(ext) == *old(ext),
            final(self).gas.left <= old(self).gas.left,
            host_cost(old(self).schedule, 0) > old(self).gas.left ==> r == Err::<(), Trap>(
                Trap::Fault(Error::OutOfGas),
            ) && final(self).gas.left == 0,
            host_cost(old(self).schedule, 0) <= old(self).gas.left ==> final(self).gas.left == old(
                self,
            ).gas.left - host_cost(old(self).schedule, 0),
            r.is_ok() ==> exists|v: Seq<u8>|
                v.len() == WORD_LEN && final(self).memory@ == #[trigger] write_bytes(
                    old(self).memory@,
                    ptr as int,
                    v,
                ),
            r.is_err() ==> final(self).memory == old(self).memory,
    {
        let cost = self.base_plus(0);
        self.charge(cost)?;
        let hash = ext.block_hash(number);
        self.checked_write(ptr, &hash, WORD_LEN)
    }

    /// Charges, then writes the block author's address at `ptr`.
    pub fn coinbase<E: Ext>(&mut self, ext: &mut E, ptr: u32) -> (r: Result<(), Trap>)
        ensures
            r.is_err() ==> r matches Err(Trap::Fault(_)),
            *final(ext) == *old(ext),
            final(self).gas.left <= old(self).gas.left,
            host_cost(old(self).schedule, 0) > old(self).gas.left ==> r == Err::<(), Trap>(
                Trap::Fault(Error::OutOfGas),
            ) && final(self).gas.left == 0,
            host_cost(old(self).schedule, 0) <= old(self).gas.left ==> final(self).gas.left == old(
                self,
            ).gas.left - host_cost(old(self).schedule, 0),
            r.is_ok() ==> exists|v: Seq<u8>|
                v.len() == ADDRESS_LEN && final(self).memory@ == #[trigger] write_bytes(
                    old(self).memory@,
                    ptr as int,
                    v,
                ),
            r.is_err() ==> final(self).memory == old(self).memory,
    {
        let cost = self.base_plus(0);
        self.charge(cost)?;
        let author = ext.coinbase();
        self.checked_write(ptr, &author, ADDRESS_LEN)
    }

    /// Whether `elog` with these arguments runs to completion.
    pub open spec fn elog_ok(&self, topic_ptr: u32, topic_count: u32, data_ptr: u32, data_len: u32) -> bool {
        &&& topic_count <= MAX_TOPICS
        &&& self.fits(topic_ptr, topic_count as nat * WORD_LEN as nat)
        &&& self.fits(data_ptr, data_len as nat)
        &&& host_cost(self.schedule, copy_cost(self.schedule, data_len as nat)) <= self.gas.left
    }

    /// Emits a log entry of `topic_count` 32-byte topics at `topic_ptr` and
    /// `data_len` bytes of data at `data_ptr`.
    pub fn elog<E: Ext>(
        &mut self,
        ext: &mut E,
        topic_ptr: u32,
        topic_count: u32,
        data_ptr: u32,
        data_len: u32,
    ) -> (r: Result<(), Trap>)
        ensures
            r.is_err() ==> r matches Err(Trap::Fault(_)),
            r.is_err() ==> *final(ext) == *old(ext),
            final(self).gas.left <= old(self).gas.left,
            topic_count > MAX_TOPICS ==> r == Err::<(), Trap>(Trap::Fault(Error::ExecutionFault)),
            topic_count <= MAX_TOPICS && !old(self).fits(
                topic_ptr,
                topic_count as nat * WORD_LEN as nat,
            ) ==> r == Err::<(), Trap>(Trap::Fault(Error::MemoryAccessFault)),
            topic_count <= MAX_TOPICS && old(self).fits(topic_ptr, topic_count as nat * WORD_LEN as nat)
                && !old(self).fits(data_ptr, data_len as nat) ==> r == Err::<(), Trap>(
                Trap::Fault(Error::MemoryAccessFault),
            ),
            topic_count <= MAX_TOPICS && old(self).fits(topic_ptr, topic_count as nat * WORD_LEN as nat)
                && old(self).fits(data_ptr, data_len as nat) && host_cost(
                old(self).schedule,
                copy_cost(old(self).schedule, data_len as nat),
            ) > old(self).gas.left ==> r == Err::<(), Trap>(Trap::Fault(Error::OutOfGas)) && final(self).gas.left == 0,
            old(self).elog_ok(topic_ptr, topic_count, data_ptr, data_len) ==> r == Ok::<(), Trap>(())
                && final(self).gas.left == old(self).gas.left - host_cost(
                old(self).schedule,
                copy_cost(old(self).schedule, data_len as nat),
            ),
            final(self).memory == old(self).memory,
    {
        if topic_count > MAX_TOPICS {
            return Err(Trap::Fault(Error::ExecutionFault));
        }
        let block = self.memory_get(topic_ptr, topic_count * WORD_LEN)?;
        let mut topics: Vec<Vec<u8>> = Vec::new();
        let mut i: usize = 0;
        while i < topic_count as usize
            invariant
                topic_count <= MAX_TOPICS,
                block@.len() == topic_count * WORD_LEN,
            decreases topic_count - i,
        {
            let mut t: Vec<u8> = Vec::new();
            let mut j: usize = 0;
            while j < WORD_LEN as usize
                invariant
                    i < topic_count <= MAX_TOPICS,
                    block@.len() == topic_count * WORD_LEN,
                    j <= WORD_LEN,
                decreases WORD_LEN - j,
            {
                t.push(block[i * 32 + j]);
                j = j + 1;
            }
            topics.push(t);
            i = i + 1;
        }
        let data = self.memory_get(data_ptr, data_len)?;
        let cost = self.base_plus_copy(data_len);
        self.charge(cost)?;
        ext.log(topics, data);
        Ok(())
    }

    /// Applies what a nested call reported: a refund larger than the gas
    /// forwarded is a fault; otherwise the refund is credited, the first
    /// `min(output length, result_len)` bytes of output are written at
    /// `result_ptr`, and the status says whether the call succeeded.
    pub fn apply_call_result(
        &mut self,
        forwarded: u64,
        outcome: &CallResult,
        result_ptr: u32,
        result_len: u32,
    ) -> (r: Result<u64, Trap>)
        requires
            old(self).gas.left + forwarded <= u64::MAX,
        ensures
            outcome.gas_left > forwarded ==> r == Err::<u64, Trap>(
                Trap::Fault(Error::ExecutionFault),
            ) && final(self).gas == old(self).gas && final(self).memory == old(self).memory,
            outcome.gas_left <= forwarded ==> final(self).gas.left == old(self).gas.left
                + outcome.gas_left,
            outcome.gas_left <= forwarded && !old(self).fits(
                result_ptr,
                min_len(outcome.output@.len(), result_len as nat),
            ) ==> r == Err::<u64, Trap>(Trap::Fault(Error::MemoryAccessFault)) && final(self).memory == old(self).memory,
            outcome.gas_left <= forwarded && old(self).fits(
                result_ptr,
                min_len(outcome.output@.len(), result_len as nat),
            ) ==> r == Ok::<u64, Trap>(if outcome.success { CALL_OK } else { CALL_FAILED })
                && final(self).memory@ == write_bytes(
                old(self).memory@,
                result_ptr as int,
                outcome.output@.take(min_len(outcome.output@.len(), result_len as nat) as int),
            ),
            final(self).result == old(self).result,
            final(self).context == old(self).context,
            final(self).input == old(self).input,
            final(self).schedule == old(self).schedule,
    {
        if outcome.gas_left > forwarded {
            return Err(Trap::Fault(Error::ExecutionFault));
        }
        self.gas.left = self.gas.left + outcome.gas_left;
        let mut out: Vec<u8> = Vec::new();
        let mut i: usize = 0;
        while i < outcome.output.len() && i < result_len as usize
            invariant
                i <= outcome.output@.len(),
                i <= result_len,
                out@ == outcome.output@.take(i as int),
            decreases outcome.output@.len() - i,
        {
            out.push(outcome.output[i]);
            i = i + 1;
            assert(out@ =~= outcome.output@.take(i as int));
        }
        assert(i == min_len(outcome.output@.len(), result_len as nat));
        self.memory_set(result_ptr, &out)?;
        if outcome.success {
            Ok(CALL_OK)
        } else {
            Ok(CALL_FAILED)
        }
    }

    /// Whether the pointers of a nested call lie inside linear memory.
    pub open spec fn ccall_fits(&self, addr_ptr: u32, val_ptr: u32, input_ptr: u32, input_len: u32) -> bool {
        &&& self.fits(addr_ptr, ADDRESS_LEN as nat)
        &&& self.fits(val_ptr, WORD_LEN as nat)
        &&& self.fits(input_ptr, input_len as nat)
    }

    /// Nested call. Reads the callee address, the 32-byte value and the
    /// input, and charges the call cost. At the depth limit the call is refused
    /// with `CALL_FAILED` and nothing else happens. Otherwise the forwarded gas
    /// is charged, the call made, and its result applied.
    pub fn ccall<E: Ext>(
        &mut self,
        ext: &mut E,
        gas: u64,
        addr_ptr: u32,
        val_ptr: u32,
        input_ptr: u32,
        input_len: u32,
        result_ptr: u32,
        result_len: u32,
    ) -> (r: Result<u64, Trap>)
        ensures
            r.is_err() ==> r matches Err(Trap::Fault(_)),
            final(self).gas.left <= old(self).gas.left,
            !old(self).ccall_fits(addr_ptr, val_ptr, input_ptr, input_len) ==> r == Err::<
                u64,
                Trap,
            >(Trap::Fault(Error::MemoryAccessFault)) && final(self).gas == old(self).gas
                && final(self).memory == old(self).memory && *final(ext) == *old(ext),
            old(self).ccall_fits(addr_ptr, val_ptr, input_ptr, input_len) && host_cost(
                old(self).schedule,
                old(self).schedule.call as nat,
            ) > old(self).gas.left ==> r == Err::<u64, Trap>(Trap::Fault(Error::OutOfGas))
                && final(self).gas.left == 0 && final(self).memory == old(self).memory
                && *final(ext) == *old(ext),
            old(self).ccall_fits(addr_ptr, val_ptr, input_ptr, input_len) && host_cost(
                old(self).schedule,
                old(self).schedule.call as nat,
            ) <= old(self).gas.left && old(self).context.depth >= old(self).schedule.max_depth
                ==> r == Ok::<u64, Trap>(CALL_FAILED) && final(self).memory == old(self).memory
                && final(self).gas.left == old(self).gas.left - host_cost(
                old(self).schedule,
                old(self).schedule.call as nat,
            ) && *final(ext) == *old(ext),
            old(self).ccall_fits(addr_ptr, val_ptr, input_ptr, input_len) && old(
                self,
            ).context.depth < old(self).schedule.max_depth && host_cost(
                old(self).schedule,
                old(self).schedule.call as nat,
            ) <= old(self).gas.left < host_cost(old(self).schedule, old(self).schedule.call as nat)
                + gas ==> r == Err::<u64, Trap>(Trap::Fault(Error::OutOfGas)) && final(self).gas.left == 0 && final(self).memory == old(self).memory && *final(ext) == *old(ext),
            r.is_ok() ==> r.unwrap() == CALL_OK || r.unwrap() == CALL_FAILED,
            r.is_ok() && old(self).context.depth < old(self).schedule.max_depth ==> old(
                self,
            ).gas.left - host_cost(old(self).schedule, old(self).schedule.call as nat) - gas
                <= final(self).gas.left,
            r.is_ok() && old(self).context.depth < old(self).schedule.max_depth ==> exists|
                out: Seq<u8>,
            |
                out.len() <= result_len && final(self).memory@ == #[trigger] write_bytes(
                    old(self).memory@,
                    result_ptr as int,
                    out,
                ),
    {
        let address = self.memory_get(addr_ptr, ADDRESS_LEN)?;
        let value = self.memory_get(val_ptr, WORD_LEN)?;
        let input = self.memory_get(input_ptr, input_len)?;
        let cost = self.base_plus(self.schedule.call);
        self.charge(cost)?;
        if self.context.depth >= self.schedule.max_depth {
            return Ok(CALL_FAILED);
        }
        self.charge(gas)?;
        let outcome = ext.call(gas, &address, &value, &input, self.context.depth + 1);
        self.apply_call_result(gas, &outcome, result_ptr, result_len)
    }
}

} // verus!
