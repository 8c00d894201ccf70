//! The live instance of one call: linear memory, gas counter, call context,
//! and the single dispatch point for host calls.

use vstd::prelude::*;
use crate::error::Error;
use crate::gas::GasCounter;
use crate::module::HostFn;
use crate::schedule::{ResourceSchedule, PAGE_SIZE, MAX_MEMORY_PAGES};
use crate::uint::Uint256;

verus! {

/// Bytes in an account address.
pub const ADDRESS_LEN: u32 = 20;

/// Bytes in a storage key, storage value, hash or 256-bit amount.
pub const WORD_LEN: u32 = 32;

/// Most topics one log entry may carry.
pub const MAX_TOPICS: u32 = 4;

/// Status a nested call hands back to the module on success.
pub const CALL_OK: u64 = 0;

/// Status a nested call hands back when it failed or was refused (-1 as i32).
pub const CALL_FAILED: u64 = 0xffff_ffff;

/// The calling environment of one invocation.
#[derive(Clone, Debug)]
pub struct CallContext {
    pub address: Vec<u8>,
    pub sender: Vec<u8>,
    pub origin: Vec<u8>,
    pub code_address: Vec<u8>,
    pub code_version: Uint256,
    pub value: Uint256,
    /// Nesting depth of this call; the outermost call has depth zero.
    pub depth: u32,
}

/// What a nested call reports back.
#[derive(Clone, Debug)]
pub struct CallResult {
    pub success: bool,
    pub output: Vec<u8>,
    /// Internal gas the nested call did not use.
    pub gas_left: u64,
}

/// The blockchain capabilities a running module reaches through host calls,
/// implemented by the embedder.
pub trait Ext {
    fn storage_at(&self, key: &Vec<u8>) -> Vec<u8>;

    fn set_storage(&mut self, key: Vec<u8>, value: Vec<u8>);

    fn balance(&self, address: &Vec<u8>) -> Uint256;

    fn suicide(&mut self, refund_address: &Vec<u8>);

    fn call(
        &mut self,
        gas: u64,
        receive_address: &Vec<u8>,
        value: &Vec<u8>,
        input: &Vec<u8>,
        depth: u32,
    ) -> CallResult;

    fn log(&mut self, topics: Vec<Vec<u8>>, data: Vec<u8>);

    fn block_hash(&self, number: u64) -> Vec<u8>;

    fn block_number(&self) -> u64;

    fn timestamp(&self) -> u64;

    fn coinbase(&self) -> Vec<u8>;

    /// Nesting depth of the current call.
    fn depth(&self) -> u32;
}

/// Why a host call stopped the module instead of returning to it.
#[derive(Clone, Copy, Debug, PartialEq, Eq, Structural)]
pub enum Trap {
    /// The module asked to halt and return the staged payload.
    Return,
    /// The module destroyed its account.
    Suicide,
    /// A genuine fault.
    Fault(Error),
}

/// `mem` with `data` written at `ptr`.
pub open spec fn write_bytes(mem: Seq<u8>, ptr: int, data: Seq<u8>) -> Seq<u8> {
    mem.subrange(0, ptr) + data + mem.subrange(ptr + data.len(), mem.len() as int)
}

/// Whether `len` bytes at `ptr` lie inside a memory of `size` bytes.
pub open spec fn in_bounds(size: nat, ptr: nat, len: nat) -> bool {
    ptr + len <= size
}

/// The running instance.
#[derive(Clone, Debug)]
pub struct Runtime {
    pub memory: Vec<u8>,
    pub gas: GasCounter,
    /// Payload staged by a halt-with-return.
    pub result: Vec<u8>,
    pub context: CallContext,
    pub input: Vec<u8>,
    pub schedule: ResourceSchedule,
}

impl Runtime {
    /// A runtime whose linear memory holds `pages` zeroed pages.
    pub fn new(
        pages: u32,
        gas: u64,
        input: Vec<u8>,
        context: CallContext,
        schedule: ResourceSchedule,
    ) -> (r: Runtime)
        requires
            pages <= MAX_MEMORY_PAGES,
        ensures
            r.memory@.len() == pages as nat * PAGE_SIZE as nat,
            forall|i: int| 0 <= i < r.memory@.len() ==> r.memory@[i] == 0,
            r.gas.left == gas,
            r.result@.len() == 0,
            r.input == input,
            r.context == context,
            r.schedule == schedule,
    {
        assert(pages as nat * 65536 <= 16384 * 65536) by (nonlinear_arith)
            requires
                pages <= 16384,
        ;
        let size: usize = (pages as usize) * PAGE_SIZE;
        let memory: Vec<u8> = vec![0u8; size];
        Runtime { memory, gas: GasCounter::new(gas), result: Vec::new(), context, input, schedule }
    }

    /// Everything but the gas counter is as in `other`.
    pub open spec fn same_but_gas(&self, other: Runtime) -> bool {
        &&& self.memory == other.memory
        &&& self.result == other.result
        &&& self.context == other.context
        &&& self.input == other.input
        &&& self.schedule == other.schedule
    }

    /// Takes `cost` internal gas, or stops the module with `OutOfGas` and
    /// nothing left.
    pub fn charge(&mut self, cost: u64) -> (r: Result<(), Trap>)
        ensures
            r.is_err() ==> r matches Err(Trap::Fault(_)),
            final(self).same_but_gas(*old(self)),
            cost <= old(self).gas.left ==> r.is_ok() && final(self).gas.left == old(self).gas.left
                - cost,
            cost > old(self).gas.left ==> r == Err::<(), Trap>(Trap::Fault(Error::OutOfGas))
                && final(self).gas.left == 0,
    {
        match self.gas.charge(cost) {
            Ok(()) => Ok(()),
            Err(e) => Err(Trap::Fault(e)),
        }
    }

    /// Copies `len` bytes out of linear memory at `ptr`.
    pub fn memory_get(&self, ptr: u32, len: u32) -> (r: Result<Vec<u8>, Trap>)
        ensures
            r.is_ok() <==> in_bounds(self.memory@.len(), ptr as nat, len as nat),
            r.is_ok() ==> r.unwrap()@ == self.memory@.subrange(ptr as int, ptr + len),
            r.is_err() ==> r == Err::<Vec<u8>, Trap>(Trap::Fault(Error::MemoryAccessFault)),
    {
        if (ptr as u64) + (len as u64) > self.memory.len() as u64 {
            return Err(Trap::Fault(Error::MemoryAccessFault));
        }
        let start = ptr as usize;
        let n = self.memory.len();
        let mut out: Vec<u8> = Vec::new();
        let mut i: usize = 0;
        while i < len as usize
            invariant
                start + len <= self.memory@.len(),
                n == self.memory@.len(),
                start == ptr,
                i <= len,
                out@ == self.memory@.subrange(start as int, start + i),
            decreases len - i,
        {
            out.push(self.memory[start + i]);
            i = i + 1;
            assert(out@ =~= self.memory@.subrange(start as int, start + i));
        }
        Ok(out)
    }

    /// Writes `data` into linear memory at `ptr`.
    pub fn memory_set(&mut self, ptr: u32, data: &Vec<u8>) -> (r: Result<(), Trap>)
        ensures
            r.is_ok() <==> in_bounds(old(self).memory@.len(), ptr as nat, data@.len()),
            r.is_ok() ==> final(self).memory@ == write_bytes(old(self).memory@, ptr as int, data@),
            r.is_err() ==> r == Err::<(), Trap>(Trap::Fault(Error::MemoryAccessFault))
                && final(self).memory == old(self).memory,
            final(self).gas == old(self).gas,
            final(self).result == old(self).result,
            final(self).context == old(self).context,
            final(self).input == old(self).input,
            final(self).schedule == old(self).schedule,
    {
        let n = self.memory.len();
        if (ptr as usize) > n || data.len() > n - (ptr as usize) {
            return Err(Trap::Fault(Error::MemoryAccessFault));
        }
        let start = ptr as usize;
        let mut i: usize = 0;
        while i < data.len()
            invariant
                start == ptr,
                start + data@.len() <= self.memory@.len(),
                self.memory@.len() == old(self).memory@.len(),
                n == self.memory@.len(),
                i <= data@.len(),
                forall|j: int|
                    0 <= j < self.memory@.len() && !(start <= j < start + i) ==> self.memory@[j]
                        == old(self).memory@[j],
                forall|j: int| start <= j < start + i ==> self.memory@[j] == data@[j - start],
                self.gas == old(self).gas,
                self.result == old(self).result,
                self.context == old(self).context,
                self.input == old(self).input,
                self.schedule == old(self).schedule,
            decreases data@.len() - i,
        {
            self.memory.set(start + i, data[i]);
            i = i + 1;
        }
        assert(self.memory@ =~= write_bytes(old(self).memory@, ptr as int, data@));
        Ok(())
    }
}

} // verus!
