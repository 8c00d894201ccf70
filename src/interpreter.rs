//! The call entry point: validation, import binding, gas conversion and the
//! static memory charge, execution, and result assembly.

use vstd::prelude::*;
use crate::error::Error;
use crate::gas::{internal_gas, to_internal, initial_memory_charge};
use crate::module::{
    BytecodeModule, ImportTable, import_binding, initial_pages, imports_resolvable, module_valid, resolve,
    validate_module,
};
use crate::outcome::{GasLeft, Invocation, assemble, assembled, lemma_fault_is_error};
use crate::runtime::{CallContext, Ext, Runtime, Trap};
use crate::schedule::{ResourceSchedule, PAGE_SIZE};
use crate::uint::Uint256;

verus! {

/// Parameters of one call.
#[derive(Clone, Debug)]
pub struct ActionParams {
    /// The decoded module to run; without one the call does nothing.
    pub code: Option<BytecodeModule>,
    /// Input handed to the module.
    pub data: Option<Vec<u8>>,
    /// Native gas budget.
    pub gas: Uint256,
    /// Value transferred with the call.
    pub value: Uint256,
    pub address: Vec<u8>,
    pub sender: Vec<u8>,
    pub origin: Vec<u8>,
    pub code_address: Vec<u8>,
    pub code_version: Uint256,
}

/// Runs the entry point of a module instance against a runtime: the
/// bytecode interpreter, which reaches the host only through
/// `Runtime::invoke`.
pub trait Executor<E: Ext> {
    fn execute(&mut self, table: &ImportTable, runtime: &mut Runtime, ext: &mut E) -> Invocation;
}

/// Why a module cannot start with a native budget of `gas`, if it cannot.
pub open spec fn instantiation_error(m: BytecodeModule, gas: nat, s: ResourceSchedule) -> Option<
    Error,
> {
    if !module_valid(m, s) {
        Some(Error::MalformedModule)
    } else if !imports_resolvable(m.imports@, s.max_imports as nat) {
        Some(Error::UnresolvedImport)
    } else if internal_gas(gas, s) > u64::MAX {
        Some(Error::GasConversionOverflow)
    } else if initial_pages(m.memory) * s.initial_mem > internal_gas(gas, s) {
        Some(Error::OutOfGas)
    } else {
        None
    }
}

/// Validates the module, binds its imports, converts the native budget and
/// takes the static charge for the initial memory. The runtime it builds
/// has linear memory of the module's initial pages, all zero, and the
/// converted budget less that charge.
pub fn instantiate(
    module: &BytecodeModule,
    schedule: &ResourceSchedule,
    gas: &Uint256,
    input: Vec<u8>,
    context: CallContext,
) -> (r: Result<(ImportTable, Runtime), Error>)
    requires
        schedule.wf(),
    ensures
        instantiation_error(*module, gas.value(), *schedule) matches Some(e) ==> r == Err::<
            (ImportTable, Runtime),
            Error,
        >(e),
        instantiation_error(*module, gas.value(), *schedule).is_none() ==> r.is_ok(),
        r.is_ok() ==> ({
            let (table, rt) = r.unwrap();
            &&& table.memory == module.memory
            &&& table.functions@.len() == module.imports@.len()
            &&& forall|k: int|
                0 <= k < module.imports@.len() ==> Some(table.functions@[k]) == import_binding(
                    #[trigger] module.imports@[k],
                )
            &&& rt.memory@.len() == initial_pages(module.memory) * PAGE_SIZE as nat
            &&& forall|i: int| 0 <= i < rt.memory@.len() ==> rt.memory@[i] == 0
            &&& rt.gas.left == internal_gas(gas.value(), *schedule) - initial_pages(module.memory)
                * schedule.initial_mem
            &&& rt.result@.len() == 0
            &&& rt.input == input
            &&& rt.context == context
            &&& rt.schedule == *schedule
        }),
{
    validate_module(module, schedule)?;
    let table = resolve(module, schedule.max_imports)?;
    let internal = to_internal(gas, schedule)?;
    let pages = table.memory_size();
    let mut rt = Runtime::new(pages, internal, input, context, *schedule);
    let charge = initial_memory_charge(pages, schedule);
    match rt.gas.charge(charge) {
        Ok(()) => {},
        Err(e) => {
            return Err(e);
        },
    }
    Ok((table, rt))
}

/// Why a call fails before its entry point runs, if it does.
pub open spec fn setup_error(params: ActionParams, s: ResourceSchedule) -> Option<Error> {
    if !s.wf() {
        Some(Error::InvalidSchedule)
    } else {
        match params.code {
            None => None,
            Some(m) => instantiation_error(m, params.gas.value(), s),
        }
    }
}

/// Wasm interpreter instance.
#[derive(Clone, Debug)]
pub struct WasmInterpreter {
    pub params: ActionParams,
}

impl WasmInterpreter {
    pub fn new(params: ActionParams) -> (r: WasmInterpreter)
        ensures
            r.params == params,
    {
        WasmInterpreter { params }
    }

    /// Runs the call. Setup failures come back before anything runs; without
    /// code nothing runs and no gas is left; otherwise the result is assembled
    /// from however the entry point ended.
    pub fn run<E: Ext, X: Executor<E>>(
        self,
        ext: &mut E,
        schedule: &ResourceSchedule,
        executor: &mut X,
    ) -> (r: Result<GasLeft, Error>)
        ensures
            setup_error(self.params, *schedule) matches Some(e) ==> r == Err::<GasLeft, Error>(e)
                && *final(ext) == *old(ext),
            schedule.wf() && self.params.code.is_none() ==> (r matches Ok(GasLeft::Known(g))
                && g.value() == 0) && *final(ext) == *old(ext),
            setup_error(self.params, *schedule).is_none() && self.params.code.is_some()
                && r.is_err() ==> (r matches Err(e) && (e == Error::OutOfGas || e
                == Error::MemoryAccessFault || e == Error::ExecutionFault)),
            setup_error(self.params, *schedule).is_none() && self.params.code.is_some()
                ==> exists|left: u64, staged: Seq<u8>, inv: Invocation|
                assembled(r, left, staged, inv, *schedule),
    {
        schedule.validate()?;
        let module = match &self.params.code {
            Some(m) => m,
            None => {
                return Ok(GasLeft::Known(Uint256::zero()));
            },
        };
        let input = match &self.params.data {
            Some(d) => d.clone(),
            None => Vec::new(),
        };
        let context = CallContext {
            address: self.params.address.clone(),
            sender: self.params.sender.clone(),
            origin: self.params.origin.clone(),
            code_address: self.params.code_address.clone(),
            code_version: self.params.code_version,
            value: self.params.value,
            depth: ext.depth(),
        };
        let (table, mut rt) = instantiate(module, schedule, &self.params.gas, input, context)?;
        let inv = executor.execute(&table, &mut rt, ext);
        let left = rt.gas.left;
        let staged = rt.result;
        let r = assemble(left, staged, inv, schedule);
        assert(assembled(r, left, staged@, inv, *schedule));
        proof {
            if let Invocation::Trapped(Trap::Fault(e)) = inv {
                lemma_fault_is_error(r, left, staged@, e, *schedule);
            }
        }
        r
    }
}

/// The outcome of a submitted transaction: its hash and what it returned.
#[derive(Clone, Debug)]
pub struct TransactionOutcome {
    /// 32-byte transaction hash.
    pub hash: Vec<u8>,
    pub output: Vec<u8>,
}

} // verus!
