//! The loaded module as the engine sees it, its validation, and the binding
//! of its imports to the closed catalog of host functions.

use vstd::prelude::*;
use crate::error::Error;
use crate::schedule::ResourceSchedule;

verus! {

/// A value type of the bytecode format.
#[derive(Clone, Copy, Debug, PartialEq, Eq, Structural)]
pub enum ValueType {
    I32,
    I64,
    Float32,
    Float64,
}

/// A function type: parameter types and an optional result type.
#[derive(Clone, Debug)]
pub struct Signature {
    pub params: Vec<ValueType>,
    pub result: Option<ValueType>,
}

/// Initial and optional maximum size of linear memory, in pages.
#[derive(Clone, Copy, Debug, PartialEq, Eq, Structural)]
pub struct MemoryLimits {
    pub initial: u32,
    pub maximum: Option<u32>,
}

/// A function the module imports from the host.
#[derive(Clone, Debug)]
pub struct Import {
    pub module: String,
    pub field: String,
    pub signature: Signature,
}

/// An exported item; `signature` is `None` for anything but a function.
#[derive(Clone, Debug)]
pub struct Export {
    pub name: String,
    pub signature: Option<Signature>,
}

/// A decoded module: its function imports, its exports, and the linear
/// memory it imports from the host, if any.
#[derive(Clone, Debug)]
pub struct BytecodeModule {
    pub imports: Vec<Import>,
    pub exports: Vec<Export>,
    pub memory: Option<MemoryLimits>,
    /// Whether the module declares linear memory of its own instead of
    /// importing it.
    pub own_memory: bool,
    /// Imports that are neither functions nor the one imported memory
    /// (tables, globals, further memories).
    pub other_imports: u32,
}

/// Host functions the engine offers to a module.
#[derive(Clone, Copy, Debug, PartialEq, Eq, Structural)]
pub enum HostFn {
    StorageRead,
    StorageWrite,
    Balance,
    Ret,
    Suicide,
    Gas,
    Value,
    Address,
    Sender,
    Origin,
    InputLength,
    FetchInput,
    Blockhash,
    Blocknumber,
    Timestamp,
    Coinbase,
    Elog,
    Ccall,
}

/// The host function bound to an import field name.
pub open spec fn host_by_name(name: Seq<char>) -> Option<HostFn> {
    if name == "storage_read"@ {
        Some(HostFn::StorageRead)
    } else if name == "storage_write"@ {
        Some(HostFn::StorageWrite)
    } else if name == "balance"@ {
        Some(HostFn::Balance)
    } else if name == "ret"@ {
        Some(HostFn::Ret)
    } else if name == "suicide"@ {
        Some(HostFn::Suicide)
    } else if name == "gas"@ {
        Some(HostFn::Gas)
    } else if name == "value"@ {
        Some(HostFn::Value)
    } else if name == "address"@ {
        Some(HostFn::Address)
    } else if name == "sender"@ {
        Some(HostFn::Sender)
    } else if name == "origin"@ {
        Some(HostFn::Origin)
    } else if name == "input_length"@ {
        Some(HostFn::InputLength)
    } else if name == "fetch_input"@ {
        Some(HostFn::FetchInput)
    } else if name == "blockhash"@ {
        Some(HostFn::Blockhash)
    } else if name == "blocknumber"@ {
        Some(HostFn::Blocknumber)
    } else if name == "timestamp"@ {
        Some(HostFn::Timestamp)
    } else if name == "coinbase"@ {
        Some(HostFn::Coinbase)
    } else if name == "elog"@ {
        Some(HostFn::Elog)
    } else if name == "ccall"@ {
        Some(HostFn::Ccall)
    } else {
        None
    }
}

/// Parameter types of a host function.
pub open spec fn host_params(f: HostFn) -> Seq<ValueType> {
    match f {
        HostFn::StorageRead => seq![ValueType::I32, ValueType::I32],
        HostFn::StorageWrite => seq![ValueType::I32, ValueType::I32],
        HostFn::Balance => seq![ValueType::I32, ValueType::I32],
        HostFn::Ret => seq![ValueType::I32, ValueType::I32],
        HostFn::Suicide => seq![ValueType::I32],
        HostFn::Gas => seq![ValueType::I32],
        HostFn::Value => seq![ValueType::I32],
        HostFn::Address => seq![ValueType::I32],
        HostFn::Sender => seq![ValueType::I32],
        HostFn::Origin => seq![ValueType::I32],
        HostFn::InputLength => Seq::empty(),
        HostFn::FetchInput => seq![ValueType::I32],
        HostFn::Blockhash => seq![ValueType::I64, ValueType::I32],
        HostFn::Blocknumber => Seq::empty(),
        HostFn::Timestamp => Seq::empty(),
        HostFn::Coinbase => seq![ValueType::I32],
        HostFn::Elog => seq![ValueType::I32, ValueType::I32, ValueType::I32, ValueType::I32],
        HostFn::Ccall => seq![ValueType::I64, ValueType::I32, ValueType::I32, ValueType::I32, ValueType::I32, ValueType::I32, ValueType::I32],
    }
}

/// Result type of a host function.
pub open spec fn host_result(f: HostFn) -> Option<ValueType> {
    match f {
        HostFn::StorageRead => None,
        HostFn::StorageWrite => None,
        HostFn::Balance => None,
        HostFn::Ret => None,
        HostFn::Suicide => None,
        HostFn::Gas => None,
        HostFn::Value => None,
        HostFn::Address => None,
        HostFn::Sender => None,
        HostFn::Origin => None,
        HostFn::InputLength => Some(ValueType::I32),
        HostFn::FetchInput => None,
        HostFn::Blockhash => None,
        HostFn::Blocknumber => Some(ValueType::I64),
        HostFn::Timestamp => Some(ValueType::I64),
        HostFn::Coinbase => None,
        HostFn::Elog => None,
        HostFn::Ccall => Some(ValueType::I32),
    }
}

/// Looks a field name up in the catalog.
pub fn lookup_host(name: &String) -> (r: Option<HostFn>)
    ensures
        r == host_by_name(name@),
{
    if *name == "storage_read".to_owned() {
        Some(HostFn::StorageRead)
    } else if *name == "storage_write".to_owned() {
        Some(HostFn::StorageWrite)
    } else if *name == "balance".to_owned() {
        Some(HostFn::Balance)
    } else if *name == "ret".to_owned() {
        Some(HostFn::Ret)
    } else if *name == "suicide".to_owned() {
        Some(HostFn::Suicide)
    } else if *name == "gas".to_owned() {
        Some(HostFn::Gas)
    } else if *name == "value".to_owned() {
        Some(HostFn::Value)
    } else if *name == "address".to_owned() {
        Some(HostFn::Address)
    } else if *name == "sender".to_owned() {
        Some(HostFn::Sender)
    } else if *name == "origin".to_owned() {
        Some(HostFn::Origin)
    } else if *name == "input_length".to_owned() {
        Some(HostFn::InputLength)
    } else if *name == "fetch_input".to_owned() {
        Some(HostFn::FetchInput)
    } else if *name == "blockhash".to_owned() {
        Some(HostFn::Blockhash)
    } else if *name == "blocknumber".to_owned() {
        Some(HostFn::Blocknumber)
    } else if *name == "timestamp".to_owned() {
        Some(HostFn::Timestamp)
    } else if *name == "coinbase".to_owned() {
        Some(HostFn::Coinbase)
    } else if *name == "elog".to_owned() {
        Some(HostFn::Elog)
    } else if *name == "ccall".to_owned() {
        Some(HostFn::Ccall)
    } else {
        None
    }
}

/// The signature a host function is declared with.
pub fn host_signature(f: HostFn) -> (r: Signature)
    ensures
        r.params@ == host_params(f),
        r.result == host_result(f),
{
    match f {
        HostFn::StorageRead => Signature { params: vec![ValueType::I32, ValueType::I32], result: None },
        HostFn::StorageWrite => Signature { params: vec![ValueType::I32, ValueType::I32], result: None },
        HostFn::Balance => Signature { params: vec![ValueType::I32, ValueType::I32], result: None },
        HostFn::Ret => Signature { params: vec![ValueType::I32, ValueType::I32], result: None },
        HostFn::Suicide => Signature { params: vec![ValueType::I32], result: None },
        HostFn::Gas => Signature { params: vec![ValueType::I32], result: None },
        HostFn::Value => Signature { params: vec![ValueType::I32], result: None },
        HostFn::Address => Signature { params: vec![ValueType::I32], result: None },
        HostFn::Sender => Signature { params: vec![ValueType::I32], result: None },
        HostFn::Origin => Signature { params: vec![ValueType::I32], result: None },
        HostFn::InputLength => Signature { params: Vec::new(), result: Some(ValueType::I32) },
        HostFn::FetchInput => Signature { params: vec![ValueType::I32], result: None },
        HostFn::Blockhash => Signature { params: vec![ValueType::I64, ValueType::I32], result: None },
        HostFn::Blocknumber => Signature { params: Vec::new(), result: Some(ValueType::I64) },
        HostFn::Timestamp => Signature { params: Vec::new(), result: Some(ValueType::I64) },
        HostFn::Coinbase => Signature { params: vec![ValueType::I32], result: None },
        HostFn::Elog => Signature { params: vec![ValueType::I32, ValueType::I32, ValueType::I32, ValueType::I32], result: None },
        HostFn::Ccall => Signature { params: vec![ValueType::I64, ValueType::I32, ValueType::I32, ValueType::I32, ValueType::I32, ValueType::I32, ValueType::I32], result: Some(ValueType::I32) },
    }
}
/// Whether two signatures are the same function type.
pub fn same_signature(a: &Signature, b: &Signature) -> (r: bool)
    ensures
        r == (a.params@ == b.params@ && a.result == b.result),
{
    if a.params.len() != b.params.len() || a.result != b.result {
        return false;
    }
    let mut i: usize = 0;
    while i < a.params.len()
        invariant
            i <= a.params@.len(),
            a.params@.len() == b.params@.len(),
            forall|j: int| 0 <= j < i ==> a.params@[j] == b.params@[j],
        decreases a.params@.len() - i,
    {
        if a.params[i] != b.params[i] {
            return false;
        }
        i = i + 1;
    }
    assert(a.params@ =~= b.params@);
    true
}

/// The host function an import binds to: only imports from `env` whose name
/// is in the catalog and whose signature matches it.
pub open spec fn import_binding(i: Import) -> Option<HostFn> {
    if i.module@ == "env"@ {
        match host_by_name(i.field@) {
            Some(f) => if i.signature.params@ == host_params(f) && i.signature.result
                == host_result(f) {
                Some(f)
            } else {
                None
            },
            None => None,
        }
    } else {
        None
    }
}

/// Binds one import.
pub fn bind_import(i: &Import) -> (r: Option<HostFn>)
    ensures
        r == import_binding(*i),
{
    if i.module != "env".to_owned() {
        return None;
    }
    match lookup_host(&i.field) {
        Some(f) => {
            let expected = host_signature(f);
            if same_signature(&i.signature, &expected) {
                Some(f)
            } else {
                None
            }
        },
        None => None,
    }
}

/// Whether every import binds and there are at most `cap` of them.
pub open spec fn imports_resolvable(imports: Seq<Import>, cap: nat) -> bool {
    &&& imports.len() <= cap
    &&& forall|k: int| 0 <= k < imports.len() ==> (#[trigger] import_binding(imports[k])).is_some()
}

/// The bound import table for instantiation.
#[derive(Clone, Debug)]
pub struct ImportTable {
    /// The host function of each import, in the module's order.
    pub functions: Vec<HostFn>,
    /// The memory the module imports.
    pub memory: Option<MemoryLimits>,
}

/// Pages of linear memory the module starts with.
pub open spec fn initial_pages(memory: Option<MemoryLimits>) -> nat {
    match memory {
        Some(l) => l.initial as nat,
        None => 0,
    }
}

impl ImportTable {
    /// Pages of linear memory the module asked for at the start.
    pub fn memory_size(&self) -> (r: u32)
        ensures
            r == initial_pages(self.memory),
    {
        match self.memory {
            Some(l) => l.initial,
            None => 0,
        }
    }
}

/// Binds every import of the module to a host function. It fails with
/// `UnresolvedImport` when there are more than `max_imports` imports (none are
/// dropped) or when any of them does not bind.
pub fn resolve(module: &BytecodeModule, max_imports: u32) -> (r: Result<ImportTable, Error>)
    ensures
        r.is_ok() <==> imports_resolvable(module.imports@, max_imports as nat),
        r.is_ok() ==> r.unwrap().memory == module.memory && r.unwrap().functions@.len()
            == module.imports@.len() && forall|k: int|
            0 <= k < module.imports@.len() ==> Some(r.unwrap().functions@[k]) == import_binding(
                #[trigger] module.imports@[k],
            ),
        r.is_err() ==> r == Err::<ImportTable, Error>(Error::UnresolvedImport),
{
    if module.imports.len() > max_imports as usize {
        return Err(Error::UnresolvedImport);
    }
    let mut functions: Vec<HostFn> = Vec::new();
    let mut i: usize = 0;
    while i < module.imports.len()
        invariant
            i <= module.imports@.len(),
            module.imports@.len() <= max_imports,
            functions@.len() == i,
            forall|k: int|
                0 <= k < i ==> Some(functions@[k]) == import_binding(#[trigger] module.imports@[k]),
        decreases module.imports@.len() - i,
    {
        match bind_import(&module.imports[i]) {
            Some(f) => functions.push(f),
            None => {
                return Err(Error::UnresolvedImport);
            },
        }
        i = i + 1;
    }
    Ok(ImportTable { functions, memory: module.memory })
}

/// Name of the entry point every module must export.
pub open spec fn entry_name() -> Seq<char> {
    "call"@
}

/// Whether a signature is `() -> ()`.
pub open spec fn is_unit_signature(s: Option<Signature>) -> bool {
    match s {
        Some(sig) => sig.params@.len() == 0 && sig.result.is_none(),
        None => false,
    }
}

/// The module exports the entry point, and every export under that name is a
/// function `() -> ()`.
pub open spec fn entry_valid(exports: Seq<Export>) -> bool {
    &&& exists|k: int| 0 <= k < exports.len() && (#[trigger] exports[k]).name@ == entry_name()
    &&& forall|k: int|
        0 <= k < exports.len() && (#[trigger] exports[k]).name@ == entry_name()
            ==> is_unit_signature(exports[k].signature)
}

/// The declared memory stays within `max_pages`, and its maximum, if any, is
/// no smaller than its initial size.
pub open spec fn memory_within(memory: Option<MemoryLimits>, max_pages: nat) -> bool {
    match memory {
        Some(l) => l.initial <= max_pages && match l.maximum {
            Some(m) => l.initial <= m && m <= max_pages,
            None => true,
        },
        None => true,
    }
}

/// A module is well formed for a schedule when it takes its memory only from
/// the host, imports nothing but functions and that memory, and its entry
/// point and memory are valid.
pub open spec fn module_valid(module: BytecodeModule, schedule: ResourceSchedule) -> bool {
    &&& !module.own_memory
    &&& module.other_imports == 0
    &&& entry_valid(module.exports@)
    &&& memory_within(module.memory, schedule.max_memory_pages as nat)
}

/// Checks the entry point's signature and the memory limits; fails with
/// `MalformedModule` exactly when the module is not well formed.
pub fn validate_module(module: &BytecodeModule, schedule: &ResourceSchedule) -> (r: Result<
    (),
    Error,
>)
    ensures
        r.is_ok() <==> module_valid(*module, *schedule),
        r.is_err() ==> r == Err::<(), Error>(Error::MalformedModule),
{
    if module.own_memory || module.other_imports != 0 {
        return Err(Error::MalformedModule);
    }
    match module.memory {
        Some(l) => {
            if l.initial > schedule.max_memory_pages {
                return Err(Error::MalformedModule);
            }
            match l.maximum {
                Some(m) => {
                    if l.initial > m || m > schedule.max_memory_pages {
                        return Err(Error::MalformedModule);
                    }
                },
                None => {},
            }
        },
        None => {},
    }
    let entry = "call".to_owned();
    let mut found = false;
    let mut i: usize = 0;
    while i < module.exports.len()
        invariant
            i <= module.exports@.len(),
            entry@ == entry_name(),
            found <==> exists|k: int|
                0 <= k < i && (#[trigger] module.exports@[k]).name@ == entry_name(),
            forall|k: int|
                0 <= k < i && (#[trigger] module.exports@[k]).name@ == entry_name()
                    ==> is_unit_signature(module.exports@[k].signature),
        decreases module.exports@.len() - i,
    {
        let e = &module.exports[i];
        if e.name == entry {
            let unit = match &e.signature {
                Some(sig) => sig.params.len() == 0 && sig.result.is_none(),
                None => false,
            };
            if !unit {
                return Err(Error::MalformedModule);
            }
            found = true;
        }
        i = i + 1;
    }
    if found {
        Ok(())
    } else {
        Err(Error::MalformedModule)
    }
}

} // verus!
