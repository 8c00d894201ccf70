use wasm::error::Error;
use wasm::gas::{initial_memory_charge, to_internal, to_native, GasCounter};
use wasm::interpreter::{instantiate, ActionParams, Executor, WasmInterpreter};
use wasm::module::{
    resolve, validate_module, BytecodeModule, Export, HostFn, Import, ImportTable, MemoryLimits,
    Signature, ValueType,
};
use wasm::outcome::{assemble, GasLeft, Invocation};
use wasm::runtime::{CallContext, CallResult, Ext, Runtime, Trap, CALL_FAILED, CALL_OK};
use wasm::schedule::ResourceSchedule;
use wasm::uint::Uint256;

fn schedule(mul: u32, div: u32) -> ResourceSchedule {
    ResourceSchedule {
        opcodes_mul: mul,
        opcodes_div: div,
        initial_mem: 0,
        max_imports: 16,
        max_memory_pages: 16,
        max_depth: 4,
        regular: 0,
        mem_copy: 0,
        sload: 0,
        sstore: 0,
        suicide: 0,
        call: 0,
    }
}

fn context(depth: u32) -> CallContext {
    CallContext {
        address: vec![1u8; 20],
        sender: vec![2u8; 20],
        origin: vec![3u8; 20],
        code_address: vec![1u8; 20],
        code_version: Uint256::zero(),
        value: Uint256::from_u64(0x0102),
        depth,
    }
}

fn unit() -> Signature {
    Signature { params: vec![], result: None }
}

fn entry_module(memory: Option<MemoryLimits>) -> BytecodeModule {
    BytecodeModule {
        imports: vec![],
        exports: vec![Export { name: "call".to_string(), signature: Some(unit()) }],
        memory,
        own_memory: false,
        other_imports: 0,
    }
}

fn ret_import() -> Import {
    Import {
        module: "env".to_string(),
        field: "ret".to_string(),
        signature: Signature { params: vec![ValueType::I32, ValueType::I32], result: None },
    }
}

#[derive(Default)]
struct MockExt {
    suicides: Vec<Vec<u8>>,
    calls: usize,
    storage: Vec<(Vec<u8>, Vec<u8>)>,
    depth: u32,
}

impl Ext for MockExt {
    fn storage_at(&self, key: &Vec<u8>) -> Vec<u8> {
        for (k, v) in &self.storage {
            if k == key {
                return v.clone();
            }
        }
        vec![0u8; 32]
    }
    fn set_storage(&mut self, key: Vec<u8>, value: Vec<u8>) {
        self.storage.push((key, value));
    }
    fn balance(&self, _address: &Vec<u8>) -> Uint256 {
        Uint256::from_u64(7)
    }
    fn suicide(&mut self, refund_address: &Vec<u8>) {
        self.suicides.push(refund_address.clone());
    }
    fn call(
        &mut self,
        gas: u64,
        _receive_address: &Vec<u8>,
        _value: &Vec<u8>,
        _input: &Vec<u8>,
        _depth: u32,
    ) -> CallResult {
        self.calls += 1;
        CallResult { success: true, output: vec![9u8, 8u8, 7u8], gas_left: gas / 2 }
    }
    fn log(&mut self, _topics: Vec<Vec<u8>>, _data: Vec<u8>) {}
    fn block_hash(&self, _number: u64) -> Vec<u8> {
        vec![5u8; 32]
    }
    fn block_number(&self) -> u64 {
        42
    }
    fn timestamp(&self) -> u64 {
        1000
    }
    fn coinbase(&self) -> Vec<u8> {
        vec![4u8; 20]
    }
    fn depth(&self) -> u32 {
        self.depth
    }
}

fn runtime(pages: u32, gas: u64, sched: ResourceSchedule, depth: u32) -> Runtime {
    Runtime::new(pages, gas, vec![10u8, 20u8, 30u8], context(depth), sched)
}

#[test]
fn converts_budget_with_ratio() {
    let g = Uint256::from_u64(1000);
    assert_eq!(to_internal(&g, &schedule(1, 1)), Ok(1000));
    assert_eq!(to_internal(&g, &schedule(3, 2)), Ok(1500));
    assert_eq!(to_internal(&g, &schedule(1, 3)), Ok(333));
}

#[test]
fn conversion_overflow_is_rejected() {
    let g = Uint256 { words: [0, 1, 0, 0] };
    assert_eq!(to_internal(&g, &schedule(1, 1)), Err(Error::GasConversionOverflow));
    let g = Uint256 { words: [0, 1, 0, 0] };
    assert_eq!(to_internal(&g, &schedule(1, 2)), Ok(1u64 << 63));
    let huge = Uint256 { words: [0, 0, 0, u64::MAX] };
    assert_eq!(to_internal(&huge, &schedule(2, 1)), Err(Error::GasConversionOverflow));
}

#[test]
fn converts_back_with_inverse_ratio() {
    assert_eq!(to_native(1500, &schedule(3, 2)).to_u64(), Some(1000));
    assert_eq!(to_native(u64::MAX, &schedule(1, 4)).words, [u64::MAX - 3, 3, 0, 0]);
}

#[test]
fn round_trip_never_gains() {
    let s = schedule(3, 2);
    let g = 1001u64;
    let internal = to_internal(&Uint256::from_u64(g), &s).unwrap();
    assert_eq!(internal, 1501);
    let back = to_native(internal, &s).to_u64().unwrap();
    assert_eq!(back, 1000);
    assert!(back <= g);
    assert!((g - back) * 3 < 2 + 3);
}

#[test]
fn charges_within_budget() {
    let mut c = GasCounter::new(100);
    assert_eq!(c.charge_all(&vec![10, 20, 30]), Ok(()));
    assert_eq!(c.left, 40);
    assert_eq!(c.charge(40), Ok(()));
    assert_eq!(c.left, 0);
}

#[test]
fn charges_over_budget_stop_with_zero_left() {
    let mut c = GasCounter::new(100);
    assert_eq!(c.charge_all(&vec![60, 30, 20, 1]), Err(Error::OutOfGas));
    assert_eq!(c.left, 0);
    let mut d = GasCounter::new(5);
    assert_eq!(d.charge(6), Err(Error::OutOfGas));
    assert_eq!(d.left, 0);
}

#[test]
fn static_memory_charge() {
    let mut s = schedule(1, 1);
    s.initial_mem = 4096;
    assert_eq!(initial_memory_charge(3, &s), 12288);
    s.initial_mem = 65535;
    assert_eq!(initial_memory_charge(u32::MAX, &s), u32::MAX as u64 * 65535);
}

#[test]
fn schedule_bounds() {
    assert_eq!(schedule(1, 1).validate(), Ok(()));
    assert_eq!(schedule(1, 0).validate(), Err(Error::InvalidSchedule));
    assert_eq!(schedule(0, 1).validate(), Err(Error::InvalidSchedule));
    let mut s = schedule(1, 1);
    s.initial_mem = 65536;
    assert_eq!(s.validate(), Err(Error::InvalidSchedule));
}

#[test]
fn resolves_imports_up_to_cap() {
    let mut m = entry_module(None);
    for _ in 0..16 {
        m.imports.push(ret_import());
    }
    let table = resolve(&m, 16).unwrap();
    assert_eq!(table.functions.len(), 16);
    assert_eq!(table.functions[0], HostFn::Ret);
    m.imports.push(ret_import());
    assert_eq!(resolve(&m, 16).err(), Some(Error::UnresolvedImport));
}

#[test]
fn rejects_unknown_or_mistyped_imports() {
    let mut m = entry_module(None);
    m.imports.push(Import {
        module: "env".to_string(),
        field: "no_such_fn".to_string(),
        signature: unit(),
    });
    assert_eq!(resolve(&m, 16).err(), Some(Error::UnresolvedImport));
    let mut m = entry_module(None);
    let mut i = ret_import();
    i.signature.result = Some(ValueType::I32);
    m.imports.push(i);
    assert_eq!(resolve(&m, 16).err(), Some(Error::UnresolvedImport));
    let mut m = entry_module(None);
    let mut i = ret_import();
    i.module = "other".to_string();
    m.imports.push(i);
    assert_eq!(resolve(&m, 16).err(), Some(Error::UnresolvedImport));
}

#[test]
fn validates_entry_point_and_memory() {
    let s = schedule(1, 1);
    assert_eq!(validate_module(&entry_module(None), &s), Ok(()));
    let mut m = entry_module(None);
    m.exports[0].name = "main".to_string();
    assert_eq!(validate_module(&m, &s), Err(Error::MalformedModule));
    let mut m = entry_module(None);
    m.exports[0].signature = Some(Signature { params: vec![ValueType::I32], result: None });
    assert_eq!(validate_module(&m, &s), Err(Error::MalformedModule));
    let m = entry_module(Some(MemoryLimits { initial: 17, maximum: None }));
    assert_eq!(validate_module(&m, &s), Err(Error::MalformedModule));
    let m = entry_module(Some(MemoryLimits { initial: 4, maximum: Some(2) }));
    assert_eq!(validate_module(&m, &s), Err(Error::MalformedModule));
    let m = entry_module(Some(MemoryLimits { initial: 2, maximum: Some(16) }));
    assert_eq!(validate_module(&m, &s), Ok(()));
    let mut m = entry_module(None);
    m.own_memory = true;
    assert_eq!(validate_module(&m, &s), Err(Error::MalformedModule));
    let mut m = entry_module(None);
    m.other_imports = 1;
    assert_eq!(validate_module(&m, &s), Err(Error::MalformedModule));
}

#[test]
fn instantiation_sizes_memory() {
    let m = entry_module(Some(MemoryLimits { initial: 3, maximum: None }));
    let mut s = schedule(3, 2);
    s.initial_mem = 10;
    let (table, rt) =
        instantiate(&m, &s, &Uint256::from_u64(500), vec![], context(0)).unwrap();
    assert_eq!(table.memory_size(), 3);
    assert_eq!(rt.memory.len(), 3 * 65536);
    assert!(rt.memory.iter().all(|b| *b == 0));
    assert_eq!(rt.gas.left, 750 - 30);
    let (_, rt) =
        instantiate(&entry_module(None), &schedule(1, 1), &Uint256::from_u64(1), vec![], context(0))
            .unwrap();
    assert_eq!(rt.memory.len(), 0);
    s.initial_mem = 300;
    assert_eq!(
        instantiate(&m, &s, &Uint256::from_u64(500), vec![], context(0)).err(),
        Some(Error::OutOfGas)
    );
    let big = Uint256 { words: [0, 1, 0, 0] };
    assert_eq!(
        instantiate(&m, &schedule(1, 1), &big, vec![], context(0)).err(),
        Some(Error::GasConversionOverflow)
    );
}

#[test]
fn memory_access_bounds() {
    let mut rt = runtime(1, 100, schedule(1, 1), 0);
    assert_eq!(rt.memory_set(65534, &vec![1, 2]), Ok(()));
    assert_eq!(rt.memory_get(65534, 2).unwrap(), vec![1, 2]);
    assert_eq!(rt.memory_get(65535, 2).err(), Some(Trap::Fault(Error::MemoryAccessFault)));
    assert_eq!(rt.memory_set(65535, &vec![1, 2]), Err(Trap::Fault(Error::MemoryAccessFault)));
}

#[test]
fn ret_stages_payload() {
    let mut s = schedule(1, 1);
    s.regular = 1;
    s.mem_copy = 2;
    let mut rt = runtime(1, 100, s, 0);
    rt.memory_set(8, &vec![0xAA, 0xBB, 0xCC]).unwrap();
    assert_eq!(rt.ret(8, 3), Trap::Return);
    assert_eq!(rt.result, vec![0xAA, 0xBB, 0xCC]);
    assert_eq!(rt.gas.left, 93);
}

#[test]
fn ret_out_of_gas_and_bounds() {
    let mut s = schedule(1, 1);
    s.mem_copy = 10;
    let mut rt = runtime(1, 20, s, 0);
    assert_eq!(rt.ret(0, 3), Trap::Fault(Error::OutOfGas));
    assert_eq!(rt.gas.left, 0);
    let mut rt = runtime(1, 20, s, 0);
    assert_eq!(rt.ret(65535, 3), Trap::Fault(Error::MemoryAccessFault));
}

#[test]
fn suicide_calls_ext_once_and_clears_payload() {
    let mut s = schedule(1, 1);
    s.suicide = 5;
    let mut rt = runtime(1, 100, s, 0);
    let mut ext = MockExt::default();
    rt.memory_set(0, &vec![7u8; 20]).unwrap();
    rt.result = vec![1, 2, 3];
    assert_eq!(rt.suicide(&mut ext, 0), Trap::Suicide);
    assert_eq!(ext.suicides, vec![vec![7u8; 20]]);
    assert!(rt.result.is_empty());
    assert_eq!(rt.gas.left, 95);
}

#[test]
fn nested_call_refused_at_depth_limit() {
    let mut s = schedule(1, 1);
    s.call = 3;
    let mut rt = runtime(1, 100, s, 4);
    let mut ext = MockExt::default();
    let before = rt.memory.clone();
    assert_eq!(rt.ccall(&mut ext, 50, 0, 32, 64, 4, 100, 8), Ok(CALL_FAILED));
    assert_eq!(ext.calls, 0);
    assert_eq!(rt.memory, before);
    assert_eq!(rt.gas.left, 97);
}

#[test]
fn nested_call_below_depth_limit() {
    let mut rt = runtime(1, 100, schedule(1, 1), 3);
    let mut ext = MockExt::default();
    assert_eq!(rt.ccall(&mut ext, 50, 0, 32, 64, 4, 100, 2), Ok(CALL_OK));
    assert_eq!(ext.calls, 1);
    assert_eq!(rt.gas.left, 75);
    assert_eq!(rt.memory_get(100, 3).unwrap(), vec![9, 8, 0]);
}

#[test]
fn storage_round_trip_through_ext() {
    let mut rt = runtime(1, 100, schedule(1, 1), 0);
    let mut ext = MockExt::default();
    rt.memory_set(0, &vec![1u8; 32]).unwrap();
    rt.memory_set(32, &vec![2u8; 32]).unwrap();
    assert_eq!(rt.storage_write(&mut ext, 0, 32), Ok(()));
    assert_eq!(rt.storage_read(&mut ext, 0, 64), Ok(()));
    assert_eq!(rt.memory_get(64, 32).unwrap(), vec![2u8; 32]);
}

#[test]
fn dispatch_runs_host_functions() {
    let mut rt = runtime(1, 100, schedule(1, 1), 0);
    let mut ext = MockExt::default();
    assert_eq!(rt.invoke(&mut ext, HostFn::InputLength, &vec![]), Ok(Some(3)));
    assert_eq!(rt.invoke(&mut ext, HostFn::FetchInput, &vec![10]), Ok(None));
    assert_eq!(rt.memory_get(10, 3).unwrap(), vec![10, 20, 30]);
    assert_eq!(rt.invoke(&mut ext, HostFn::Blocknumber, &vec![]), Ok(Some(42)));
    assert_eq!(rt.invoke(&mut ext, HostFn::Value, &vec![0]), Ok(None));
    let v = rt.memory_get(0, 32).unwrap();
    assert_eq!(&v[30..], &[1, 2]);
    assert!(v[..30].iter().all(|b| *b == 0));
    assert_eq!(rt.invoke(&mut ext, HostFn::Balance, &vec![0, 40]), Ok(None));
    assert_eq!(rt.memory_get(40, 32).unwrap()[31], 7);
    assert_eq!(rt.invoke(&mut ext, HostFn::Gas, &vec![30]), Ok(None));
    assert_eq!(rt.gas.left, 70);
    assert_eq!(
        rt.invoke(&mut ext, HostFn::Ret, &vec![0]),
        Err(Trap::Fault(Error::ExecutionFault))
    );
    assert_eq!(
        rt.invoke(&mut ext, HostFn::Gas, &vec![1u64 << 40]),
        Err(Trap::Fault(Error::ExecutionFault))
    );
    assert_eq!(rt.invoke(&mut ext, HostFn::Ret, &vec![30, 2]), Err(Trap::Return));
    assert_eq!(rt.result, vec![1, 2]);
}

#[test]
fn big_endian_encoding() {
    let u = Uint256 { words: [0x0102, 0, 0, 0x0a0b << 48] };
    let b = u.to_be_bytes();
    assert_eq!(b.len(), 32);
    assert_eq!(&b[0..2], &[0x0a, 0x0b]);
    assert_eq!(&b[30..32], &[0x01, 0x02]);
}

#[test]
fn assembles_each_ending() {
    let s = schedule(2, 1);
    match assemble(10, vec![1], Invocation::Completed, &s) {
        Ok(GasLeft::Known(g)) => assert_eq!(g.to_u64(), Some(5)),
        _ => panic!("expected Known"),
    }
    match assemble(10, vec![1, 2], Invocation::Trapped(Trap::Return), &s) {
        Ok(GasLeft::NeedsReturn { gas_left, data, apply_state }) => {
            assert_eq!(gas_left.to_u64(), Some(5));
            assert_eq!(data, vec![1, 2]);
            assert!(apply_state);
        }
        _ => panic!("expected NeedsReturn"),
    }
    match assemble(10, vec![1, 2], Invocation::Trapped(Trap::Suicide), &s) {
        Ok(GasLeft::NeedsReturn { data, apply_state, .. }) => {
            assert!(data.is_empty());
            assert!(apply_state);
        }
        _ => panic!("expected NeedsReturn"),
    }
    assert_eq!(
        assemble(10, vec![], Invocation::Trapped(Trap::Fault(Error::OutOfGas)), &s).err(),
        Some(Error::OutOfGas)
    );
}

/// Plays a fixed script of host calls in place of a bytecode interpreter.
struct Script {
    calls: Vec<(HostFn, Vec<u64>)>,
    prefill: Vec<u8>,
}

impl Executor<MockExt> for Script {
    fn execute(&mut self, _table: &ImportTable, rt: &mut Runtime, ext: &mut MockExt) -> Invocation {
        if rt.memory_set(0, &self.prefill).is_err() {
            return Invocation::Trapped(Trap::Fault(Error::MemoryAccessFault));
        }
        for (f, args) in &self.calls {
            if let Err(t) = rt.invoke(ext, *f, args) {
                return Invocation::Trapped(t);
            }
        }
        Invocation::Completed
    }
}

fn params(code: Option<BytecodeModule>, gas: u64) -> ActionParams {
    ActionParams {
        code,
        data: None,
        gas: Uint256::from_u64(gas),
        value: Uint256::zero(),
        address: vec![1u8; 20],
        sender: vec![2u8; 20],
        origin: vec![3u8; 20],
        code_address: vec![1u8; 20],
        code_version: Uint256::zero(),
    }
}

#[test]
fn halt_with_return_example() {
    let m = entry_module(Some(MemoryLimits { initial: 1, maximum: None }));
    let mut script = Script {
        calls: vec![(HostFn::Gas, vec![100]), (HostFn::Ret, vec![0, 2])],
        prefill: vec![0xAA, 0xBB],
    };
    let mut ext = MockExt::default();
    let r = WasmInterpreter::new(params(Some(m), 1000)).run(&mut ext, &schedule(1, 1), &mut script);
    match r {
        Ok(GasLeft::NeedsReturn { gas_left, data, apply_state }) => {
            assert_eq!(gas_left.to_u64(), Some(900));
            assert_eq!(data, vec![0xAA, 0xBB]);
            assert!(apply_state);
        }
        _ => panic!("expected NeedsReturn"),
    }
}

#[test]
fn self_destruct_run() {
    let m = entry_module(Some(MemoryLimits { initial: 1, maximum: None }));
    let mut s = schedule(1, 1);
    s.suicide = 50;
    let mut script = Script { calls: vec![(HostFn::Suicide, vec![0])], prefill: vec![6u8; 20] };
    let mut ext = MockExt::default();
    let r = WasmInterpreter::new(params(Some(m), 1000)).run(&mut ext, &s, &mut script);
    match r {
        Ok(GasLeft::NeedsReturn { gas_left, data, apply_state }) => {
            assert_eq!(gas_left.to_u64(), Some(950));
            assert!(data.is_empty());
            assert!(apply_state);
        }
        _ => panic!("expected NeedsReturn"),
    }
    assert_eq!(ext.suicides.len(), 1);
}

#[test]
fn run_reports_setup_errors_and_faults() {
    let mut ext = MockExt::default();
    let none = WasmInterpreter::new(params(None, 1000)).run(
        &mut ext,
        &schedule(1, 1),
        &mut Script { calls: vec![], prefill: vec![] },
    );
    match none {
        Ok(GasLeft::Known(g)) => assert_eq!(g.to_u64(), Some(0)),
        _ => panic!("expected Known"),
    }
    let mut bad = entry_module(None);
    bad.exports.clear();
    let r = WasmInterpreter::new(params(Some(bad), 1000)).run(
        &mut ext,
        &schedule(1, 1),
        &mut Script { calls: vec![], prefill: vec![] },
    );
    assert_eq!(r.err(), Some(Error::MalformedModule));
    let mut s = schedule(1, 1);
    s.initial_mem = 600;
    let m = entry_module(Some(MemoryLimits { initial: 2, maximum: None }));
    let r = WasmInterpreter::new(params(Some(m), 1000)).run(
        &mut ext,
        &s,
        &mut Script { calls: vec![], prefill: vec![] },
    );
    assert_eq!(r.err(), Some(Error::OutOfGas));
    let m = entry_module(Some(MemoryLimits { initial: 1, maximum: None }));
    let r = WasmInterpreter::new(params(Some(m), 1000)).run(
        &mut ext,
        &schedule(1, 1),
        &mut Script { calls: vec![(HostFn::Gas, vec![2000])], prefill: vec![] },
    );
    assert_eq!(r.err(), Some(Error::OutOfGas));
    let m = entry_module(Some(MemoryLimits { initial: 1, maximum: None }));
    let r = WasmInterpreter::new(params(Some(m), 1000)).run(
        &mut ext,
        &schedule(1, 1),
        &mut Script { calls: vec![(HostFn::Gas, vec![10])], prefill: vec![] },
    );
    match r {
        Ok(GasLeft::Known(g)) => assert_eq!(g.to_u64(), Some(990)),
        _ => panic!("expected Known"),
    }
}

#[test]
fn elog_bounds_and_gas() {
    let mut s = schedule(1, 1);
    s.mem_copy = 1;
    let mut rt = runtime(1, 100, s, 0);
    let mut ext = MockExt::default();
    assert_eq!(rt.elog(&mut ext, 0, 2, 64, 10), Ok(()));
    assert_eq!(rt.gas.left, 90);
    assert_eq!(rt.elog(&mut ext, 0, 5, 64, 10), Err(Trap::Fault(Error::ExecutionFault)));
    assert_eq!(rt.elog(&mut ext, 65500, 2, 0, 10), Err(Trap::Fault(Error::MemoryAccessFault)));
    assert_eq!(rt.elog(&mut ext, 0, 1, 0, 200), Err(Trap::Fault(Error::OutOfGas)));
    assert_eq!(rt.gas.left, 0);
}

#[test]
fn ccall_faults_before_calling() {
    let mut s = schedule(1, 1);
    s.call = 10;
    let mut ext = MockExt::default();
    let mut rt = runtime(1, 100, s, 0);
    assert_eq!(rt.ccall(&mut ext, 5, 65530, 32, 64, 4, 100, 8), Err(Trap::Fault(Error::MemoryAccessFault)));
    assert_eq!(rt.gas.left, 100);
    assert_eq!(rt.ccall(&mut ext, 95, 0, 32, 64, 4, 100, 8), Err(Trap::Fault(Error::OutOfGas)));
    assert_eq!(rt.gas.left, 0);
    let mut rt = runtime(1, 5, s, 4);
    assert_eq!(rt.ccall(&mut ext, 1, 0, 32, 64, 4, 100, 8), Err(Trap::Fault(Error::OutOfGas)));
    assert_eq!(ext.calls, 0);
}

#[test]
fn call_result_is_applied() {
    let mut rt = runtime(1, 10, schedule(1, 1), 0);
    let res = CallResult { success: false, output: vec![1, 2, 3, 4], gas_left: 7 };
    assert_eq!(rt.apply_call_result(5, &res, 0, 8), Err(Trap::Fault(Error::ExecutionFault)));
    assert_eq!(rt.gas.left, 10);
    assert_eq!(rt.apply_call_result(8, &res, 0, 2), Ok(CALL_FAILED));
    assert_eq!(rt.gas.left, 17);
    assert_eq!(rt.memory_get(0, 3).unwrap(), vec![1, 2, 0]);
    let ok = CallResult { success: true, output: vec![5], gas_left: 0 };
    assert_eq!(rt.apply_call_result(0, &ok, 10, 8), Ok(CALL_OK));
    assert_eq!(rt.memory_get(10, 2).unwrap(), vec![5, 0]);
}

#[test]
fn host_answers_of_wrong_length_fault() {
    let mut rt = runtime(1, 10, schedule(1, 1), 0);
    assert_eq!(rt.checked_write(0, &vec![1, 2, 3], 32), Err(Trap::Fault(Error::ExecutionFault)));
    assert_eq!(rt.checked_write(65535, &vec![1, 2], 2), Err(Trap::Fault(Error::MemoryAccessFault)));
    assert_eq!(rt.checked_write(0, &vec![1, 2], 2), Ok(()));
    assert_eq!(rt.memory_get(0, 2).unwrap(), vec![1, 2]);
}

#[test]
fn storage_read_out_of_gas() {
    let mut s = schedule(1, 1);
    s.sload = 50;
    let mut rt = runtime(1, 10, s, 0);
    let mut ext = MockExt::default();
    assert_eq!(rt.storage_read(&mut ext, 0, 32), Err(Trap::Fault(Error::OutOfGas)));
    assert_eq!(rt.gas.left, 0);
}

#[test]
fn interpreter_faults_surface_as_execution_faults() {
    let s = schedule(1, 1);
    assert_eq!(
        assemble(10, vec![], Invocation::Trapped(Trap::Fault(Error::GasConversionOverflow)), &s).err(),
        Some(Error::ExecutionFault)
    );
    assert_eq!(
        assemble(10, vec![], Invocation::Trapped(Trap::Fault(Error::MemoryAccessFault)), &s).err(),
        Some(Error::MemoryAccessFault)
    );
}
