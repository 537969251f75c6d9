use sandboxed_dex::catalog::{
    catalog, implemented_imports, names_distinct, trapped_imports, Binding, HostCall, HostImport, ValType,
    IMPLEMENTED_COUNT, TRAP_COUNT,
};
use sandboxed_dex::dispatch::{reads, GuestRange, HostOutcome};
use sandboxed_dex::engine::{swap_request, DexId, SandboxedDexEngine, SWAP_AMOUNT_IN};
use sandboxed_dex::host::{ExecutionError, ExecutionState};
use sandboxed_dex::pricing::{AssetId, SwapRequestAmount, SwapResponse};
use sandboxed_dex::registers::{Registers, ABSENT_REGISTER_LEN};
use sandboxed_dex::storage::Storage;

fn state() -> ExecutionState {
    ExecutionState::new(b"{\"request\":{}}".to_vec(), b"alice.near".to_vec())
}

#[test]
fn register_round_trip_returns_the_bytes() {
    let mut r = Registers::new();
    r.write(7, vec![1, 2, 3]);
    assert_eq!(r.len(7), 3);
    assert_eq!(r.read(7), Some(vec![1, 2, 3]));
    r.write(7, vec![9]);
    assert_eq!(r.len(7), 1);
    assert_eq!(r.read(7), Some(vec![9]));
    r.write(8, vec![]);
    assert_eq!(r.len(8), 0);
}

#[test]
fn absent_register_answers_sentinel() {
    let r = Registers::new();
    assert_eq!(r.len(0), ABSENT_REGISTER_LEN);
    assert_eq!(ABSENT_REGISTER_LEN, u64::MAX);
    assert_eq!(r.read(0), None);
    let s = state();
    assert_eq!(s.register_len(3), u64::MAX);
    assert!(matches!(s.read_register(3), Err(ExecutionError::InvalidRegister(3))));
}

#[test]
fn guest_register_calls() {
    let mut s = state();
    s.write_register(1, b"abc".to_vec());
    assert_eq!(s.register_len(1), 3);
    assert_eq!(s.read_register(1).unwrap(), b"abc".to_vec());
    s.input(2);
    assert_eq!(s.read_register(2).unwrap(), b"{\"request\":{}}".to_vec());
    s.predecessor_account_id(3);
    assert_eq!(s.read_register(3).unwrap(), b"alice.near".to_vec());
    assert_eq!(s.attached_deposit(), 0);
}

#[test]
fn storage_keyspace_operations() {
    let mut st = Storage::new();
    assert_eq!(st.read(&b"k".to_vec()), None);
    assert!(!st.has(&b"k".to_vec()));
    assert_eq!(st.write(b"k".to_vec(), b"v1".to_vec()), None);
    assert_eq!(st.write(b"k".to_vec(), b"v2".to_vec()), Some(b"v1".to_vec()));
    assert_eq!(st.write(b"j".to_vec(), b"w".to_vec()), None);
    assert_eq!(st.read(&b"k".to_vec()), Some(b"v2".to_vec()));
    assert!(st.has(&b"j".to_vec()));
    assert_eq!(st.remove(&b"k".to_vec()), Some(b"v2".to_vec()));
    assert_eq!(st.remove(&b"k".to_vec()), None);
    assert!(!st.has(&b"k".to_vec()));
    assert_eq!(st.read(&b"j".to_vec()), Some(b"w".to_vec()));
}

#[test]
fn guest_storage_calls_use_registers() {
    let mut s = state();
    assert_eq!(s.storage_write(b"k".to_vec(), b"v1".to_vec(), 5), 0);
    assert_eq!(s.register_len(5), u64::MAX);
    assert_eq!(s.storage_write(b"k".to_vec(), b"v2".to_vec(), 5), 1);
    assert_eq!(s.read_register(5).unwrap(), b"v1".to_vec());
    assert_eq!(s.storage_has_key(b"k".to_vec()), 1);
    assert_eq!(s.storage_read(b"k".to_vec(), 6), 1);
    assert_eq!(s.read_register(6).unwrap(), b"v2".to_vec());
    assert_eq!(s.storage_read(b"x".to_vec(), 7), 0);
    assert_eq!(s.storage_remove(b"k".to_vec(), 8), 1);
    assert_eq!(s.read_register(8).unwrap(), b"v2".to_vec());
    assert_eq!(s.storage_remove(b"k".to_vec(), 9), 0);
    assert_eq!(s.storage_has_key(b"k".to_vec()), 0);
}

#[test]
fn storage_does_not_survive_the_call() {
    let mut first = state();
    assert_eq!(first.storage_write(b"k".to_vec(), b"v".to_vec(), 0), 0);
    drop(first);
    let mut second = state();
    assert_eq!(second.storage_has_key(b"k".to_vec()), 0);
    assert_eq!(second.storage_read(b"k".to_vec(), 0), 0);
}

#[test]
fn outcome_of_a_call() {
    let mut s = state();
    assert!(matches!(s.outcome(), Err(ExecutionError::NoResponse)));
    s.value_return(SwapResponse::Swapped { amount_in: 1000, amount_out: 909 });
    assert!(matches!(s.outcome(), Ok(909)));
    let stop = s.panic_utf8("Invalid asset in".to_string());
    assert!(matches!(stop, ExecutionError::Domain(ref m) if m == "Invalid asset in"));
    match s.outcome() {
        Err(ExecutionError::Domain(m)) => assert_eq!(m, "Invalid asset in"),
        other => panic!("unexpected outcome {other:?}"),
    }
    let stop = s.panic();
    assert!(matches!(stop, ExecutionError::Domain(ref m) if m == "panicked"));
    match s.outcome() {
        Err(ExecutionError::Domain(m)) => assert_eq!(m, "panicked"),
        other => panic!("unexpected outcome {other:?}"),
    }
}

#[test]
fn catalog_links_every_implemented_function() {
    let all = catalog();
    let implemented = implemented_imports();
    let trapped = trapped_imports();
    assert_eq!(all.len(), implemented.len() + trapped.len());
    assert_eq!(implemented.len(), 13);
    assert_eq!(implemented.len(), IMPLEMENTED_COUNT);
    assert_eq!(trapped.len(), TRAP_COUNT);
    assert!(trapped.iter().all(|e| e.binding == Binding::Trap));
    for name in ["sha256", "block_timestamp", "promise_create", "bls12381_p2_decompress"] {
        assert!(trapped.iter().any(|e| e.name == name), "{name}");
    }
    assert!(names_distinct(&all));
    let entry = all.iter().find(|e| e.name == "storage_write").unwrap();
    assert_eq!(entry.binding, Binding::Implemented(HostCall::StorageWrite));
    assert_eq!(entry.params, vec![ValType::I64; 5]);
    assert_eq!(entry.result, Some(ValType::I64));
    let mut names: Vec<&str> = all.iter().map(|e| e.name).collect();
    names.sort();
    names.dedup();
    assert_eq!(names.len(), all.len());
}

#[test]
fn trapped_function_fails_naming_itself() {
    let all = catalog();
    let sha = all.iter().find(|e| e.name == "sha256").unwrap();
    assert_eq!(sha.binding, Binding::Trap);
    assert_eq!(sha.params, vec![ValType::I64; 3]);
    match sha.invoke_check() {
        Err(ExecutionError::UnsupportedHostCall(n)) => assert_eq!(n, "sha256"),
        other => panic!("unexpected {other:?}"),
    }
    let abort = all.iter().find(|e| e.name == "abort").unwrap();
    assert_eq!(abort.params, vec![ValType::I32; 4]);
    assert_eq!(abort.result, None);
    let input = all.iter().find(|e| e.name == "input").unwrap();
    assert!(matches!(input.invoke_check(), Ok(HostCall::Input)));
}

#[test]
fn deployed_code_is_found_by_deployer_and_id() {
    let mut e = SandboxedDexEngine::new();
    e.deploy_code("alice.near".to_string(), "example".to_string(), vec![0, 97, 115, 109]);
    let id = DexId { deployer: "alice.near".to_string(), id: "example".to_string() };
    assert_eq!(e.code(&id), Some(vec![0, 97, 115, 109]));
    let other = DexId { deployer: "bob.near".to_string(), id: "example".to_string() };
    assert_eq!(e.code(&other), None);
    e.deploy_code("alice.near".to_string(), "example".to_string(), vec![1]);
    assert_eq!(e.code(&id), Some(vec![1]));
    assert_eq!(SandboxedDexEngine::default().code(&id), None);
}

#[test]
fn registry_swap_request() {
    let r = swap_request();
    assert_eq!(r.pool_id, "1");
    assert!(matches!(r.asset_in, AssetId::Near));
    assert!(matches!(r.asset_out, AssetId::Nep141(ref a) if a == "wrap.near"));
    assert_eq!(r.amount, SwapRequestAmount::ExactIn(SWAP_AMOUNT_IN));
    assert_eq!(SWAP_AMOUNT_IN, 10u128.pow(24));
}

#[test]
fn dispatch_reads_guest_memory_by_layout() {
    assert_eq!(
        reads(HostCall::StorageWrite, &vec![3, 100, 5, 200, 9]),
        vec![GuestRange { ptr: 100, len: 3 }, GuestRange { ptr: 200, len: 5 }]
    );
    assert_eq!(reads(HostCall::ValueReturn, &vec![7, 64]), vec![GuestRange { ptr: 64, len: 7 }]);
    assert_eq!(reads(HostCall::WriteRegister, &vec![1, 4, 32]), vec![GuestRange { ptr: 32, len: 4 }]);
    assert_eq!(reads(HostCall::ReadRegister, &vec![1, 32]), vec![]);
}

#[test]
fn dispatch_runs_host_calls() {
    let mut s = state();
    let r = s.handle(HostCall::StorageWrite, &vec![1, 0, 2, 8, 4], vec![b"k".to_vec(), b"v1".to_vec()]);
    assert!(matches!(r, Ok(HostOutcome::Value(0))));
    let r = s.handle(HostCall::StorageWrite, &vec![1, 0, 2, 8, 4], vec![b"k".to_vec(), b"v2".to_vec()]);
    assert!(matches!(r, Ok(HostOutcome::Value(1))));
    let r = s.handle(HostCall::ReadRegister, &vec![4, 128], vec![]);
    match r {
        Ok(HostOutcome::WriteGuest { ptr, bytes }) => {
            assert_eq!(ptr, 128);
            assert_eq!(bytes, b"v1".to_vec());
        }
        other => panic!("unexpected {other:?}"),
    }
    let r = s.handle(HostCall::RegisterLen, &vec![5], vec![]);
    assert!(matches!(r, Ok(HostOutcome::Value(u64::MAX))));
    let r = s.handle(HostCall::ReadRegister, &vec![5, 0], vec![]);
    assert!(matches!(r, Err(ExecutionError::InvalidRegister(5))));
    match s.handle(HostCall::AttachedDeposit, &vec![16], vec![]) {
        Ok(HostOutcome::WriteGuest { ptr, bytes }) => {
            assert_eq!(ptr, 16);
            assert_eq!(bytes, vec![0u8; 16]);
        }
        other => panic!("unexpected {other:?}"),
    }
    match s.handle(HostCall::ValueReturn, &vec![2, 0], vec![b"{}".to_vec()]) {
        Ok(HostOutcome::DecodeResponse(b)) => assert_eq!(b, b"{}".to_vec()),
        other => panic!("unexpected {other:?}"),
    }
    let r = s.handle(HostCall::Input, &vec![6], vec![]);
    assert!(matches!(r, Ok(HostOutcome::Done)));
    assert_eq!(s.read_register(6).unwrap(), b"{\"request\":{}}".to_vec());
    let r = s.handle(HostCall::StorageHasKey, &vec![1, 0], vec![b"k".to_vec()]);
    assert!(matches!(r, Ok(HostOutcome::Value(1))));
    let r = s.handle(HostCall::Panic, &vec![], vec![]);
    assert!(matches!(r, Err(ExecutionError::Domain(ref m)) if m == "panicked"));
    assert!(matches!(s.outcome(), Err(ExecutionError::Domain(_))));
}

#[test]
fn repeated_import_names_are_detected() {
    let entry = |name: &'static str| HostImport { name, params: vec![], result: None, binding: Binding::Trap };
    assert!(!names_distinct(&vec![entry("a"), entry("b"), entry("a")]));
    assert!(names_distinct(&vec![entry("a"), entry("b")]));
    assert!(names_distinct(&vec![]));
}
