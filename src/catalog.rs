//! The host functions a guest may import from the `env` namespace. Each
//! entry is implemented, or registered only so that modules compiled against
//! the full interface link, and fails the call as soon as it is invoked.

use vstd::prelude::*;
use vstd::string::StrSliceExecFns;
use crate::host::ExecutionError;

verus! {

/// The namespace under which every host function is imported.
pub const HOST_NAMESPACE: &'static str = "env";

/// A WebAssembly value type of a host function's parameter or result.
#[derive(Clone, Copy, Debug, PartialEq, Eq, Structural)]
pub enum ValType {
    I32,
    I64,
}

/// The host functions that do work.
#[derive(Clone, Copy, Debug, PartialEq, Eq, Structural)]
pub enum HostCall {
    RegisterLen,
    ReadRegister,
    WriteRegister,
    Input,
    AttachedDeposit,
    PredecessorAccountId,
    ValueReturn,
    Panic,
    PanicUtf8,
    StorageWrite,
    StorageRead,
    StorageRemove,
    StorageHasKey,
}

impl HostCall {
    pub open spec fn spec_name(self) -> Seq<char> {
        match self {
            HostCall::RegisterLen => "register_len"@,
            HostCall::ReadRegister => "read_register"@,
            HostCall::WriteRegister => "write_register"@,
            HostCall::Input => "input"@,
            HostCall::AttachedDeposit => "attached_deposit"@,
            HostCall::PredecessorAccountId => "predecessor_account_id"@,
            HostCall::ValueReturn => "value_return"@,
            HostCall::Panic => "panic"@,
            HostCall::PanicUtf8 => "panic_utf8"@,
            HostCall::StorageWrite => "storage_write"@,
            HostCall::StorageRead => "storage_read"@,
            HostCall::StorageRemove => "storage_remove"@,
            HostCall::StorageHasKey => "storage_has_key"@,
        }
    }

    /// Number of parameters, each an `i64`.
    pub open spec fn spec_arity(self) -> nat {
        match self {
            HostCall::RegisterLen => 1,
            HostCall::ReadRegister => 2,
            HostCall::WriteRegister => 3,
            HostCall::Input => 1,
            HostCall::AttachedDeposit => 1,
            HostCall::PredecessorAccountId => 1,
            HostCall::ValueReturn => 2,
            HostCall::Panic => 0,
            HostCall::PanicUtf8 => 2,
            HostCall::StorageWrite => 5,
            HostCall::StorageRead => 3,
            HostCall::StorageRemove => 3,
            HostCall::StorageHasKey => 2,
        }
    }

    /// Whether the function returns an `i64`; otherwise it returns nothing.
    pub open spec fn spec_has_result(self) -> bool {
        match self {
            HostCall::RegisterLen | HostCall::StorageWrite | HostCall::StorageRead
            | HostCall::StorageRemove | HostCall::StorageHasKey => true,
            _ => false,
        }
    }

    /// The name the guest imports this function by.
    pub fn name(&self) -> (r: &'static str)
        ensures
            r@ == self.spec_name(),
    {
        match self {
            HostCall::RegisterLen => "register_len",
            HostCall::ReadRegister => "read_register",
            HostCall::WriteRegister => "write_register",
            HostCall::Input => "input",
            HostCall::AttachedDeposit => "attached_deposit",
            HostCall::PredecessorAccountId => "predecessor_account_id",
            HostCall::ValueReturn => "value_return",
            HostCall::Panic => "panic",
            HostCall::PanicUtf8 => "panic_utf8",
            HostCall::StorageWrite => "storage_write",
            HostCall::StorageRead => "storage_read",
            HostCall::StorageRemove => "storage_remove",
            HostCall::StorageHasKey => "storage_has_key",
        }
    }

    pub fn arity(&self) -> (r: usize)
        ensures
            r == self.spec_arity(),
    {
        match self {
            HostCall::RegisterLen => 1,
            HostCall::ReadRegister => 2,
            HostCall::WriteRegister => 3,
            HostCall::Input => 1,
            HostCall::AttachedDeposit => 1,
            HostCall::PredecessorAccountId => 1,
            HostCall::ValueReturn => 2,
            HostCall::Panic => 0,
            HostCall::PanicUtf8 => 2,
            HostCall::StorageWrite => 5,
            HostCall::StorageRead => 3,
            HostCall::StorageRemove => 3,
            HostCall::StorageHasKey => 2,
        }
    }

    pub fn has_result(&self) -> (r: bool)
        ensures
            r == self.spec_has_result(),
    {
        match self {
            HostCall::RegisterLen | HostCall::StorageWrite | HostCall::StorageRead
            | HostCall::StorageRemove | HostCall::StorageHasKey => true,
            _ => false,
        }
    }
}

/// What invoking an imported function does.
#[derive(Clone, Copy, Debug, PartialEq, Eq, Structural)]
pub enum Binding {
    Implemented(HostCall),
    /// Declared for linking only: invoking it fails the call.
    Trap,
}

/// One importable function: its name, its signature and its binding.
#[derive(Debug)]
pub struct HostImport {
    pub name: &'static str,
    pub params: Vec<ValType>,
    pub result: Option<ValType>,
    pub binding: Binding,
}

/// Some entry of `imports` implements `call`.
pub open spec fn provides(imports: Seq<HostImport>, call: HostCall) -> bool {
    exists|j: int| 0 <= j < imports.len() && #[trigger] imports[j].binding == Binding::Implemented(call)
}

/// `n` parameters of type `i64`.
pub open spec fn i64_params(n: nat) -> Seq<ValType> {
    Seq::new(n, |_i: int| ValType::I64)
}

impl HostImport {
    /// An implemented entry carries the name and signature of its function.
    pub open spec fn well_formed(&self) -> bool {
        match self.binding {
            Binding::Implemented(c) => {
                &&& self.name@ == c.spec_name()
                &&& self.params@ == i64_params(c.spec_arity())
                &&& self.result == if c.spec_has_result() {
                    Some(ValType::I64)
                } else {
                    None
                }
            },
            Binding::Trap => true,
        }
    }

    /// What invoking this import does to the call: nothing for an implemented
    /// one, a failure that names it for one declared only for linking.
    pub fn invoke_check(&self) -> (r: Result<HostCall, ExecutionError>)
        ensures
            match self.binding {
                Binding::Implemented(c) => r == Ok::<HostCall, ExecutionError>(c),
                Binding::Trap => r matches Err(ExecutionError::UnsupportedHostCall(n))
                    && n@ == self.name@,
            },
    {
        match self.binding {
            Binding::Implemented(c) => Ok(c),
            Binding::Trap => Err(ExecutionError::UnsupportedHostCall(String::from_str(self.name))),
        }
    }
}

fn i64s(n: usize) -> (r: Vec<ValType>)
    ensures
        r@ == i64_params(n as nat),
{
    let mut r: Vec<ValType> = Vec::new();
    let mut i: usize = 0;
    while i < n
        invariant
            i <= n,
            r@ == i64_params(i as nat),
        decreases n - i,
    {
        r.push(ValType::I64);
        i = i + 1;
        assert(r@ =~= i64_params(i as nat));
    }
    r
}

fn implemented(call: HostCall) -> (r: HostImport)
    ensures
        r.binding == Binding::Implemented(call),
        r.well_formed(),
{
    HostImport {
        name: call.name(),
        params: i64s(call.arity()),
        result: if call.has_result() {
            Some(ValType::I64)
        } else {
            None
        },
        binding: Binding::Implemented(call),
    }
}

/// Number of functions declared only for linking.
pub const TRAP_COUNT: usize = 68;

/// Entry `i` of the functions declared only for linking: name, parameter
/// types and result type.
pub open spec fn trap_entry(i: int) -> (Seq<char>, Seq<ValType>, Option<ValType>) {
    if i == 0 {
        ("current_account_id"@, i64_params(1), None)
    } else if i == 1 {
        ("current_contract_code"@, i64_params(1), Some(ValType::I64))
    } else if i == 2 {
        ("refund_to_account_id"@, i64_params(1), None)
    } else if i == 3 {
        ("signer_account_id"@, i64_params(1), None)
    } else if i == 4 {
        ("signer_account_pk"@, i64_params(1), None)
    } else if i == 5 {
        ("block_index"@, i64_params(0), Some(ValType::I64))
    } else if i == 6 {
        ("block_timestamp"@, i64_params(0), Some(ValType::I64))
    } else if i == 7 {
        ("epoch_height"@, i64_params(0), Some(ValType::I64))
    } else if i == 8 {
        ("storage_usage"@, i64_params(0), Some(ValType::I64))
    } else if i == 9 {
        ("account_balance"@, i64_params(1), None)
    } else if i == 10 {
        ("account_locked_balance"@, i64_params(1), None)
    } else if i == 11 {
        ("prepaid_gas"@, i64_params(0), Some(ValType::I64))
    } else if i == 12 {
        ("used_gas"@, i64_params(0), Some(ValType::I64))
    } else if i == 13 {
        ("random_seed"@, i64_params(1), None)
    } else if i == 14 {
        ("sha256"@, i64_params(3), None)
    } else if i == 15 {
        ("keccak256"@, i64_params(3), None)
    } else if i == 16 {
        ("keccak512"@, i64_params(3), None)
    } else if i == 17 {
        ("ripemd160"@, i64_params(3), None)
    } else if i == 18 {
        ("ecrecover"@, i64_params(7), Some(ValType::I64))
    } else if i == 19 {
        ("ed25519_verify"@, i64_params(6), Some(ValType::I64))
    } else if i == 20 {
        ("log_utf8"@, i64_params(2), None)
    } else if i == 21 {
        ("log_utf16"@, i64_params(2), None)
    } else if i == 22 {
        ("abort"@, i32_params(4), None)
    } else if i == 23 {
        ("promise_create"@, i64_params(8), Some(ValType::I64))
    } else if i == 24 {
        ("promise_then"@, i64_params(9), Some(ValType::I64))
    } else if i == 25 {
        ("promise_and"@, i64_params(2), Some(ValType::I64))
    } else if i == 26 {
        ("promise_batch_create"@, i64_params(2), Some(ValType::I64))
    } else if i == 27 {
        ("promise_batch_then"@, i64_params(3), Some(ValType::I64))
    } else if i == 28 {
        ("promise_set_refund_to"@, i64_params(3), None)
    } else if i == 29 {
        ("promise_batch_action_state_init"@, i64_params(4), Some(ValType::I64))
    } else if i == 30 {
        ("promise_batch_action_state_init_by_account_id"@, i64_params(4), Some(ValType::I64))
    } else if i == 31 {
        ("set_state_init_data_entry"@, i64_params(6), None)
    } else if i == 32 {
        ("promise_batch_action_create_account"@, i64_params(1), None)
    } else if i == 33 {
        ("promise_batch_action_deploy_contract"@, i64_params(3), None)
    } else if i == 34 {
        ("promise_batch_action_function_call"@, i64_params(7), None)
    } else if i == 35 {
        ("promise_batch_action_function_call_weight"@, i64_params(8), None)
    } else if i == 36 {
        ("promise_batch_action_transfer"@, i64_params(2), None)
    } else if i == 37 {
        ("promise_batch_action_stake"@, i64_params(4), None)
    } else if i == 38 {
        ("promise_batch_action_add_key_with_full_access"@, i64_params(4), None)
    } else if i == 39 {
        ("promise_batch_action_add_key_with_function_call"@, i64_params(9), None)
    } else if i == 40 {
        ("promise_batch_action_delete_key"@, i64_params(3), None)
    } else if i == 41 {
        ("promise_batch_action_delete_account"@, i64_params(3), None)
    } else if i == 42 {
        ("promise_batch_action_deploy_global_contract"@, i64_params(3), None)
    } else if i == 43 {
        ("promise_batch_action_deploy_global_contract_by_account_id"@, i64_params(3), None)
    } else if i == 44 {
        ("promise_batch_action_use_global_contract"@, i64_params(3), None)
    } else if i == 45 {
        ("promise_batch_action_use_global_contract_by_account_id"@, i64_params(3), None)
    } else if i == 46 {
        ("promise_yield_create"@, i64_params(7), Some(ValType::I64))
    } else if i == 47 {
        ("promise_yield_resume"@, i64_params(4), Some(ValType::I32))
    } else if i == 48 {
        ("promise_results_count"@, i64_params(0), Some(ValType::I64))
    } else if i == 49 {
        ("promise_result"@, i64_params(2), Some(ValType::I64))
    } else if i == 50 {
        ("promise_return"@, i64_params(1), None)
    } else if i == 51 {
        ("storage_iter_prefix"@, i64_params(2), Some(ValType::I64))
    } else if i == 52 {
        ("storage_iter_range"@, i64_params(4), Some(ValType::I64))
    } else if i == 53 {
        ("storage_iter_next"@, i64_params(3), Some(ValType::I64))
    } else if i == 54 {
        ("validator_stake"@, i64_params(3), None)
    } else if i == 55 {
        ("validator_total_stake"@, i64_params(1), None)
    } else if i == 56 {
        ("alt_bn128_g1_multiexp"@, i64_params(3), None)
    } else if i == 57 {
        ("alt_bn128_g1_sum"@, i64_params(3), None)
    } else if i == 58 {
        ("alt_bn128_pairing_check"@, i64_params(2), Some(ValType::I64))
    } else if i == 59 {
        ("bls12381_p1_sum"@, i64_params(3), Some(ValType::I64))
    } else if i == 60 {
        ("bls12381_p2_sum"@, i64_params(3), Some(ValType::I64))
    } else if i == 61 {
        ("bls12381_g1_multiexp"@, i64_params(3), Some(ValType::I64))
    } else if i == 62 {
        ("bls12381_g2_multiexp"@, i64_params(3), Some(ValType::I64))
    } else if i == 63 {
        ("bls12381_map_fp_to_g1"@, i64_params(3), Some(ValType::I64))
    } else if i == 64 {
        ("bls12381_map_fp2_to_g2"@, i64_params(3), Some(ValType::I64))
    } else if i == 65 {
        ("bls12381_pairing_check"@, i64_params(2), Some(ValType::I64))
    } else if i == 66 {
        ("bls12381_p1_decompress"@, i64_params(3), Some(ValType::I64))
    } else if i == 67 {
        ("bls12381_p2_decompress"@, i64_params(3), Some(ValType::I64))
    } else {
        (Seq::empty(), Seq::empty(), None)
    }
}

/// `e` is entry `i` of the functions declared only for linking.
pub open spec fn declared_as(e: HostImport, i: int) -> bool {
    &&& e.name@ == trap_entry(i).0
    &&& e.params@ == trap_entry(i).1
    &&& e.result == trap_entry(i).2
    &&& e.binding == Binding::Trap
}

/// `s` holds the first `s.len()` entries of the linking-only table, in order.
pub open spec fn declares_prefix(s: Seq<HostImport>) -> bool {
    forall|j: int| 0 <= j < s.len() ==> #[trigger] declared_as(s[j], j)
}

/// `n` parameters of type `i32`.
pub open spec fn i32_params(n: nat) -> Seq<ValType> {
    Seq::new(n, |_i: int| ValType::I32)
}

fn push_trap(v: &mut Vec<HostImport>, name: &'static str, arity: usize, result: Option<ValType>)
    requires
        declares_prefix(old(v)@),
        trap_entry(old(v)@.len() as int) == (name@, i64_params(arity as nat), result),
    ensures
        declares_prefix(final(v)@),
        final(v)@.len() == old(v)@.len() + 1,
{
    v.push(HostImport { name, params: i64s(arity), result, binding: Binding::Trap });
    assert(declared_as(v@[v@.len() - 1], v@.len() - 1));
}

fn push_i32_trap(v: &mut Vec<HostImport>, name: &'static str, arity: usize)
    requires
        declares_prefix(old(v)@),
        trap_entry(old(v)@.len() as int) == (name@, i32_params(arity as nat), None::<ValType>),
    ensures
        declares_prefix(final(v)@),
        final(v)@.len() == old(v)@.len() + 1,
{
    let mut params: Vec<ValType> = Vec::new();
    let mut i: usize = 0;
    while i < arity
        invariant
            i <= arity,
            params@ == i32_params(i as nat),
        decreases arity - i,
    {
        params.push(ValType::I32);
        i = i + 1;
        assert(params@ =~= i32_params(i as nat));
    }
    v.push(HostImport { name, params, result: None, binding: Binding::Trap });
    assert(declared_as(v@[v@.len() - 1], v@.len() - 1));
}

/// Number of implemented host functions.
pub const IMPLEMENTED_COUNT: usize = 13;

/// Entry `i` of the implemented functions, in catalog order.
pub open spec fn implemented_call(i: int) -> HostCall {
    if i == 0 {
        HostCall::RegisterLen
    } else if i == 1 {
        HostCall::ReadRegister
    } else if i == 2 {
        HostCall::WriteRegister
    } else if i == 3 {
        HostCall::Input
    } else if i == 4 {
        HostCall::AttachedDeposit
    } else if i == 5 {
        HostCall::PredecessorAccountId
    } else if i == 6 {
        HostCall::ValueReturn
    } else if i == 7 {
        HostCall::Panic
    } else if i == 8 {
        HostCall::PanicUtf8
    } else if i == 9 {
        HostCall::StorageWrite
    } else if i == 10 {
        HostCall::StorageRead
    } else if i == 11 {
        HostCall::StorageRemove
    } else {
        HostCall::StorageHasKey
    }
}

/// The implemented host functions, one entry each.
pub fn implemented_imports() -> (r: Vec<HostImport>)
    ensures
        r@.len() == IMPLEMENTED_COUNT,
        forall|j: int| 0 <= j < r@.len() ==> #[trigger] r@[j].well_formed(),
        forall|j: int| 0 <= j < r@.len() ==> #[trigger] r@[j].binding == Binding::Implemented(implemented_call(j)),
        forall|c: HostCall| #[trigger] provides(r@, c),
{
    let mut r: Vec<HostImport> = Vec::new();
    r.push(implemented(HostCall::RegisterLen));
    r.push(implemented(HostCall::ReadRegister));
    r.push(implemented(HostCall::WriteRegister));
    r.push(implemented(HostCall::Input));
    r.push(implemented(HostCall::AttachedDeposit));
    r.push(implemented(HostCall::PredecessorAccountId));
    r.push(implemented(HostCall::ValueReturn));
    r.push(implemented(HostCall::Panic));
    r.push(implemented(HostCall::PanicUtf8));
    r.push(implemented(HostCall::StorageWrite));
    r.push(implemented(HostCall::StorageRead));
    r.push(implemented(HostCall::StorageRemove));
    r.push(implemented(HostCall::StorageHasKey));
    proof {
        assert forall|c: HostCall| #[trigger] provides(r@, c) by {
            match c {
                HostCall::RegisterLen => assert(r@[0].binding == Binding::Implemented(c)),
                HostCall::ReadRegister => assert(r@[1].binding == Binding::Implemented(c)),
                HostCall::WriteRegister => assert(r@[2].binding == Binding::Implemented(c)),
                HostCall::Input => assert(r@[3].binding == Binding::Implemented(c)),
                HostCall::AttachedDeposit => assert(r@[4].binding == Binding::Implemented(c)),
                HostCall::PredecessorAccountId => assert(r@[5].binding == Binding::Implemented(c)),
                HostCall::ValueReturn => assert(r@[6].binding == Binding::Implemented(c)),
                HostCall::Panic => assert(r@[7].binding == Binding::Implemented(c)),
                HostCall::PanicUtf8 => assert(r@[8].binding == Binding::Implemented(c)),
                HostCall::StorageWrite => assert(r@[9].binding == Binding::Implemented(c)),
                HostCall::StorageRead => assert(r@[10].binding == Binding::Implemented(c)),
                HostCall::StorageRemove => assert(r@[11].binding == Binding::Implemented(c)),
                HostCall::StorageHasKey => assert(r@[12].binding == Binding::Implemented(c)),
            }
        }
    }
    r
}

/// The functions declared only so that modules compiled against the full
/// interface link; invoking any of them fails the call.
pub fn trapped_imports() -> (r: Vec<HostImport>)
    ensures
        r@.len() == TRAP_COUNT,
        declares_prefix(r@),
{
    let mut r: Vec<HostImport> = Vec::new();
    // Context
    push_trap(&mut r, "current_account_id", 1, None);
    push_trap(&mut r, "current_contract_code", 1, Some(ValType::I64));
    push_trap(&mut r, "refund_to_account_id", 1, None);
    push_trap(&mut r, "signer_account_id", 1, None);
    push_trap(&mut r, "signer_account_pk", 1, None);
    push_trap(&mut r, "block_index", 0, Some(ValType::I64));
    push_trap(&mut r, "block_timestamp", 0, Some(ValType::I64));
    push_trap(&mut r, "epoch_height", 0, Some(ValType::I64));
    push_trap(&mut r, "storage_usage", 0, Some(ValType::I64));
    // Economics
    push_trap(&mut r, "account_balance", 1, None);
    push_trap(&mut r, "account_locked_balance", 1, None);
    push_trap(&mut r, "prepaid_gas", 0, Some(ValType::I64));
    push_trap(&mut r, "used_gas", 0, Some(ValType::I64));
    // Math
    push_trap(&mut r, "random_seed", 1, None);
    push_trap(&mut r, "sha256", 3, None);
    push_trap(&mut r, "keccak256", 3, None);
    push_trap(&mut r, "keccak512", 3, None);
    push_trap(&mut r, "ripemd160", 3, None);
    push_trap(&mut r, "ecrecover", 7, Some(ValType::I64));
    push_trap(&mut r, "ed25519_verify", 6, Some(ValType::I64));
    // Miscellaneous
    push_trap(&mut r, "log_utf8", 2, None);
    push_trap(&mut r, "log_utf16", 2, None);
    push_i32_trap(&mut r, "abort", 4);
    // Promises
    push_trap(&mut r, "promise_create", 8, Some(ValType::I64));
    push_trap(&mut r, "promise_then", 9, Some(ValType::I64));
    push_trap(&mut r, "promise_and", 2, Some(ValType::I64));
    push_trap(&mut r, "promise_batch_create", 2, Some(ValType::I64));
    push_trap(&mut r, "promise_batch_then", 3, Some(ValType::I64));
    // Promise actions
    push_trap(&mut r, "promise_set_refund_to", 3, None);
    push_trap(&mut r, "promise_batch_action_state_init", 4, Some(ValType::I64));
    push_trap(&mut r, "promise_batch_action_state_init_by_account_id", 4, Some(ValType::I64));
    push_trap(&mut r, "set_state_init_data_entry", 6, None);
    push_trap(&mut r, "promise_batch_action_create_account", 1, None);
    push_trap(&mut r, "promise_batch_action_deploy_contract", 3, None);
    push_trap(&mut r, "promise_batch_action_function_call", 7, None);
    push_trap(&mut r, "promise_batch_action_function_call_weight", 8, None);
    push_trap(&mut r, "promise_batch_action_transfer", 2, None);
    push_trap(&mut r, "promise_batch_action_stake", 4, None);
    push_trap(&mut r, "promise_batch_action_add_key_with_full_access", 4, None);
    push_trap(&mut r, "promise_batch_action_add_key_with_function_call", 9, None);
    push_trap(&mut r, "promise_batch_action_delete_key", 3, None);
    push_trap(&mut r, "promise_batch_action_delete_account", 3, None);
    // Global contracts and yields
    push_trap(&mut r, "promise_batch_action_deploy_global_contract", 3, None);
    push_trap(&mut r, "promise_batch_action_deploy_global_contract_by_account_id", 3, None);
    push_trap(&mut r, "promise_batch_action_use_global_contract", 3, None);
    push_trap(&mut r, "promise_batch_action_use_global_contract_by_account_id", 3, None);
    push_trap(&mut r, "promise_yield_create", 7, Some(ValType::I64));
    push_trap(&mut r, "promise_yield_resume", 4, Some(ValType::I32));
    // Promise results
    push_trap(&mut r, "promise_results_count", 0, Some(ValType::I64));
    push_trap(&mut r, "promise_result", 2, Some(ValType::I64));
    push_trap(&mut r, "promise_return", 1, None);
    // Storage iteration
    push_trap(&mut r, "storage_iter_prefix", 2, Some(ValType::I64));
    push_trap(&mut r, "storage_iter_range", 4, Some(ValType::I64));
    push_trap(&mut r, "storage_iter_next", 3, Some(ValType::I64));
    // Validators
    push_trap(&mut r, "validator_stake", 3, None);
    push_trap(&mut r, "validator_total_stake", 1, None);
    // alt_bn128
    push_trap(&mut r, "alt_bn128_g1_multiexp", 3, None);
    push_trap(&mut r, "alt_bn128_g1_sum", 3, None);
    push_trap(&mut r, "alt_bn128_pairing_check", 2, Some(ValType::I64));
    // BLS12-381
    push_trap(&mut r, "bls12381_p1_sum", 3, Some(ValType::I64));
    push_trap(&mut r, "bls12381_p2_sum", 3, Some(ValType::I64));
    push_trap(&mut r, "bls12381_g1_multiexp", 3, Some(ValType::I64));
    push_trap(&mut r, "bls12381_g2_multiexp", 3, Some(ValType::I64));
    push_trap(&mut r, "bls12381_map_fp_to_g1", 3, Some(ValType::I64));
    push_trap(&mut r, "bls12381_map_fp2_to_g2", 3, Some(ValType::I64));
    push_trap(&mut r, "bls12381_pairing_check", 2, Some(ValType::I64));
    push_trap(&mut r, "bls12381_p1_decompress", 3, Some(ValType::I64));
    push_trap(&mut r, "bls12381_p2_decompress", 3, Some(ValType::I64));
    r
}

/// Every host function a guest may import: the implemented ones, then the
/// ones declared only for linking, in table order.
pub fn catalog() -> (r: Vec<HostImport>)
    ensures
        r@.len() == IMPLEMENTED_COUNT + TRAP_COUNT,
        forall|j: int| 0 <= j < r@.len() ==> #[trigger] r@[j].well_formed(),
        forall|j: int|
            0 <= j < IMPLEMENTED_COUNT ==> #[trigger] r@[j].binding == Binding::Implemented(
                implemented_call(j),
            ),
        forall|j: int|
            IMPLEMENTED_COUNT <= j < r@.len() ==> declared_as(#[trigger] r@[j], j - IMPLEMENTED_COUNT),
        forall|c: HostCall| #[trigger] provides(r@, c),
{
    let mut r = implemented_imports();
    let ghost first = r@;
    let mut traps = trapped_imports();
    let ghost second = traps@;
    r.append(&mut traps);
    proof {
        assert(r@ =~= first + second);
        assert forall|c: HostCall| #[trigger] provides(r@, c) by {
            assert(provides(first, c));
            let j = choose|j: int| 0 <= j < first.len() && #[trigger] first[j].binding == Binding::Implemented(c);
            assert(r@[j] == first[j]);
        }
        assert forall|j: int| 0 <= j < r@.len() implies #[trigger] r@[j].well_formed() by {
            if j < first.len() {
                assert(r@[j] == first[j]);
            } else {
                assert(r@[j] == second[j - first.len()]);
                assert(declared_as(second[j - first.len()], j - first.len()));
            }
        }
        assert forall|j: int| 0 <= j < IMPLEMENTED_COUNT implies #[trigger] r@[j].binding
            == Binding::Implemented(implemented_call(j)) by {
            assert(r@[j] == first[j]);
        }
        assert forall|j: int| IMPLEMENTED_COUNT <= j < r@.len() implies declared_as(
            #[trigger] r@[j],
            j - IMPLEMENTED_COUNT,
        ) by {
            assert(r@[j] == second[j - first.len()]);
            assert(declared_as(second[j - first.len()], j - first.len()));
        }
    }
    r
}

/// Whether no two entries of `imports` share a name.
pub fn names_distinct(imports: &Vec<HostImport>) -> (r: bool)
    ensures
        r == forall|i: int, j: int|
            0 <= i < j < imports@.len() ==> #[trigger] imports@[i].name@ != #[trigger] imports@[j].name@,
{
    let n = imports.len();
    let mut i: usize = 0;
    while i < n
        invariant
            n == imports@.len(),
            i <= n,
            forall|a: int, b: int|
                0 <= a < i && a < b < n ==> #[trigger] imports@[a].name@ != #[trigger] imports@[b].name@,
        decreases n - i,
    {
        let x = String::from_str(imports[i].name);
        let mut j: usize = i + 1;
        while j < n
            invariant
                n == imports@.len(),
                i < n,
                i < j <= n,
                x@ == imports@[i as int].name@,
                forall|a: int, b: int|
                    0 <= a < i && a < b < n ==> #[trigger] imports@[a].name@ != #[trigger] imports@[b].name@,
                forall|b: int| i < b < j ==> imports@[i as int].name@ != #[trigger] imports@[b].name@,
            decreases n - j,
        {
            let y = String::from_str(imports[j].name);
            if x == y {
                return false;
            }
            j = j + 1;
        }
        i = i + 1;
    }
    true
}

} // verus!
