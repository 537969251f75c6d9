//! One step of the host-call protocol: given an implemented function, its
//! integer arguments and the guest memory it reads, update the call's state
//! and say what goes back to the guest.

use vstd::prelude::*;
use crate::catalog::HostCall;
use crate::host::{found_flag, response_view, ExecutionError, ExecutionState};
use crate::pricing::SwapResponseView;
use crate::registers::{read_register_spec, register_len_spec};
use crate::storage::stored;

verus! {

/// A stretch of guest memory: `len` bytes from `ptr`.
#[derive(Clone, Copy, Debug, PartialEq, Eq, Structural)]
pub struct GuestRange {
    pub ptr: u64,
    pub len: u64,
}

/// What the sandbox does once a handler has run.
#[derive(Debug)]
pub enum HostOutcome {
    /// Return to the guest with no result.
    Done,
    /// Return this value to the guest.
    Value(u64),
    /// Copy `bytes` into guest memory at `ptr`, then return.
    WriteGuest { ptr: u64, bytes: Vec<u8> },
    /// Decode these bytes as the guest's response and record it.
    DecodeResponse(Vec<u8>),
    /// Decode these bytes as UTF-8 and record them as the guest's error with
    /// `ExecutionState::panic_utf8`, whose failure then stops the guest.
    DecodeMessage(Vec<u8>),
}

/// Guest memory that `call` reads, in order, for arguments `args`.
pub open spec fn reads_spec(call: HostCall, args: Seq<u64>) -> Seq<GuestRange> {
    match call {
        HostCall::WriteRegister => seq![GuestRange { ptr: args[2], len: args[1] }],
        HostCall::ValueReturn | HostCall::PanicUtf8 => seq![GuestRange { ptr: args[1], len: args[0] }],
        HostCall::StorageWrite => seq![
            GuestRange { ptr: args[1], len: args[0] },
            GuestRange { ptr: args[3], len: args[2] },
        ],
        HostCall::StorageRead | HostCall::StorageRemove | HostCall::StorageHasKey => seq![
            GuestRange { ptr: args[1], len: args[0] },
        ],
        _ => Seq::empty(),
    }
}

/// The guest memory that `call` reads, in order, for arguments `args`.
pub fn reads(call: HostCall, args: &Vec<u64>) -> (r: Vec<GuestRange>)
    requires
        args@.len() == call.spec_arity(),
    ensures
        r@ == reads_spec(call, args@),
{
    let r = match call {
        HostCall::WriteRegister => vec![GuestRange { ptr: args[2], len: args[1] }],
        HostCall::ValueReturn | HostCall::PanicUtf8 => vec![GuestRange { ptr: args[1], len: args[0] }],
        HostCall::StorageWrite => vec![
            GuestRange { ptr: args[1], len: args[0] },
            GuestRange { ptr: args[3], len: args[2] },
        ],
        HostCall::StorageRead | HostCall::StorageRemove | HostCall::StorageHasKey => vec![
            GuestRange { ptr: args[1], len: args[0] },
        ],
        _ => Vec::new(),
    };
    assert(r@ =~= reads_spec(call, args@));
    r
}

/// The little-endian bytes of a zero deposit.
pub open spec fn zero_deposit_bytes() -> Seq<u8> {
    Seq::new(16, |_i: int| 0u8)
}

/// The bytes a handler is given carry what `reads_spec` asks for.
pub open spec fn reads_match(call: HostCall, args: Seq<u64>, read: Seq<Vec<u8>>) -> bool {
    &&& read.len() == reads_spec(call, args).len()
    &&& forall|i: int| 0 <= i < read.len() ==> #[trigger] read[i]@.len() == reads_spec(call, args)[i].len
}

impl ExecutionState {
    /// Runs implemented host function `call` on arguments `args`, with
    /// `read` the guest memory that `reads` named, copied out in order. An
    /// `Err` stops the guest and ends the call with that failure.
    pub fn handle(&mut self, call: HostCall, args: &Vec<u64>, read: Vec<Vec<u8>>) -> (r: Result<
        HostOutcome,
        ExecutionError,
    >)
        requires
            args@.len() == call.spec_arity(),
            reads_match(call, args@, read@),
        ensures
            final(self).request == old(self).request,
            final(self).caller == old(self).caller,
            match call {
                HostCall::RegisterLen => r matches Ok(HostOutcome::Value(v)) && v as int
                    == register_len_spec(old(self).registers@, args@[0])
                    && final(self).registers@ == old(self).registers@,
                HostCall::ReadRegister => (match read_register_spec(old(self).registers@, args@[0]) {
                    Some(b) => r matches Ok(HostOutcome::WriteGuest { ptr, bytes }) && ptr
                        == args@[1] && bytes@ == b,
                    None => r matches Err(ExecutionError::InvalidRegister(id)) && id == args@[0],
                }) && final(self).registers@ == old(self).registers@,
                HostCall::WriteRegister => r matches Ok(HostOutcome::Done)
                    && final(self).registers@ == old(self).registers@.insert(args@[0], read@[0]@),
                HostCall::Input => r matches Ok(HostOutcome::Done) && final(self).registers@
                    == old(self).registers@.insert(args@[0], old(self).request@),
                HostCall::AttachedDeposit => r matches Ok(HostOutcome::WriteGuest { ptr, bytes })
                    && ptr == args@[0] && bytes@ == zero_deposit_bytes()
                    && final(self).registers@ == old(self).registers@,
                HostCall::PredecessorAccountId => r matches Ok(HostOutcome::Done)
                    && final(self).registers@ == old(self).registers@.insert(
                    args@[0],
                    old(self).caller@,
                ),
                HostCall::ValueReturn => r matches Ok(HostOutcome::DecodeResponse(b)) && b@
                    == read@[0]@ && final(self).registers@ == old(self).registers@,
                HostCall::Panic => r matches Err(ExecutionError::Domain(m)) && m@ == "panicked"@
                    && response_view(
                    final(self).response,
                ) == Some(SwapResponseView::Error { message: "panicked"@ })
                    && final(self).registers@ == old(self).registers@,
                HostCall::PanicUtf8 => r matches Ok(HostOutcome::DecodeMessage(b)) && b@
                    == read@[0]@ && final(self).registers@ == old(self).registers@,
                HostCall::StorageWrite => r matches Ok(HostOutcome::Value(v)) && v == found_flag(
                    old(self).storage@.contains_key(read@[0]@),
                ) && final(self).storage@ == old(self).storage@.insert(read@[0]@, read@[1]@)
                    && final(self).registers@ == match stored(old(self).storage@, read@[0]@) {
                    Some(p) => old(self).registers@.insert(args@[4], p),
                    None => old(self).registers@,
                },
                HostCall::StorageRead => r matches Ok(HostOutcome::Value(v)) && v == found_flag(
                    old(self).storage@.contains_key(read@[0]@),
                ) && final(self).registers@ == match stored(old(self).storage@, read@[0]@) {
                    Some(p) => old(self).registers@.insert(args@[2], p),
                    None => old(self).registers@,
                },
                HostCall::StorageRemove => r matches Ok(HostOutcome::Value(v)) && v == found_flag(
                    old(self).storage@.contains_key(read@[0]@),
                ) && final(self).storage@ == old(self).storage@.remove(read@[0]@)
                    && final(self).registers@ == match stored(old(self).storage@, read@[0]@) {
                    Some(p) => old(self).registers@.insert(args@[2], p),
                    None => old(self).registers@,
                },
                HostCall::StorageHasKey => r matches Ok(HostOutcome::Value(v)) && v == found_flag(
                    old(self).storage@.contains_key(read@[0]@),
                ) && final(self).registers@ == old(self).registers@,
            },
            !(call is StorageWrite || call is StorageRemove) ==> final(self).storage@ == old(
                self,
            ).storage@,
            !(call is Panic) ==> final(self).response == old(self).response,
    {
        let mut read = read;
        match call {
            HostCall::RegisterLen => Ok(HostOutcome::Value(self.register_len(args[0]))),
            HostCall::ReadRegister => match self.read_register(args[0]) {
                Ok(bytes) => Ok(HostOutcome::WriteGuest { ptr: args[1], bytes }),
                Err(e) => Err(e),
            },
            HostCall::WriteRegister => {
                let data = read.remove(0);
                self.write_register(args[0], data);
                Ok(HostOutcome::Done)
            },
            HostCall::Input => {
                self.input(args[0]);
                Ok(HostOutcome::Done)
            },
            HostCall::AttachedDeposit => {
                let deposit = self.attached_deposit();
                let mut bytes: Vec<u8> = Vec::new();
                let mut i: usize = 0;
                while i < 16
                    invariant
                        i <= 16,
                        deposit == 0,
                        bytes@ == Seq::new(i as nat, |_j: int| 0u8),
                    decreases 16 - i,
                {
                    bytes.push((#[verifier::truncate] (((deposit >> (8 * i as u128)) & 0xff) as u8)));
                    i = i + 1;
                    assert(bytes@ =~= Seq::new(i as nat, |_j: int| 0u8)) by {
                        assert((0u128 >> (8 * (i - 1) as u128)) & 0xff == 0) by (bit_vector);
                    }
                }
                Ok(HostOutcome::WriteGuest { ptr: args[0], bytes })
            },
            HostCall::PredecessorAccountId => {
                self.predecessor_account_id(args[0]);
                Ok(HostOutcome::Done)
            },
            HostCall::ValueReturn => Ok(HostOutcome::DecodeResponse(read.remove(0))),
            HostCall::Panic => Err(self.panic()),
            HostCall::PanicUtf8 => Ok(HostOutcome::DecodeMessage(read.remove(0))),
            HostCall::StorageWrite => {
                let key = read.remove(0);
                let value = read.remove(0);
                Ok(HostOutcome::Value(self.storage_write(key, value, args[4])))
            },
            HostCall::StorageRead => {
                let key = read.remove(0);
                Ok(HostOutcome::Value(self.storage_read(key, args[2])))
            },
            HostCall::StorageRemove => {
                let key = read.remove(0);
                Ok(HostOutcome::Value(self.storage_remove(key, args[2])))
            },
            HostCall::StorageHasKey => {
                let key = read.remove(0);
                Ok(HostOutcome::Value(self.storage_has_key(key)))
            },
        }
    }
}

} // verus!
