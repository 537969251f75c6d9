//! The state that a host keeps for one guest call, and what each implemented
//! host function does to it. Guest memory stays with the sandbox runtime: a
//! handler receives the bytes that were copied out of it and hands back what
//! is to be copied in.

use vstd::prelude::*;
use vstd::string::StrSliceExecFns;
use crate::pricing::{SwapResponse, SwapResponseView};
use crate::registers::{register_len_spec, read_register_spec, Registers};
use crate::storage::{stored, Storage};

verus! {

/// Why a call into a guest module fails as a whole.
#[derive(Debug)]
pub enum ExecutionError {
    /// The module bytes do not parse.
    Load(String),
    /// A host function could not be registered.
    Link(String),
    /// The guest called a host function that is declared but not implemented.
    UnsupportedHostCall(String),
    /// The guest named memory outside its own.
    MemoryFault,
    /// The guest's own code trapped.
    Trap(String),
    /// A register was read that holds nothing.
    InvalidRegister(u64),
    /// The guest's response does not have the expected shape.
    Protocol(String),
    /// The guest returned without producing a response.
    NoResponse,
    /// The guest answered with an error of its own.
    Domain(String),
}

/// Result of a storage operation as the guest sees it: 1 where a value was
/// found (and copied to the register named), 0 otherwise.
pub open spec fn found_flag(found: bool) -> u64 {
    if found {
        1
    } else {
        0
    }
}

/// Per-call state: the pending request, the response once given, the
/// register table, the keyspace and the caller's identity.
pub struct ExecutionState {
    /// The request, already encoded as the input envelope.
    pub request: Vec<u8>,
    pub response: Option<SwapResponse>,
    pub registers: Registers,
    pub storage: Storage,
    /// The caller's account id, as bytes.
    pub caller: Vec<u8>,
}

pub open spec fn response_view(r: Option<SwapResponse>) -> Option<SwapResponseView> {
    match r {
        Some(v) => Some(v@),
        None => None,
    }
}

impl ExecutionState {
    /// Fresh state for one call: empty registers and keyspace, no response.
    pub fn new(request: Vec<u8>, caller: Vec<u8>) -> (r: ExecutionState)
        ensures
            r.request@ == request@,
            r.caller@ == caller@,
            r.response.is_none(),
            r.registers@ == Map::<u64, Seq<u8>>::empty(),
            r.storage@ == Map::<Seq<u8>, Seq<u8>>::empty(),
    {
        ExecutionState {
            request,
            response: None,
            registers: Registers::new(),
            storage: Storage::new(),
            caller,
        }
    }

    /// `register_len`: the length of a register, or the absent sentinel.
    pub fn register_len(&self, register_id: u64) -> (r: u64)
        ensures
            r as int == register_len_spec(self.registers@, register_id),
    {
        self.registers.len(register_id)
    }

    /// `read_register`: the bytes to copy into guest memory; reading a
    /// register that holds nothing fails the call.
    pub fn read_register(&self, register_id: u64) -> (r: Result<Vec<u8>, ExecutionError>)
        ensures
            match r {
                Ok(v) => read_register_spec(self.registers@, register_id) == Some(v@),
                Err(e) => read_register_spec(self.registers@, register_id).is_none()
                    && e == ExecutionError::InvalidRegister(register_id),
            },
    {
        match self.registers.read(register_id) {
            Some(v) => Ok(v),
            None => Err(ExecutionError::InvalidRegister(register_id)),
        }
    }

    /// `write_register`: stores bytes copied out of guest memory.
    pub fn write_register(&mut self, register_id: u64, data: Vec<u8>)
        ensures
            final(self).request == old(self).request,
            final(self).caller == old(self).caller,
            final(self).registers@ == old(self).registers@.insert(register_id, data@),
            final(self).storage@ == old(self).storage@,
            final(self).response == old(self).response,
    {
        self.registers.write(register_id, data);
    }

    /// `input`: places the encoded request in a register.
    pub fn input(&mut self, register_id: u64)
        ensures
            final(self).caller == old(self).caller,
            final(self).registers@ == old(self).registers@.insert(register_id, old(self).request@),
            final(self).request == old(self).request,
            final(self).storage@ == old(self).storage@,
            final(self).response == old(self).response,
    {
        let data = self.request.clone();
        assert(data@ =~= self.request@);
        self.registers.write(register_id, data);
    }

    /// `attached_deposit`: no deposit is ever attached to a guest call.
    pub fn attached_deposit(&self) -> (r: u128)
        ensures
            r == 0,
    {
        0
    }

    /// `predecessor_account_id`: places the caller's id in a register.
    pub fn predecessor_account_id(&mut self, register_id: u64)
        ensures
            final(self).request == old(self).request,
            final(self).registers@ == old(self).registers@.insert(register_id, old(self).caller@),
            final(self).caller == old(self).caller,
            final(self).storage@ == old(self).storage@,
            final(self).response == old(self).response,
    {
        let data = self.caller.clone();
        assert(data@ =~= self.caller@);
        self.registers.write(register_id, data);
    }

    /// `value_return`: records the guest's response, decoded from its buffer.
    pub fn value_return(&mut self, response: SwapResponse)
        ensures
            final(self).request == old(self).request,
            final(self).caller == old(self).caller,
            final(self).response == Some(response),
            final(self).registers@ == old(self).registers@,
            final(self).storage@ == old(self).storage@,
    {
        self.response = Some(response);
    }

    /// `panic`: records an error response without a message of the guest's,
    /// and returns the failure that stops the guest and ends the call.
    pub fn panic(&mut self) -> (e: ExecutionError)
        ensures
            e matches ExecutionError::Domain(m) && m@ == "panicked"@,
            final(self).request == old(self).request,
            final(self).caller == old(self).caller,
            response_view(final(self).response) == Some(
                SwapResponseView::Error { message: "panicked"@ },
            ),
            final(self).registers@ == old(self).registers@,
            final(self).storage@ == old(self).storage@,
    {
        self.response = Some(SwapResponse::Error { message: String::from_str("panicked") });
        ExecutionError::Domain(String::from_str("panicked"))
    }

    /// `panic_utf8`: records an error response with the guest's message, and
    /// returns the failure, carrying that message, that stops the guest and
    /// ends the call.
    pub fn panic_utf8(&mut self, message: String) -> (e: ExecutionError)
        ensures
            e matches ExecutionError::Domain(m) && m@ == message@,
            final(self).request == old(self).request,
            final(self).caller == old(self).caller,
            response_view(final(self).response) == Some(
                SwapResponseView::Error { message: message@ },
            ),
            final(self).registers@ == old(self).registers@,
            final(self).storage@ == old(self).storage@,
    {
        let m = message.clone();
        self.response = Some(SwapResponse::Error { message });
        ExecutionError::Domain(m)
    }

    /// `storage_write`: stores a value; a value it replaces goes to the
    /// register named.
    pub fn storage_write(&mut self, key: Vec<u8>, value: Vec<u8>, register_id: u64) -> (r: u64)
        ensures
            final(self).request == old(self).request,
            final(self).caller == old(self).caller,
            final(self).storage@ == old(self).storage@.insert(key@, value@),
            r == found_flag(old(self).storage@.contains_key(key@)),
            final(self).registers@ == match stored(old(self).storage@, key@) {
                Some(v) => old(self).registers@.insert(register_id, v),
                None => old(self).registers@,
            },
            final(self).response == old(self).response,
    {
        match self.storage.write(key, value) {
            Some(previous) => {
                self.registers.write(register_id, previous);
                1
            },
            None => 0,
        }
    }

    /// `storage_read`: copies a stored value to the register named.
    pub fn storage_read(&mut self, key: Vec<u8>, register_id: u64) -> (r: u64)
        ensures
            final(self).request == old(self).request,
            final(self).caller == old(self).caller,
            final(self).storage@ == old(self).storage@,
            r == found_flag(old(self).storage@.contains_key(key@)),
            final(self).registers@ == match stored(old(self).storage@, key@) {
                Some(v) => old(self).registers@.insert(register_id, v),
                None => old(self).registers@,
            },
            final(self).response == old(self).response,
    {
        match self.storage.read(&key) {
            Some(value) => {
                self.registers.write(register_id, value);
                1
            },
            None => 0,
        }
    }

    /// `storage_remove`: removes a value and moves it to the register named.
    pub fn storage_remove(&mut self, key: Vec<u8>, register_id: u64) -> (r: u64)
        ensures
            final(self).request == old(self).request,
            final(self).caller == old(self).caller,
            final(self).storage@ == old(self).storage@.remove(key@),
            r == found_flag(old(self).storage@.contains_key(key@)),
            final(self).registers@ == match stored(old(self).storage@, key@) {
                Some(v) => old(self).registers@.insert(register_id, v),
                None => old(self).registers@,
            },
            final(self).response == old(self).response,
    {
        match self.storage.remove(&key) {
            Some(previous) => {
                self.registers.write(register_id, previous);
                1
            },
            None => 0,
        }
    }

    /// `storage_has_key`: 1 where a value is stored under the key, else 0.
    pub fn storage_has_key(&self, key: Vec<u8>) -> (r: u64)
        ensures
            r == found_flag(self.storage@.contains_key(key@)),
    {
        if self.storage.has(&key) {
            1
        } else {
            0
        }
    }

    /// What the call yields once the guest has returned: the amount paid
    /// out, or a failure where the guest answered with an error or not at all.
    pub fn outcome(&self) -> (r: Result<u128, ExecutionError>)
        ensures
            match response_view(self.response) {
                Some(SwapResponseView::Swapped { amount_in: _, amount_out }) => r == Ok::<
                    u128,
                    ExecutionError,
                >(amount_out),
                Some(SwapResponseView::Error { message }) => r matches Err(
                    ExecutionError::Domain(m),
                ) && m@ == message,
                None => r matches Err(ExecutionError::NoResponse),
            },
    {
        match &self.response {
            Some(SwapResponse::Swapped { amount_in: _, amount_out }) => Ok(*amount_out),
            Some(SwapResponse::Error { message }) => {
                let m = message.clone();
                Err(ExecutionError::Domain(m))
            },
            None => Err(ExecutionError::NoResponse),
        }
    }
}

} // verus!
