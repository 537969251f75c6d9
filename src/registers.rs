//! Numbered byte buffers through which a host hands variable-length data to
//! a guest: the host fills a register, the guest asks for its length and then
//! copies its bytes into its own memory.

use vstd::prelude::*;
use std::collections::HashMap;

verus! {

broadcast use vstd::std_specs::hash::group_hash_axioms;

/// What a length query answers for a register that holds nothing.
pub const ABSENT_REGISTER_LEN: u64 = 0xffff_ffff_ffff_ffff;

/// Answer of a length query on `regs`: the length of register `id`, or
/// `ABSENT_REGISTER_LEN` where it holds nothing.
pub open spec fn register_len_spec(regs: Map<u64, Seq<u8>>, id: u64) -> int {
    if regs.contains_key(id) {
        regs[id].len() as int
    } else {
        ABSENT_REGISTER_LEN as int
    }
}

/// Answer of a read of register `id`.
pub open spec fn read_register_spec(regs: Map<u64, Seq<u8>>, id: u64) -> Option<Seq<u8>> {
    if regs.contains_key(id) {
        Some(regs[id])
    } else {
        None
    }
}

/// The register table of one call.
pub struct Registers {
    table: HashMap<u64, Vec<u8>>,
}

impl View for Registers {
    type V = Map<u64, Seq<u8>>;

    closed spec fn view(&self) -> Map<u64, Seq<u8>> {
        self.table@.map_values(|v: Vec<u8>| v@)
    }
}

impl Registers {
    /// A table in which no register holds anything.
    pub fn new() -> (r: Registers)
        ensures
            r@ == Map::<u64, Seq<u8>>::empty(),
    {
        let r = Registers { table: HashMap::new() };
        assert(r@ =~= Map::<u64, Seq<u8>>::empty());
        r
    }

    /// Puts `data` in register `id`; a later write replaces it.
    pub fn write(&mut self, id: u64, data: Vec<u8>)
        ensures
            final(self)@ == old(self)@.insert(id, data@),
    {
        self.table.insert(id, data);
        assert(self@ =~= old(self)@.insert(id, data@));
    }

    /// The length of register `id`, or `ABSENT_REGISTER_LEN` where it holds
    /// nothing.
    pub fn len(&self, id: u64) -> (r: u64)
        ensures
            r as int == register_len_spec(self@, id),
    {
        match self.table.get(&id) {
            Some(v) => v.len() as u64,
            None => ABSENT_REGISTER_LEN,
        }
    }

    /// A copy of register `id`, or `None` where it holds nothing.
    pub fn read(&self, id: u64) -> (r: Option<Vec<u8>>)
        ensures
            match r {
                Some(v) => read_register_spec(self@, id) == Some(v@),
                None => read_register_spec(self@, id).is_none(),
            },
    {
        match self.table.get(&id) {
            Some(v) => {
                let c = v.clone();
                assert(c@ =~= v@);
                Some(c)
            },
            None => None,
        }
    }
}

/// After bytes are written to a register, a length query on it answers their
/// number and a read returns exactly them, and a later write replaces them; a
/// register never written answers the absent length and cannot be read.
pub proof fn register_round_trip(
    regs: Map<u64, Seq<u8>>,
    id: u64,
    data: Seq<u8>,
    later: Seq<u8>,
    other: u64,
)
    requires
        !regs.contains_key(other),
    ensures
        read_register_spec(regs.insert(id, data).insert(id, later), id) == Some(later),
        register_len_spec(regs.insert(id, data), id) == data.len(),
        read_register_spec(regs.insert(id, data), id) == Some(data),
        register_len_spec(regs, other) == ABSENT_REGISTER_LEN as int,
        read_register_spec(regs, other).is_none(),
{
}

} // verus!
