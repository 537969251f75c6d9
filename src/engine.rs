//! The registry of deployed guest modules, keyed by deployer and id, and the
//! request that a swap through the registry hands to a module.

use vstd::prelude::*;
use vstd::string::StrSliceExecFns;
use crate::pricing::{AssetId, SwapRequest, SwapRequestAmount};
use crate::storage::opt_bytes;

verus! {

/// Names a deployed module: the account that deployed it and its id.
#[derive(Debug)]
pub struct DexId {
    pub deployer: String,
    pub id: String,
}

impl View for DexId {
    type V = (Seq<char>, Seq<char>);

    open spec fn view(&self) -> (Seq<char>, Seq<char>) {
        (self.deployer@, self.id@)
    }
}

/// The code stored last under `key` in `entries`.
pub open spec fn lookup_code(entries: Seq<(DexId, Vec<u8>)>, key: (Seq<char>, Seq<char>)) -> Option<
    Seq<u8>,
>
    decreases entries.len(),
{
    if entries.len() == 0 {
        None
    } else if entries.last().0@ == key {
        Some(entries.last().1@)
    } else {
        lookup_code(entries.drop_last(), key)
    }
}

/// Deployed module code by `DexId`.
pub struct SandboxedDexEngine {
    codes: Vec<(DexId, Vec<u8>)>,
}

/// The amount that a swap through the registry offers: 10^24 of the native
/// token.
pub const SWAP_AMOUNT_IN: u128 = 1_000_000_000_000_000_000_000_000;

impl SandboxedDexEngine {
    pub closed spec fn code_of(&self, key: (Seq<char>, Seq<char>)) -> Option<Seq<u8>> {
        lookup_code(self.codes@, key)
    }

    /// A registry without modules.
    pub fn new() -> (r: SandboxedDexEngine)
        ensures
            forall|k: (Seq<char>, Seq<char>)| #[trigger] r.code_of(k).is_none(),
    {
        SandboxedDexEngine { codes: Vec::new() }
    }

    /// Stores `code` under (`deployer`, `id`), replacing what was stored there.
    pub fn deploy_code(&mut self, deployer: String, id: String, code: Vec<u8>)
        ensures
            forall|k: (Seq<char>, Seq<char>)| #[trigger]
                final(self).code_of(k) == if k == (deployer@, id@) {
                    Some(code@)
                } else {
                    old(self).code_of(k)
                },
    {
        self.codes.push((DexId { deployer, id }, code));
        proof {
            assert(self.codes@.drop_last() =~= old(self).codes@);
        }
    }

    /// A copy of the code stored under `dex_id`, if any.
    pub fn code(&self, dex_id: &DexId) -> (r: Option<Vec<u8>>)
        ensures
            opt_bytes(r) == self.code_of(dex_id@),
    {
        let mut i: usize = self.codes.len();
        assert(self.codes@.subrange(0, i as int) =~= self.codes@);
        while i > 0
            invariant
                i <= self.codes@.len(),
                lookup_code(self.codes@, dex_id@) == lookup_code(
                    self.codes@.subrange(0, i as int),
                    dex_id@,
                ),
            decreases i,
        {
            i = i - 1;
            assert(self.codes@.subrange(0, i + 1).drop_last() =~= self.codes@.subrange(
                0,
                i as int,
            ));
            let entry = &self.codes[i];
            if entry.0.deployer == dex_id.deployer && entry.0.id == dex_id.id {
                let c = entry.1.clone();
                assert(c@ =~= entry.1@);
                return Some(c);
            }
        }
        None
    }
}

impl Default for SandboxedDexEngine {
    fn default() -> (r: SandboxedDexEngine)
        ensures
            forall|k: (Seq<char>, Seq<char>)| #[trigger] r.code_of(k).is_none(),
    {
        SandboxedDexEngine::new()
    }
}

/// The request that a swap through the registry hands to a module: pool "1",
/// the native token in for `wrap.near`'s token out, exactly `SWAP_AMOUNT_IN`
/// paid in.
pub fn swap_request() -> (r: SwapRequest)
    ensures
        r.pool_id@ == "1"@,
        r.asset_in@ == crate::pricing::AssetIdView::Near,
        r.asset_out@ == crate::pricing::AssetIdView::Nep141("wrap.near"@),
        r.amount == SwapRequestAmount::ExactIn(SWAP_AMOUNT_IN),
{
    SwapRequest {
        pool_id: String::from_str("1"),
        asset_in: AssetId::Near,
        asset_out: AssetId::Nep141(String::from_str("wrap.near")),
        amount: SwapRequestAmount::ExactIn(SWAP_AMOUNT_IN),
    }
}

} // verus!
