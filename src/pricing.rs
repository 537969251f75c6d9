//! Constant-product pricing of exact-input and exact-output swaps on
//! two-asset pools, as a guest module performs it.

use vstd::prelude::*;
use vstd::arithmetic::div_mod::{
    lemma_div_by_multiple,
    lemma_div_is_ordered,
    lemma_fundamental_div_mod,
    lemma_mod_pos_bound,
    lemma_multiply_divide_le,
    lemma_multiply_divide_lt,
};
use vstd::arithmetic::mul::lemma_mul_inequality;
use vstd::string::StrSliceExecFns;
use crate::wide::{mul_div, mul_div_spec, u128_max};

verus! {

/// Identifies an asset: the native token, or a token of some standard held
/// by an account (and, for multi-token and non-fungible standards, a token id).
#[derive(Debug)]
pub enum AssetId {
    Near,
    Nep141(String),
    Nep245(String, String),
    Nep171(String, String),
}

pub enum AssetIdView {
    Near,
    Nep141(Seq<char>),
    Nep245(Seq<char>, Seq<char>),
    Nep171(Seq<char>, Seq<char>),
}

impl View for AssetId {
    type V = AssetIdView;

    open spec fn view(&self) -> AssetIdView {
        match self {
            AssetId::Near => AssetIdView::Near,
            AssetId::Nep141(a) => AssetIdView::Nep141(a@),
            AssetId::Nep245(a, t) => AssetIdView::Nep245(a@, t@),
            AssetId::Nep171(a, t) => AssetIdView::Nep171(a@, t@),
        }
    }
}

impl PartialEq for AssetId {
    fn eq(&self, o: &AssetId) -> (r: bool) {
        match self {
            AssetId::Near => matches!(o, AssetId::Near),
            AssetId::Nep141(a) => match o {
                AssetId::Nep141(b) => a.eq(b),
                _ => false,
            },
            AssetId::Nep245(a, t) => match o {
                AssetId::Nep245(b, u) => a.eq(b) && t.eq(u),
                _ => false,
            },
            AssetId::Nep171(a, t) => match o {
                AssetId::Nep171(b, u) => a.eq(b) && t.eq(u),
                _ => false,
            },
        }
    }
}

impl vstd::std_specs::cmp::PartialEqSpecImpl for AssetId {
    open spec fn obeys_eq_spec() -> bool {
        true
    }

    open spec fn eq_spec(&self, o: &AssetId) -> bool {
        self@ == o@
    }
}

/// One side of a pool: an asset and the pool's balance of it.
#[derive(Debug)]
pub struct SimplePoolAsset {
    pub asset_id: AssetId,
    pub balance: u128,
}

/// A two-asset pool. The order of the pair only decides which side a
/// request names as its input.
#[derive(Debug)]
pub struct SimplePool {
    pub assets: (SimplePoolAsset, SimplePoolAsset),
}

/// How much a request fixes: the amount paid in, or the amount taken out.
#[derive(Clone, Copy, Debug, PartialEq, Eq, Structural)]
pub enum SwapRequestAmount {
    ExactIn(u128),
    ExactOut(u128),
}

#[derive(Debug)]
pub struct SwapRequest {
    pub pool_id: String,
    pub asset_in: AssetId,
    pub asset_out: AssetId,
    pub amount: SwapRequestAmount,
}

#[derive(Debug)]
pub enum SwapResponse {
    Swapped { amount_in: u128, amount_out: u128 },
    Error { message: String },
}

pub enum SwapResponseView {
    Swapped { amount_in: u128, amount_out: u128 },
    Error { message: Seq<char> },
}

impl View for SwapResponse {
    type V = SwapResponseView;

    open spec fn view(&self) -> SwapResponseView {
        match self {
            SwapResponse::Swapped { amount_in, amount_out } => SwapResponseView::Swapped {
                amount_in: *amount_in,
                amount_out: *amount_out,
            },
            SwapResponse::Error { message } => SwapResponseView::Error { message: message@ },
        }
    }
}

/// Why a swap is refused.
#[derive(Clone, Copy, Debug, PartialEq, Eq, Structural)]
pub enum PriceError {
    PoolNotFound,
    InvalidAssetIn,
    InvalidAssetOut,
    ZeroAmount,
    /// An exact-output request asks for the pool's whole balance or more.
    InsufficientBalance,
    /// The input that an exact-output request needs exceeds 128 bits.
    Overflow,
}

impl PriceError {
    pub open spec fn spec_message(self) -> Seq<char> {
        match self {
            PriceError::PoolNotFound => "Pool not found"@,
            PriceError::InvalidAssetIn => "Invalid asset in"@,
            PriceError::InvalidAssetOut => "Invalid asset out"@,
            PriceError::ZeroAmount => "Amount must be greater than 0"@,
            PriceError::InsufficientBalance => "Amount out must be less than the pool balance"@,
            PriceError::Overflow => "Amount in does not fit in 128 bits"@,
        }
    }

    pub fn message(&self) -> (r: String)
        ensures
            r@ == self.spec_message(),
    {
        match self {
            PriceError::PoolNotFound => String::from_str("Pool not found"),
            PriceError::InvalidAssetIn => String::from_str("Invalid asset in"),
            PriceError::InvalidAssetOut => String::from_str("Invalid asset out"),
            PriceError::ZeroAmount => String::from_str("Amount must be greater than 0"),
            PriceError::InsufficientBalance => String::from_str(
                "Amount out must be less than the pool balance",
            ),
            PriceError::Overflow => String::from_str("Amount in does not fit in 128 bits"),
        }
    }
}

/// Output of an exact-input swap: `floor(x * balance_out / (balance_in + x))`.
pub open spec fn exact_in_amount_out(balance_in: int, balance_out: int, amount_in: int) -> int {
    mul_div_spec(amount_in, balance_out, balance_in, amount_in)
}

/// Input of an exact-output swap: `floor(balance_in * y / (balance_out - y)) + 1`,
/// one unit more than the floor even where the division is exact.
pub open spec fn exact_out_amount_in(balance_in: int, balance_out: int, amount_out: int) -> int {
    mul_div_spec(balance_in, amount_out, balance_out - amount_out, 0) + 1
}

/// Prices an exact-input swap against the given balances.
pub fn quote_exact_in(balance_in: u128, balance_out: u128, amount_in: u128) -> (r: u128)
    requires
        amount_in > 0,
    ensures
        r == exact_in_amount_out(balance_in as int, balance_out as int, amount_in as int),
        r <= balance_out,
{
    proof {
        let (a, b, x) = (balance_in as int, balance_out as int, amount_in as int);
        lemma_mul_inequality(x, a + x, b);
        lemma_multiply_divide_le(x * b, a + x, b);
    }
    match mul_div(amount_in, balance_out, balance_in, amount_in) {
        Some(q) => q,
        None => {
            assert(false);
            0
        },
    }
}

/// Prices an exact-output swap against the given balances; `None` where the
/// input needed does not fit in 128 bits.
pub fn quote_exact_out(balance_in: u128, balance_out: u128, amount_out: u128) -> (r: Option<u128>)
    requires
        0 < amount_out < balance_out,
    ensures
        exact_out_amount_in(balance_in as int, balance_out as int, amount_out as int)
            <= u128_max() ==> r == Some(
            exact_out_amount_in(balance_in as int, balance_out as int, amount_out as int) as u128,
        ),
        exact_out_amount_in(balance_in as int, balance_out as int, amount_out as int)
            > u128_max() ==> r.is_none(),
{
    match mul_div(balance_in, amount_out, balance_out - amount_out, 0) {
        Some(q) => {
            if q == u128::MAX {
                None
            } else {
                Some(q + 1)
            }
        },
        None => None,
    }
}

/// The balance a request pays into and the balance it takes from.
pub open spec fn sides(pool: SimplePool, asset_in: AssetIdView) -> (u128, u128) {
    if pool.assets.0.asset_id@ == asset_in {
        (pool.assets.0.balance, pool.assets.1.balance)
    } else {
        (pool.assets.1.balance, pool.assets.0.balance)
    }
}

pub open spec fn holds_asset(pool: SimplePool, asset: AssetIdView) -> bool {
    pool.assets.0.asset_id@ == asset || pool.assets.1.asset_id@ == asset
}

/// What a swap on `pool` yields: `(amount_in, amount_out)` or the reason it
/// is refused.
pub open spec fn price_spec(
    pool: SimplePool,
    asset_in: AssetIdView,
    asset_out: AssetIdView,
    amount: SwapRequestAmount,
) -> Result<(u128, u128), PriceError> {
    let (bal_in, bal_out) = sides(pool, asset_in);
    if !holds_asset(pool, asset_in) {
        Err(PriceError::InvalidAssetIn)
    } else if !holds_asset(pool, asset_out) {
        Err(PriceError::InvalidAssetOut)
    } else {
        match amount {
            SwapRequestAmount::ExactIn(x) => {
                if x == 0 {
                    Err(PriceError::ZeroAmount)
                } else {
                    Ok((x, exact_in_amount_out(bal_in as int, bal_out as int, x as int) as u128))
                }
            },
            SwapRequestAmount::ExactOut(y) => {
                if y == 0 {
                    Err(PriceError::ZeroAmount)
                } else if y >= bal_out {
                    Err(PriceError::InsufficientBalance)
                } else if exact_out_amount_in(bal_in as int, bal_out as int, y as int)
                    > u128_max() {
                    Err(PriceError::Overflow)
                } else {
                    Ok((exact_out_amount_in(bal_in as int, bal_out as int, y as int) as u128, y))
                }
            },
        }
    }
}

/// Prices a swap of `asset_in` for `asset_out` on `pool`.
pub fn price(
    pool: &SimplePool,
    asset_in: &AssetId,
    asset_out: &AssetId,
    amount: SwapRequestAmount,
) -> (r: Result<(u128, u128), PriceError>)
    ensures
        r == price_spec(*pool, asset_in@, asset_out@, amount),
{
    if !(pool.assets.0.asset_id == *asset_in || pool.assets.1.asset_id == *asset_in) {
        return Err(PriceError::InvalidAssetIn);
    }
    if !(pool.assets.0.asset_id == *asset_out || pool.assets.1.asset_id == *asset_out) {
        return Err(PriceError::InvalidAssetOut);
    }
    let first_in = pool.assets.0.asset_id == *asset_in;
    let (balance_in, balance_out) = if first_in {
        (pool.assets.0.balance, pool.assets.1.balance)
    } else {
        (pool.assets.1.balance, pool.assets.0.balance)
    };
    match amount {
        SwapRequestAmount::ExactIn(amount_in) => {
            if amount_in == 0 {
                return Err(PriceError::ZeroAmount);
            }
            Ok((amount_in, quote_exact_in(balance_in, balance_out, amount_in)))
        },
        SwapRequestAmount::ExactOut(amount_out) => {
            if amount_out == 0 {
                return Err(PriceError::ZeroAmount);
            }
            if amount_out >= balance_out {
                return Err(PriceError::InsufficientBalance);
            }
            match quote_exact_out(balance_in, balance_out, amount_out) {
                Some(amount_in) => Ok((amount_in, amount_out)),
                None => Err(PriceError::Overflow),
            }
        },
    }
}

/// The pool that `id` names: the one stored last under that id.
pub open spec fn lookup_pool(entries: Seq<(String, SimplePool)>, id: Seq<char>) -> Option<
    SimplePool,
>
    decreases entries.len(),
{
    if entries.len() == 0 {
        None
    } else if entries.last().0@ == id {
        Some(entries.last().1)
    } else {
        lookup_pool(entries.drop_last(), id)
    }
}

/// What a swap request yields against the pool its id names, if any.
pub open spec fn swap_spec(pool: Option<SimplePool>, request: SwapRequest) -> SwapResponseView {
    match pool {
        None => SwapResponseView::Error { message: PriceError::PoolNotFound.spec_message() },
        Some(p) => match price_spec(p, request.asset_in@, request.asset_out@, request.amount) {
            Ok((amount_in, amount_out)) => SwapResponseView::Swapped { amount_in, amount_out },
            Err(e) => SwapResponseView::Error { message: e.spec_message() },
        },
    }
}

/// A guest exchange: two-asset pools keyed by pool id.
pub struct SimpleSwap {
    pools: Vec<(String, SimplePool)>,
}

impl SimpleSwap {
    pub closed spec fn pool(&self, id: Seq<char>) -> Option<SimplePool> {
        lookup_pool(self.pools@, id)
    }

    /// An exchange without pools.
    pub fn new() -> (r: SimpleSwap)
        ensures
            forall|id: Seq<char>| #[trigger] r.pool(id).is_none(),
    {
        SimpleSwap { pools: Vec::new() }
    }

    /// Stores `pool` under `id`, replacing any pool stored there before.
    pub fn add_pool(&mut self, id: String, pool: SimplePool)
        ensures
            forall|k: Seq<char>| #[trigger]
                final(self).pool(k) == if k == id@ {
                    Some(pool)
                } else {
                    old(self).pool(k)
                },
    {
        self.pools.push((id, pool));
        proof {
            assert(self.pools@.drop_last() =~= old(self).pools@);
        }
    }

    fn find(&self, id: &String) -> (r: Option<usize>)
        ensures
            match r {
                Some(i) => i < self.pools@.len() && self.pool(id@) == Some(self.pools@[i as int].1),
                None => self.pool(id@).is_none(),
            },
    {
        let mut i: usize = self.pools.len();
        assert(self.pools@.subrange(0, i as int) =~= self.pools@);
        while i > 0
            invariant
                i <= self.pools@.len(),
                lookup_pool(self.pools@, id@) == lookup_pool(self.pools@.subrange(0, i as int), id@),
            decreases i,
        {
            i = i - 1;
            assert(self.pools@.subrange(0, i + 1).drop_last() =~= self.pools@.subrange(0, i as int));
            if self.pools[i].0 == *id {
                return Some(i);
            }
        }
        None
    }

    /// Prices `request` against the pool it names. The exchange is left as it
    /// was: the response only states the amounts.
    pub fn swap(&mut self, request: SwapRequest) -> (r: SwapResponse)
        ensures
            *final(self) == *old(self),
            r@ == swap_spec(old(self).pool(request.pool_id@), request),
    {
        match self.find(&request.pool_id) {
            None => SwapResponse::Error { message: PriceError::PoolNotFound.message() },
            Some(i) => match price(
                &self.pools[i].1,
                &request.asset_in,
                &request.asset_out,
                request.amount,
            ) {
                Ok((amount_in, amount_out)) => SwapResponse::Swapped { amount_in, amount_out },
                Err(e) => SwapResponse::Error { message: e.message() },
            },
        }
    }
}

impl Default for SimpleSwap {
    fn default() -> (r: SimpleSwap)
        ensures
            forall|id: Seq<char>| #[trigger] r.pool(id).is_none(),
    {
        SimpleSwap::new()
    }
}

/// An exact-input swap never pays out more than the pool holds, and pays out
/// strictly less where both balances are positive; the product of the
/// balances after the swap is at least the product before.
pub proof fn exact_in_keeps_product(balance_in: u128, balance_out: u128, amount_in: u128)
    requires
        amount_in > 0,
    ensures
        ({
            let (a, b, x) = (balance_in as int, balance_out as int, amount_in as int);
            let out = exact_in_amount_out(a, b, x);
            &&& out <= b
            &&& (a > 0 && b > 0 ==> out < b)
            &&& (a + x) * (b - out) >= a * b
        }),
{
    let (a, b, x) = (balance_in as int, balance_out as int, amount_in as int);
    let out = exact_in_amount_out(a, b, x);
    lemma_mul_inequality(x, a + x, b);
    lemma_multiply_divide_le(x * b, a + x, b);
    if a > 0 && b > 0 {
        assert(x * b < (a + x) * b) by (nonlinear_arith)
            requires
                a > 0,
                b > 0,
        ;
        lemma_multiply_divide_lt(x * b, a + x, b);
    }
    lemma_fundamental_div_mod(x * b, a + x);
    lemma_mod_pos_bound(x * b, a + x);
    assert((a + x) * (b - out) >= a * b) by (nonlinear_arith)
        requires
            (a + x) * out <= x * b,
    {
    }
}

/// Paying in what an exact-output swap asks for, as an exact-input swap on
/// the same balances, yields at least the requested output.
pub proof fn exact_out_covers_request(balance_in: u128, balance_out: u128, amount_out: u128)
    requires
        0 < amount_out < balance_out,
    ensures
        exact_in_amount_out(
            balance_in as int,
            balance_out as int,
            exact_out_amount_in(balance_in as int, balance_out as int, amount_out as int),
        ) >= amount_out,
{
    let (a, b, y) = (balance_in as int, balance_out as int, amount_out as int);
    let d = b - y;
    let q = (a * y) / d;
    let p = q + 1;
    lemma_fundamental_div_mod(a * y, d);
    lemma_mod_pos_bound(a * y, d);
    assert(y * (a + p) <= p * b) by (nonlinear_arith)
        requires
            a * y == d * q + (a * y) % d,
            (a * y) % d < d,
            d == b - y,
            p == q + 1,
    {
    }
    lemma_div_by_multiple(y, a + p);
    lemma_div_is_ordered(y * (a + p), p * b, a + p);
}

/// An exact-output swap for what an exact-input swap of `x` paid out, on the
/// same balances, asks for at most `x + 1`.
pub proof fn exact_round_trip_bound(balance_in: u128, balance_out: u128, amount_in: u128)
    requires
        amount_in > 0,
        0 < exact_in_amount_out(balance_in as int, balance_out as int, amount_in as int)
            < balance_out,
    ensures
        exact_out_amount_in(
            balance_in as int,
            balance_out as int,
            exact_in_amount_out(balance_in as int, balance_out as int, amount_in as int),
        ) <= amount_in + 1,
{
    let (a, b, x) = (balance_in as int, balance_out as int, amount_in as int);
    let out = exact_in_amount_out(a, b, x);
    lemma_fundamental_div_mod(x * b, a + x);
    lemma_mod_pos_bound(x * b, a + x);
    assert(a * out <= (b - out) * x) by (nonlinear_arith)
        requires
            x * b == (a + x) * out + (x * b) % (a + x),
            (x * b) % (a + x) >= 0,
    {
    }
    lemma_multiply_divide_le(a * out, b - out, x);
}

} // verus!
