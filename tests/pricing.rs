use sandboxed_dex::pricing::{
    price, quote_exact_in, quote_exact_out, AssetId, PriceError, SimplePool, SimplePoolAsset,
    SimpleSwap, SwapRequest, SwapRequestAmount, SwapResponse,
};

fn token(name: &str) -> AssetId {
    AssetId::Nep141(name.to_string())
}

fn pool(a: u128, b: u128) -> SimplePool {
    SimplePool {
        assets: (
            SimplePoolAsset { asset_id: token("a.near"), balance: a },
            SimplePoolAsset { asset_id: token("b.near"), balance: b },
        ),
    }
}

fn exchange(a: u128, b: u128) -> SimpleSwap {
    let mut s = SimpleSwap::new();
    s.add_pool("p".to_string(), pool(a, b));
    s
}

fn request(pool_id: &str, asset_in: &str, asset_out: &str, amount: SwapRequestAmount) -> SwapRequest {
    SwapRequest {
        pool_id: pool_id.to_string(),
        asset_in: token(asset_in),
        asset_out: token(asset_out),
        amount,
    }
}

fn expect_swapped(r: SwapResponse) -> (u128, u128) {
    match r {
        SwapResponse::Swapped { amount_in, amount_out } => (amount_in, amount_out),
        SwapResponse::Error { message } => panic!("unexpected error: {message}"),
    }
}

fn expect_error(r: SwapResponse) -> String {
    match r {
        SwapResponse::Error { message } => message,
        SwapResponse::Swapped { amount_in, amount_out } => {
            panic!("unexpected swap: {amount_in} -> {amount_out}")
        }
    }
}

#[test]
fn exact_in_on_equal_balances() {
    let mut s = exchange(10000, 10000);
    let r = s.swap(request("p", "a.near", "b.near", SwapRequestAmount::ExactIn(1000)));
    assert_eq!(expect_swapped(r), (1000, 909));
}

#[test]
fn exact_out_on_equal_balances() {
    let mut s = exchange(10000, 10000);
    let r = s.swap(request("p", "a.near", "b.near", SwapRequestAmount::ExactOut(909)));
    assert_eq!(expect_swapped(r), (1000, 909));
}

#[test]
fn exact_out_charges_one_unit_over_exact_division() {
    // 10000 * 5000 / 5000 divides exactly, yet one unit more is charged.
    assert_eq!(quote_exact_out(10000, 10000, 5000), Some(10001));
    // 10000 in already buys the 5000 out.
    assert_eq!(quote_exact_in(10000, 10000, 10000), 5000);
    assert_eq!(quote_exact_in(10000, 10000, 9999), 4999);
}

#[test]
fn exact_out_rounds_up_inexact_division() {
    // 10000 * 500 / 9500 = 526.3...
    assert_eq!(quote_exact_out(10000, 10000, 500), Some(527));
    assert!(quote_exact_in(10000, 10000, 527) >= 500);
    assert!(quote_exact_in(10000, 10000, 526) < 500);
}

#[test]
fn swap_from_second_side() {
    let mut s = exchange(20000, 10000);
    let r = s.swap(request("p", "b.near", "a.near", SwapRequestAmount::ExactIn(1000)));
    // 1000 * 20000 / (10000 + 1000)
    assert_eq!(expect_swapped(r), (1000, 1818));
}

#[test]
fn unknown_pool_is_refused() {
    let mut s = exchange(10000, 10000);
    let r = s.swap(request("q", "a.near", "b.near", SwapRequestAmount::ExactIn(1)));
    assert_eq!(expect_error(r), "Pool not found");
}

#[test]
fn foreign_asset_in_is_refused() {
    let mut s = exchange(10000, 10000);
    let r = s.swap(request("p", "c.near", "b.near", SwapRequestAmount::ExactIn(1)));
    assert_eq!(expect_error(r), "Invalid asset in");
    let after = s.swap(request("p", "a.near", "b.near", SwapRequestAmount::ExactIn(1000)));
    assert_eq!(expect_swapped(after), (1000, 909));
}

#[test]
fn foreign_asset_out_is_refused() {
    let mut s = exchange(10000, 10000);
    let r = s.swap(request("p", "a.near", "c.near", SwapRequestAmount::ExactOut(1)));
    assert_eq!(expect_error(r), "Invalid asset out");
    let native = SwapRequest {
        pool_id: "p".to_string(),
        asset_in: token("a.near"),
        asset_out: AssetId::Near,
        amount: SwapRequestAmount::ExactIn(1),
    };
    assert_eq!(expect_error(s.swap(native)), "Invalid asset out");
}

#[test]
fn zero_amounts_are_refused() {
    let mut s = exchange(10000, 10000);
    let r = s.swap(request("p", "a.near", "b.near", SwapRequestAmount::ExactIn(0)));
    assert_eq!(expect_error(r), "Amount must be greater than 0");
    let r = s.swap(request("p", "a.near", "b.near", SwapRequestAmount::ExactOut(0)));
    assert_eq!(expect_error(r), "Amount must be greater than 0");
}

#[test]
fn whole_balance_out_is_refused() {
    let p = pool(10000, 10000);
    let (a, b) = (token("a.near"), token("b.near"));
    let r = price(&p, &a, &b, SwapRequestAmount::ExactOut(10000));
    assert!(matches!(r, Err(PriceError::InsufficientBalance)));
    let r = price(&p, &a, &b, SwapRequestAmount::ExactOut(10001));
    assert!(matches!(r, Err(PriceError::InsufficientBalance)));
    assert_eq!(PriceError::InsufficientBalance.message(), "Amount out must be less than the pool balance");
}

#[test]
fn oversized_exact_out_input_is_refused() {
    let p = pool(u128::MAX, 10);
    let (a, b) = (token("a.near"), token("b.near"));
    let r = price(&p, &a, &b, SwapRequestAmount::ExactOut(9));
    assert!(matches!(r, Err(PriceError::Overflow)));
    assert_eq!(quote_exact_out(u128::MAX, 10, 9), None);
    // floor(MAX * 1 / 1) + 1 no longer fits either.
    assert_eq!(quote_exact_out(u128::MAX, 2, 1), None);
    // floor((MAX - 1) * 1 / 1) + 1 == MAX just fits.
    assert_eq!(quote_exact_out(u128::MAX - 1, 2, 1), Some(u128::MAX));
}

#[test]
fn exact_in_uses_wide_products() {
    // MAX * MAX / (MAX + MAX) == MAX / 2, rounded down.
    assert_eq!(quote_exact_in(u128::MAX, u128::MAX, u128::MAX), u128::MAX / 2);
    assert_eq!(quote_exact_in(0, u128::MAX, 3), u128::MAX);
    assert_eq!(quote_exact_in(1, 7, u128::MAX), 6);
}

#[test]
fn exact_in_keeps_the_product_of_balances() {
    for (a, b, x) in [(10000u128, 10000u128, 1000u128), (7, 3, 5), (1_000_000, 13, 999), (5, 1_000_000_007, 1)] {
        let out = quote_exact_in(a, b, x);
        assert!(out < b);
        assert!((a + x) * (b - out) >= a * b);
    }
}

#[test]
fn exact_out_input_buys_the_output() {
    for (a, b, y) in [(10000u128, 10000u128, 909u128), (7, 3, 2), (1_000_000, 13, 12), (5, 1_000_000_007, 1)] {
        let x = quote_exact_out(a, b, y).unwrap();
        assert!(quote_exact_in(a, b, x) >= y);
    }
}

#[test]
fn exact_round_trip_costs_at_most_one_unit() {
    for (a, b, x) in [(10000u128, 10000u128, 1000u128), (7, 30, 5), (1_000_000, 1300, 999), (5, 1_000_000_007, 1)] {
        let out = quote_exact_in(a, b, x);
        assert!(out > 0);
        let back = quote_exact_out(a, b, out).unwrap();
        assert!(back <= x + 1);
    }
}

#[test]
fn replacing_a_pool_keeps_the_last() {
    let mut s = exchange(10000, 10000);
    s.add_pool("p".to_string(), pool(20000, 10000));
    let r = s.swap(request("p", "b.near", "a.near", SwapRequestAmount::ExactIn(1000)));
    assert_eq!(expect_swapped(r), (1000, 1818));
    let mut d = SimpleSwap::default();
    let r = d.swap(request("p", "a.near", "b.near", SwapRequestAmount::ExactIn(1)));
    assert_eq!(expect_error(r), "Pool not found");
}

#[test]
fn multi_token_assets_compare_by_both_ids() {
    let p = SimplePool {
        assets: (
            SimplePoolAsset { asset_id: AssetId::Nep245("mt.near".to_string(), "1".to_string()), balance: 100 },
            SimplePoolAsset { asset_id: AssetId::Nep171("nft.near".to_string(), "1".to_string()), balance: 100 },
        ),
    };
    let other = AssetId::Nep245("mt.near".to_string(), "2".to_string());
    let first = AssetId::Nep245("mt.near".to_string(), "1".to_string());
    let second = AssetId::Nep171("nft.near".to_string(), "1".to_string());
    assert!(matches!(price(&p, &other, &second, SwapRequestAmount::ExactIn(10)), Err(PriceError::InvalidAssetIn)));
    assert!(matches!(price(&p, &first, &second, SwapRequestAmount::ExactIn(10)), Ok((10, 9))));
}
