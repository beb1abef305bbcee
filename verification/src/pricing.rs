use vstd::prelude::*;

verus! {

/// Prices are fixed-point numbers with six decimals: a price of `PRICE_SCALE`
/// means one stablecoin unit per asset token unit.
pub const PRICE_SCALE: u64 = 1_000_000;

/// The asset tokens minted for `amount` stablecoin units at `price`, rounded down.
/// Meaningful for a price above zero.
pub open spec fn asset_amount_for(amount: int, price: int) -> int {
    (amount * PRICE_SCALE) / price
}

/// The stablecoin units paid out for `amount` asset tokens at `price`, rounded down.
pub open spec fn usdc_amount_for(amount: int, price: int) -> int {
    (amount * price) / (PRICE_SCALE as int)
}

/// Converts a stablecoin amount into asset tokens at `price`.
///
/// Yields nothing exactly when the price is zero or the scaled amount leaves
/// the 64-bit range; the quotient itself always fits.
pub fn asset_amount(amount: u64, price: u64) -> (minted: Option<u64>)
    ensures
        minted is Some <==> price != 0 && amount * PRICE_SCALE <= u64::MAX,
        minted matches Some(m) ==> m == asset_amount_for(amount as int, price as int),
{
    match amount.checked_mul(PRICE_SCALE) {
        Some(scaled) => scaled.checked_div(price),
        None => None,
    }
}

/// Converts an asset token amount into stablecoin units at `price`.
///
/// Yields nothing exactly when the product leaves the 64-bit range.
pub fn usdc_amount(amount: u64, price: u64) -> (paid: Option<u64>)
    ensures
        paid is Some <==> amount * price <= u64::MAX,
        paid matches Some(p) ==> p == usdc_amount_for(amount as int, price as int),
{
    match amount.checked_mul(price) {
        Some(product) => product.checked_div(PRICE_SCALE),
        None => None,
    }
}

/// Rounding down loses value but never creates it: the asset tokens minted for
/// a deposit, priced back, are worth at most the deposit.
pub proof fn lemma_round_trip_bound(deposit: int, price: int)
    requires
        deposit >= 0,
        price > 0,
    ensures
        0 <= usdc_amount_for(asset_amount_for(deposit, price), price) <= deposit,
        0 <= asset_amount_for(deposit, price),
        0 <= asset_amount_for(deposit, price) * price <= deposit * PRICE_SCALE,
{
    let scaled: int = deposit * PRICE_SCALE;
    let minted: int = scaled / price;
    assert(0 <= minted && 0 <= minted * price <= scaled) by (nonlinear_arith)
        requires
            price > 0,
            scaled >= 0,
            minted == scaled / price,
    ;
}

/// What a round trip loses to rounding is less than the price of one asset
/// token unit plus one stablecoin unit.
pub proof fn lemma_round_trip_loss(deposit: int, price: int)
    requires
        deposit >= 0,
        price > 0,
    ensures
        (deposit - usdc_amount_for(asset_amount_for(deposit, price), price)) * PRICE_SCALE < price
            + PRICE_SCALE,
{
    let scaled: int = deposit * PRICE_SCALE;
    let minted: int = scaled / price;
    let product: int = minted * price;
    assert(scaled - price < product) by (nonlinear_arith)
        requires
            price > 0,
            scaled >= 0,
            minted == scaled / price,
            product == minted * price,
    ;
}

} // verus!
