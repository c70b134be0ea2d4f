use vstd::arithmetic::div_mod::{
    lemma_div_is_ordered, lemma_div_multiples_vanish, lemma_fundamental_div_mod,
    lemma_mod_division_less_than_divisor, lemma_mod_multiples_basic, lemma_multiply_divide_lt,
};
use vstd::arithmetic::mul::{
    lemma_mul_inequality, lemma_mul_is_distributive_add_other_way,
    lemma_mul_is_distributive_sub_other_way,
};
use vstd::prelude::*;

use crate::errors::ErrorCode;
use crate::math::{mul_div, mul_div_spec, pow10, pow10_u64, Rounding, MAX_DECIMALS};
use crate::math::lemma_pow10_pos;

verus! {

/// The share side of the conversion ratio: the outstanding supply plus the
/// virtual-liquidity offset `10^decimals_offset`, which keeps the share
/// price positive and bounded on an empty pool.
pub open spec fn virtual_shares(total_shares: nat, decimals_offset: nat) -> nat {
    total_shares + pow10(decimals_offset)
}

/// The asset side of the conversion ratio: the custodied balance plus one
/// virtual asset unit.
pub open spec fn virtual_assets(total_assets: nat) -> nat {
    total_assets + 1
}

/// The exact number of shares that `assets` is worth against the given pool
/// snapshot, under the given rounding.
pub open spec fn shares_of(
    assets: nat,
    total_assets: nat,
    total_shares: nat,
    decimals_offset: nat,
    rounding: Rounding,
) -> nat {
    mul_div_spec(
        assets,
        virtual_shares(total_shares, decimals_offset),
        virtual_assets(total_assets),
        rounding,
    )
}

/// The exact amount of assets that `shares` is worth against the given pool
/// snapshot, under the given rounding.
pub open spec fn assets_of(
    shares: nat,
    total_assets: nat,
    total_shares: nat,
    decimals_offset: nat,
    rounding: Rounding,
) -> nat {
    mul_div_spec(
        shares,
        virtual_assets(total_assets),
        virtual_shares(total_shares, decimals_offset),
        rounding,
    )
}

/// When an assets-to-shares conversion stays within the native width: both
/// virtual totals and the rounded result fit 64 bits.
pub open spec fn to_shares_fits(
    assets: nat,
    total_assets: nat,
    total_shares: nat,
    decimals_offset: nat,
    rounding: Rounding,
) -> bool {
    &&& virtual_shares(total_shares, decimals_offset) <= u64::MAX
    &&& virtual_assets(total_assets) <= u64::MAX
    &&& shares_of(assets, total_assets, total_shares, decimals_offset, rounding) <= u64::MAX
}

/// When a shares-to-assets conversion stays within the native width.
pub open spec fn to_assets_fits(
    shares: nat,
    total_assets: nat,
    total_shares: nat,
    decimals_offset: nat,
    rounding: Rounding,
) -> bool {
    &&& virtual_shares(total_shares, decimals_offset) <= u64::MAX
    &&& virtual_assets(total_assets) <= u64::MAX
    &&& assets_of(shares, total_assets, total_shares, decimals_offset, rounding) <= u64::MAX
}

/// Converts an asset amount to the share amount it is worth:
/// `assets * (total_shares + 10^decimals_offset) / (total_assets + 1)`,
/// rounded as directed. Fails with `ArithmeticOverflow` exactly when a
/// virtual total or the rounded result exceeds 64 bits.
pub fn convert_to_shares(
    assets: u64,
    total_assets: u64,
    total_shares: u64,
    decimals_offset: u8,
    rounding: Rounding,
) -> (r: Result<u64, ErrorCode>)
    requires
        decimals_offset <= MAX_DECIMALS,
    ensures
        r is Ok <==> to_shares_fits(
            assets as nat,
            total_assets as nat,
            total_shares as nat,
            decimals_offset as nat,
            rounding,
        ),
        r matches Ok(v) ==> v == shares_of(
            assets as nat,
            total_assets as nat,
            total_shares as nat,
            decimals_offset as nat,
            rounding,
        ),
        r matches Err(e) ==> e == ErrorCode::ArithmeticOverflow,
{
    let offset = pow10_u64(decimals_offset);
    if total_shares > u64::MAX - offset {
        return Err(ErrorCode::ArithmeticOverflow);
    }
    if total_assets == u64::MAX {
        return Err(ErrorCode::ArithmeticOverflow);
    }
    mul_div(assets, total_shares + offset, total_assets + 1, rounding)
}

/// Converts a share amount to the asset amount it is worth:
/// `shares * (total_assets + 1) / (total_shares + 10^decimals_offset)`,
/// rounded as directed. Fails with `ArithmeticOverflow` exactly when a
/// virtual total or the rounded result exceeds 64 bits.
pub fn convert_to_assets(
    shares: u64,
    total_assets: u64,
    total_shares: u64,
    decimals_offset: u8,
    rounding: Rounding,
) -> (r: Result<u64, ErrorCode>)
    requires
        decimals_offset <= MAX_DECIMALS,
    ensures
        r is Ok <==> to_assets_fits(
            shares as nat,
            total_assets as nat,
            total_shares as nat,
            decimals_offset as nat,
            rounding,
        ),
        r matches Ok(v) ==> v == assets_of(
            shares as nat,
            total_assets as nat,
            total_shares as nat,
            decimals_offset as nat,
            rounding,
        ),
        r matches Err(e) ==> e == ErrorCode::ArithmeticOverflow,
{
    let offset = pow10_u64(decimals_offset);
    if total_shares > u64::MAX - offset {
        return Err(ErrorCode::ArithmeticOverflow);
    }
    if total_assets == u64::MAX {
        return Err(ErrorCode::ArithmeticOverflow);
    }
    proof {
        lemma_pow10_pos(decimals_offset as nat);
    }
    mul_div(shares, total_assets + 1, total_shares + offset, rounding)
}

/// Shares received for depositing `assets`: the conversion rounded down, so
/// the depositor never receives more than the exact value.
pub fn preview_deposit_internal(
    assets: u64,
    total_assets: u64,
    total_shares: u64,
    decimals_offset: u8,
) -> (r: Result<u64, ErrorCode>)
    requires
        decimals_offset <= MAX_DECIMALS,
    ensures
        r is Ok <==> to_shares_fits(
            assets as nat,
            total_assets as nat,
            total_shares as nat,
            decimals_offset as nat,
            Rounding::Floor,
        ),
        r matches Ok(v) ==> v == shares_of(
            assets as nat,
            total_assets as nat,
            total_shares as nat,
            decimals_offset as nat,
            Rounding::Floor,
        ),
        r matches Err(e) ==> e == ErrorCode::ArithmeticOverflow,
{
    convert_to_shares(assets, total_assets, total_shares, decimals_offset, Rounding::Floor)
}

/// Assets owed for minting `shares`: the conversion rounded up, so the
/// minter never supplies less than the exact value.
pub fn preview_mint_internal(
    shares: u64,
    total_assets: u64,
    total_shares: u64,
    decimals_offset: u8,
) -> (r: Result<u64, ErrorCode>)
    requires
        decimals_offset <= MAX_DECIMALS,
    ensures
        r is Ok <==> to_assets_fits(
            shares as nat,
            total_assets as nat,
            total_shares as nat,
            decimals_offset as nat,
            Rounding::Ceiling,
        ),
        r matches Ok(v) ==> v == assets_of(
            shares as nat,
            total_assets as nat,
            total_shares as nat,
            decimals_offset as nat,
            Rounding::Ceiling,
        ),
        r matches Err(e) ==> e == ErrorCode::ArithmeticOverflow,
{
    convert_to_assets(shares, total_assets, total_shares, decimals_offset, Rounding::Ceiling)
}

/// Shares owed for withdrawing `assets`: the conversion rounded up, so the
/// withdrawer never surrenders less than the exact value.
pub fn preview_withdraw_internal(
    assets: u64,
    total_assets: u64,
    total_shares: u64,
    decimals_offset: u8,
) -> (r: Result<u64, ErrorCode>)
    requires
        decimals_offset <= MAX_DECIMALS,
    ensures
        r is Ok <==> to_shares_fits(
            assets as nat,
            total_assets as nat,
            total_shares as nat,
            decimals_offset as nat,
            Rounding::Ceiling,
        ),
        r matches Ok(v) ==> v == shares_of(
            assets as nat,
            total_assets as nat,
            total_shares as nat,
            decimals_offset as nat,
            Rounding::Ceiling,
        ),
        r matches Err(e) ==> e == ErrorCode::ArithmeticOverflow,
{
    convert_to_shares(assets, total_assets, total_shares, decimals_offset, Rounding::Ceiling)
}

/// Assets received for redeeming `shares`: the conversion rounded down, so
/// the redeemer never receives more than the exact value.
pub fn preview_redeem_internal(
    shares: u64,
    total_assets: u64,
    total_shares: u64,
    decimals_offset: u8,
) -> (r: Result<u64, ErrorCode>)
    requires
        decimals_offset <= MAX_DECIMALS,
    ensures
        r is Ok <==> to_assets_fits(
            shares as nat,
            total_assets as nat,
            total_shares as nat,
            decimals_offset as nat,
            Rounding::Floor,
        ),
        r matches Ok(v) ==> v == assets_of(
            shares as nat,
            total_assets as nat,
            total_shares as nat,
            decimals_offset as nat,
            Rounding::Floor,
        ),
        r matches Err(e) ==> e == ErrorCode::ArithmeticOverflow,
{
    convert_to_assets(shares, total_assets, total_shares, decimals_offset, Rounding::Floor)
}

/// Increasing the deposited amount never decreases the shares received:
/// the floor-rounded conversion is monotone in the asset amount.
pub proof fn lemma_preview_deposit_monotonic(
    assets1: nat,
    assets2: nat,
    total_assets: nat,
    total_shares: nat,
    decimals_offset: nat,
)
    requires
        assets1 <= assets2,
    ensures
        shares_of(assets1, total_assets, total_shares, decimals_offset, Rounding::Floor)
            <= shares_of(assets2, total_assets, total_shares, decimals_offset, Rounding::Floor),
{
    let n = virtual_shares(total_shares, decimals_offset) as int;
    let d = virtual_assets(total_assets) as int;
    lemma_mul_inequality(assets1 as int, assets2 as int, n);
    lemma_div_is_ordered(assets1 as int * n, assets2 as int * n, d);
}

/// Increasing the redeemed share amount never decreases the assets
/// received: the floor-rounded conversion is monotone in the share amount.
pub proof fn lemma_preview_redeem_monotonic(
    shares1: nat,
    shares2: nat,
    total_assets: nat,
    total_shares: nat,
    decimals_offset: nat,
)
    requires
        shares1 <= shares2,
    ensures
        assets_of(shares1, total_assets, total_shares, decimals_offset, Rounding::Floor)
            <= assets_of(shares2, total_assets, total_shares, decimals_offset, Rounding::Floor),
{
    let n = virtual_shares(total_shares, decimals_offset) as int;
    let d = virtual_assets(total_assets) as int;
    lemma_pow10_pos(decimals_offset);
    lemma_mul_inequality(shares1 as int, shares2 as int, d);
    lemma_div_is_ordered(shares1 as int * d, shares2 as int * d, n);
}

/// Rounding direction favors the pool: for one snapshot and one asset
/// amount, the shares granted for a deposit (floor) never exceed the shares
/// demanded for a withdrawal (ceiling), and the two differ by exactly one
/// unit when the exact rational quotient is non-integral.
pub proof fn lemma_deposit_le_withdraw(
    assets: nat,
    total_assets: nat,
    total_shares: nat,
    decimals_offset: nat,
)
    ensures
        shares_of(assets, total_assets, total_shares, decimals_offset, Rounding::Floor)
            <= shares_of(assets, total_assets, total_shares, decimals_offset, Rounding::Ceiling),
        shares_of(assets, total_assets, total_shares, decimals_offset, Rounding::Ceiling)
            == shares_of(assets, total_assets, total_shares, decimals_offset, Rounding::Floor) + (
        if assets * virtual_shares(total_shares, decimals_offset) % virtual_assets(total_assets)
            == 0 {
            0nat
        } else {
            1nat
        }),
{
}

/// Rounding direction favors the pool on the asset side as well: the assets
/// granted for a redemption (floor) never exceed the assets demanded for a
/// mint (ceiling) of the same share amount.
pub proof fn lemma_redeem_le_mint(
    shares: nat,
    total_assets: nat,
    total_shares: nat,
    decimals_offset: nat,
)
    ensures
        assets_of(shares, total_assets, total_shares, decimals_offset, Rounding::Floor)
            <= assets_of(shares, total_assets, total_shares, decimals_offset, Rounding::Ceiling),
{
}

/// A deposit round trip never favors the depositor: minting back the shares
/// granted for a deposit costs at most the deposited amount. Rounding can
/// only lose value to the pool, never create it.
pub proof fn lemma_deposit_then_mint_le(
    assets: nat,
    total_assets: nat,
    total_shares: nat,
    decimals_offset: nat,
)
    ensures
        assets_of(
            shares_of(assets, total_assets, total_shares, decimals_offset, Rounding::Floor),
            total_assets,
            total_shares,
            decimals_offset,
            Rounding::Ceiling,
        ) <= assets,
{
    let n = virtual_shares(total_shares, decimals_offset) as int;
    let d = virtual_assets(total_assets) as int;
    let a = assets as int;
    lemma_pow10_pos(decimals_offset);
    let s = (a * n) / d;
    lemma_fundamental_div_mod(a * n, d);
    lemma_mod_division_less_than_divisor(a * n, d);
    assert(s * d <= a * n);
    let x = s * d;
    if x % n == 0 {
        lemma_div_is_ordered(x, a * n, n);
        lemma_div_multiples_vanish(a, n);
        assert(x / n <= a);
    } else {
        lemma_mod_multiples_basic(a, n);
        assert(x != a * n);
        lemma_multiply_divide_lt(x, n, a);
        assert(x / n + 1 <= a);
    }
}

/// The loss of a deposit round trip is less than the asset value of one
/// share: writing `loss` for the deposited amount minus the assets that the
/// granted shares would cost to mint, `loss * virtual_shares` stays below
/// `virtual_assets`. In particular, whenever the virtual share supply is at
/// least half the virtual asset balance, the round trip returns within one
/// asset unit of the deposit.
pub proof fn lemma_deposit_round_trip_loss(
    assets: nat,
    total_assets: nat,
    total_shares: nat,
    decimals_offset: nat,
)
    ensures
        assets_of(
            shares_of(assets, total_assets, total_shares, decimals_offset, Rounding::Floor),
            total_assets,
            total_shares,
            decimals_offset,
            Rounding::Ceiling,
        ) <= assets,
        (assets - assets_of(
            shares_of(assets, total_assets, total_shares, decimals_offset, Rounding::Floor),
            total_assets,
            total_shares,
            decimals_offset,
            Rounding::Ceiling,
        )) * virtual_shares(total_shares, decimals_offset) < virtual_assets(total_assets),
{
    lemma_deposit_then_mint_le(assets, total_assets, total_shares, decimals_offset);
    let n = virtual_shares(total_shares, decimals_offset) as int;
    let d = virtual_assets(total_assets) as int;
    let a = assets as int;
    lemma_pow10_pos(decimals_offset);
    let s = (a * n) / d;
    lemma_fundamental_div_mod(a * n, d);
    lemma_mod_division_less_than_divisor(a * n, d);
    // s * d == a * n - (a * n) % d, so s * d > a * n - d.
    let x = s * d;
    assert(x > a * n - d);
    let back = assets_of(
        shares_of(assets, total_assets, total_shares, decimals_offset, Rounding::Floor),
        total_assets,
        total_shares,
        decimals_offset,
        Rounding::Ceiling,
    ) as int;
    // The ceiling of x / n times n is at least x.
    lemma_fundamental_div_mod(x, n);
    lemma_mod_division_less_than_divisor(x, n);
    lemma_mul_is_distributive_add_other_way(n, x / n, 1);
    assert(back * n >= x);
    assert(back * n > a * n - d);
    lemma_mul_is_distributive_sub_other_way(n, a, back);
    assert((a - back) * n < d);
}

/// On a pool whose virtual share supply is at least half its virtual asset
/// balance, a deposit round trip returns within one asset unit of the
/// deposited amount; rounding can cost the depositor at most one unit.
pub proof fn lemma_deposit_round_trip_within_one(
    assets: nat,
    total_assets: nat,
    total_shares: nat,
    decimals_offset: nat,
)
    requires
        virtual_assets(total_assets) <= 2 * virtual_shares(total_shares, decimals_offset),
    ensures
        assets_of(
            shares_of(assets, total_assets, total_shares, decimals_offset, Rounding::Floor),
            total_assets,
            total_shares,
            decimals_offset,
            Rounding::Ceiling,
        ) <= assets,
        assets - assets_of(
            shares_of(assets, total_assets, total_shares, decimals_offset, Rounding::Floor),
            total_assets,
            total_shares,
            decimals_offset,
            Rounding::Ceiling,
        ) <= 1,
{
    lemma_deposit_round_trip_loss(assets, total_assets, total_shares, decimals_offset);
    let n = virtual_shares(total_shares, decimals_offset) as int;
    let back = assets_of(
        shares_of(assets, total_assets, total_shares, decimals_offset, Rounding::Floor),
        total_assets,
        total_shares,
        decimals_offset,
        Rounding::Ceiling,
    ) as int;
    let loss = assets - back;
    lemma_pow10_pos(decimals_offset);
    // loss * n < d <= 2 * n forces loss < 2.
    if loss >= 2 {
        lemma_mul_inequality(2, loss, n);
    }
}

/// A mint round trip never favors the minter: depositing the assets charged
/// for a mint grants at least the minted share amount back.
pub proof fn lemma_mint_then_deposit_ge(
    shares: nat,
    total_assets: nat,
    total_shares: nat,
    decimals_offset: nat,
)
    ensures
        shares_of(
            assets_of(shares, total_assets, total_shares, decimals_offset, Rounding::Ceiling),
            total_assets,
            total_shares,
            decimals_offset,
            Rounding::Floor,
        ) >= shares,
{
    let n = virtual_shares(total_shares, decimals_offset) as int;
    let d = virtual_assets(total_assets) as int;
    let s = shares as int;
    lemma_pow10_pos(decimals_offset);
    let y = s * d;
    lemma_fundamental_div_mod(y, n);
    lemma_mod_division_less_than_divisor(y, n);
    let m = if y % n == 0 { y / n } else { y / n + 1 };
    lemma_mul_is_distributive_add_other_way(n, y / n, 1);
    assert(m * n >= y);
    lemma_div_is_ordered(y, m * n, d);
    lemma_div_multiples_vanish(s, d);
    assert((m * n) / d >= s);
}

} // verus!
