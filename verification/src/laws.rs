//! What holds of several operations of the vault taken together.
use vstd::prelude::*;
use vstd::arithmetic::div_mod::{lemma_div_pos_is_pos, lemma_fundamental_div_mod, lemma_mod_bound};
use crate::allocation::{basket_value, mint_fault, mint_plan_of, reserve_units};
use crate::allocation::{lemma_targets_within_offer, Rates, Weights};
use crate::contract::{burn_spec, register_spec};
use crate::error::ContractError;
use crate::host::{ChainSnapshotView, EnvView};
use crate::math::DECIMAL_FRACTIONAL;
use crate::msg::{MintStrategy, Response};
use crate::redemption::{burn_fault, burn_plan_of};
use crate::state::{Ledger, State, WEIGHT_TOTAL};

verus! {

/// A quotient rounded down, times the divisor, is at most the dividend and
/// misses it by less than the divisor.
proof fn lemma_floor(x: int, d: int)
    requires
        0 <= x,
        0 < d,
    ensures
        0 <= x / d,
        (x / d) * d <= x,
        x < (x / d) * d + d,
{
    lemma_fundamental_div_mod(x, d);
    lemma_mod_bound(x, d);
    lemma_div_pos_is_pos(x, d);
    assert(d * (x / d) == (x / d) * d) by (nonlinear_arith);
}

/// The base value of one asset's slice, scaled up by every divisor on its
/// way, is at most the redeemed amount times the asset's weight times the
/// value of the holding it was taken from.
proof fn lemma_slice_value(m: int, sp: int, u: int, t: int, w: int, r: int)
    requires
        0 <= m,
        0 < sp,
        0 <= u,
        0 <= t,
        0 <= w,
        0 < r,
    ensures
        ({
            let f = DECIMAL_FRACTIONAL as int;
            let q = t * f / r;
            let y = m * (u + q) / sp;
            let s = y * w / (WEIGHT_TOTAL as int);
            let z = s * r / f;
            &&& 0 <= q
            &&& 0 <= y
            &&& 0 <= s
            &&& 0 <= z
            &&& z * f * (WEIGHT_TOTAL as int) * sp <= m * w * (u * r + t * f)
        }),
{
    let f = DECIMAL_FRACTIONAL as int;
    let big = WEIGHT_TOTAL as int;
    let q = t * f / r;
    lemma_floor(t * f, r);
    let h = u + q;
    assert(0 <= m * h) by (nonlinear_arith)
        requires
            0 <= m,
            0 <= h,
    ;
    let y = m * h / sp;
    lemma_floor(m * h, sp);
    assert(0 <= y * w) by (nonlinear_arith)
        requires
            0 <= y,
            0 <= w,
    ;
    let s = y * w / big;
    assert(0 <= s && s * big <= y * w);
    assert(0 <= s * r) by (nonlinear_arith)
        requires
            0 <= s,
            0 < r,
    ;
    let z = s * r / f;
    assert(0 <= z && z * f <= s * r);
    assert(z * f * big * sp <= (s * r) * (big * sp)) by (nonlinear_arith)
        requires
            z * f <= s * r,
            0 <= big,
            0 < sp,
    ;
    assert((s * r) * (big * sp) <= (y * w) * (r * sp)) by (nonlinear_arith)
        requires
            s * big <= y * w,
            0 < r,
            0 < sp,
    ;
    assert((y * w) * (r * sp) <= (m * h) * (w * r)) by (nonlinear_arith)
        requires
            y * sp <= m * h,
            0 <= w,
            0 < r,
    ;
    assert((m * h) * (w * r) <= m * w * (u * r + t * f)) by (nonlinear_arith)
        requires
            h == u + q,
            q * r <= t * f,
            0 <= m,
            0 <= w,
    ;
}

/// A product of four factors, regrouped.
proof fn lemma_regroup(z: int, f: int, big: int, sp: int)
    ensures
        z * f * big * sp == (z * (f * sp)) * big,
{
    assert(z * f * big * sp == (z * (f * sp)) * big) by (nonlinear_arith);
}

/// The arithmetic core of the round trip: three slice values, each bounded as
/// `lemma_slice_value` says, add up to no more than the deposit, provided the
/// mint did not price the claim tokens below the value of the pool.
proof fn lemma_round_trip_sum(
    m: int,
    s0: int,
    d: int,
    v: int,
    w: (int, int, int),
    x: (int, int, int),
    t: (int, int, int),
    z: (int, int, int),
)
    requires
        0 <= m,
        0 <= s0,
        0 < s0 + m,
        0 <= d,
        0 <= v,
        m * v <= d * s0,
        0 <= w.0 && 0 <= w.1 && 0 <= w.2,
        w.0 + w.1 + w.2 == WEIGHT_TOTAL,
        0 <= t.0 <= d && 0 <= t.1 <= d && 0 <= t.2 <= d,
        x.0 < (v + 1) * DECIMAL_FRACTIONAL,
        x.1 < (v + 1) * DECIMAL_FRACTIONAL,
        x.2 < (v + 1) * DECIMAL_FRACTIONAL,
        0 <= z.0 && 0 <= z.1 && 0 <= z.2,
        z.0 * (DECIMAL_FRACTIONAL as int) * (WEIGHT_TOTAL as int) * (s0 + m) <= m * w.0 * (x.0 + t.0
            * DECIMAL_FRACTIONAL),
        z.1 * (DECIMAL_FRACTIONAL as int) * (WEIGHT_TOTAL as int) * (s0 + m) <= m * w.1 * (x.1 + t.1
            * DECIMAL_FRACTIONAL),
        z.2 * (DECIMAL_FRACTIONAL as int) * (WEIGHT_TOTAL as int) * (s0 + m) <= m * w.2 * (x.2 + t.2
            * DECIMAL_FRACTIONAL),
    ensures
        z.0 + z.1 + z.2 <= d,
{
    let f = DECIMAL_FRACTIONAL as int;
    let big = WEIGHT_TOTAL as int;
    let sp = s0 + m;
    let c = (v + 1 + d) * f - 1;
    let total = z.0 + z.1 + z.2;
    assert(m * w.0 * (x.0 + t.0 * f) <= (m * w.0) * c) by (nonlinear_arith)
        requires
            x.0 + t.0 * f <= c,
            0 <= m,
            0 <= w.0,
    ;
    assert(m * w.1 * (x.1 + t.1 * f) <= (m * w.1) * c) by (nonlinear_arith)
        requires
            x.1 + t.1 * f <= c,
            0 <= m,
            0 <= w.1,
    ;
    assert(m * w.2 * (x.2 + t.2 * f) <= (m * w.2) * c) by (nonlinear_arith)
        requires
            x.2 + t.2 * f <= c,
            0 <= m,
            0 <= w.2,
    ;
    assert((m * w.0) * c + (m * w.1) * c + (m * w.2) * c == (m * c) * big) by (nonlinear_arith)
        requires
            w.0 + w.1 + w.2 == big,
    ;
    lemma_regroup(z.0, f, big, sp);
    lemma_regroup(z.1, f, big, sp);
    lemma_regroup(z.2, f, big, sp);
    assert((z.0 * (f * sp)) * big + (z.1 * (f * sp)) * big + (z.2 * (f * sp)) * big == (total * (f
        * sp)) * big) by (nonlinear_arith)
        requires
            total == z.0 + z.1 + z.2,
    ;
    let lhs = total * (f * sp);
    let rhs = m * c;
    assert(lhs * big <= rhs * big);
    assert(lhs <= rhs) by (nonlinear_arith)
        requires
            lhs * big <= rhs * big,
            0 < big,
    ;
    if total >= d + 1 {
        assert((d + 1) * (f * sp) <= lhs) by (nonlinear_arith)
            requires
                lhs == total * (f * sp),
                d + 1 <= total,
                0 <= f * sp,
        ;
        let ds = d * s0;
        let dm = d * m;
        let mv = m * v;
        assert((d + 1) * (f * sp) == f * ds + f * dm + f * s0 + f * m) by (nonlinear_arith)
            requires
                sp == s0 + m,
                ds == d * s0,
                dm == d * m,
        ;
        assert(rhs == f * mv + f * m + f * dm - m) by (nonlinear_arith)
            requires
                rhs == m * c,
                c == (v + 1 + d) * f - 1,
                mv == m * v,
                dm == d * m,
        ;
        assert(false);
    }
}

/// The minted amount times the value of the pool is at most the deposit times
/// the supply: always under the pro-rata strategy, and under the direct
/// strategy where the pool is worth at most one base unit a claim token.
proof fn lemma_mint_is_priced_fairly(
    weights: Weights,
    strategy: MintStrategy,
    state: State,
    deposit: u128,
    offer: u128,
    rates: Rates,
)
    requires
        mint_fault(weights, strategy, state, deposit, offer, rates) is None,
        strategy is DirectDeposit ==> basket_value(reserve_units(state), rates.values())
            <= state.total_supply,
    ensures
        mint_plan_of(weights, strategy, state, deposit, offer, rates.values()).mint_amount
            * basket_value(reserve_units(state), rates.values()) <= deposit * state.total_supply,
        0 <= basket_value(reserve_units(state), rates.values()),
{
    let prices = rates.values();
    let units = reserve_units(state);
    let v = basket_value(units, prices);
    let d = deposit as int;
    let s0 = state.total_supply as int;
    let m = mint_plan_of(weights, strategy, state, deposit, offer, prices).mint_amount as int;
    lemma_value_nonnegative(units.luna as int, prices.luna.atomics as int);
    lemma_value_nonnegative(units.anc as int, prices.anc.atomics as int);
    lemma_value_nonnegative(units.mir as int, prices.mir.atomics as int);
    match strategy {
        MintStrategy::DirectDeposit => {
            assert(d * v <= d * s0) by (nonlinear_arith)
                requires
                    v <= s0,
                    0 <= d,
            ;
        },
        MintStrategy::ProRata => {
            assert(0 <= s0 * d) by (nonlinear_arith)
                requires
                    0 <= s0,
                    0 <= d,
            ;
            if v == 0 {
                assert(m * v == 0) by (nonlinear_arith)
                    requires
                        v == 0,
                ;
            } else {
                lemma_floor(s0 * d, v);
                assert(s0 * d == d * s0) by (nonlinear_arith);
            }
        },
    }
}

/// The value of a whole quantity at a rate is not negative.
proof fn lemma_value_nonnegative(units: int, atomics: int)
    requires
        0 <= units,
        0 <= atomics,
    ensures
        0 <= units * atomics / (DECIMAL_FRACTIONAL as int),
{
    assert(0 <= units * atomics) by (nonlinear_arith)
        requires
            0 <= units,
            0 <= atomics,
    ;
}

/// Mint, then redeem at once what was minted: the redemption returns no more
/// than was deposited. The deposit is planned against books `state`; the
/// redemption burns exactly the minted claim tokens against the holdings that
/// the books show after the deposit, and every slice is valued at the rates of
/// the deposit. Under the pro-rata strategy this holds of every such round
/// trip. Under the direct strategy, which prices one claim token at one base
/// unit whatever the pool holds, it holds where the pool before the deposit is
/// worth no more than that: at most one base unit for each claim token
/// outstanding.
pub proof fn lemma_mint_then_burn_returns_no_more(
    weights: Weights,
    strategy: MintStrategy,
    state: State,
    deposit: u128,
    offer: u128,
    rates: Rates,
)
    requires
        weights.valid(),
        mint_fault(weights, strategy, state, deposit, offer, rates) is None,
        ({
            let plan = mint_plan_of(weights, strategy, state, deposit, offer, rates.values());
            &&& burn_fault(weights, plan.state, plan.mint_amount, reserve_units(plan.state))
                is None
            &&& strategy is DirectDeposit ==> basket_value(reserve_units(state), rates.values())
                <= state.total_supply
        }),
    ensures
        ({
            let plan = mint_plan_of(weights, strategy, state, deposit, offer, rates.values());
            let back = burn_plan_of(
                weights,
                plan.state,
                plan.mint_amount,
                reserve_units(plan.state),
            );
            basket_value(back.slices, rates.values()) <= deposit
        }),
{
    let prices = rates.values();
    let plan = mint_plan_of(weights, strategy, state, deposit, offer, prices);
    let back = burn_plan_of(weights, plan.state, plan.mint_amount, reserve_units(plan.state));
    let f = DECIMAL_FRACTIONAL as int;
    let m = plan.mint_amount as int;
    let s0 = state.total_supply as int;
    let sp = plan.state.total_supply as int;
    let d = deposit as int;
    let before = reserve_units(state);
    let after = reserve_units(plan.state);
    let v = basket_value(before, prices);
    lemma_targets_within_offer(offer, weights);
    let tl = plan.targets.luna as int;
    let ta = plan.targets.anc as int;
    let tm = plan.targets.mir as int;
    assert(sp == s0 + m);
    assert(after.luna == before.luna + plan.quantities.luna);
    assert(after.anc == before.anc + plan.quantities.anc);
    assert(after.mir == before.mir + plan.quantities.mir);
    lemma_slice_value(m, sp, before.luna as int, tl, weights.luna.atomics as int, prices.luna.atomics as int);
    lemma_slice_value(m, sp, before.anc as int, ta, weights.anc.atomics as int, prices.anc.atomics as int);
    lemma_slice_value(m, sp, before.mir as int, tm, weights.mir.atomics as int, prices.mir.atomics as int);
    let xl = before.luna * prices.luna.atomics;
    let xa = before.anc * prices.anc.atomics;
    let xm = before.mir * prices.mir.atomics;
    assert(0 <= xl && 0 <= xa && 0 <= xm) by (nonlinear_arith)
        requires
            xl == before.luna * prices.luna.atomics,
            xa == before.anc * prices.anc.atomics,
            xm == before.mir * prices.mir.atomics,
    ;
    lemma_mint_is_priced_fairly(weights, strategy, state, deposit, offer, rates);
    lemma_round_trip_sum(
        m,
        s0,
        d,
        v,
        (weights.luna.atomics as int, weights.anc.atomics as int, weights.mir.atomics as int),
        (xl, xa, xm),
        (tl, ta, tm),
        (back.slices.luna * prices.luna.atomics / f, back.slices.anc * prices.anc.atomics / f,
            back.slices.mir * prices.mir.atomics / f),
    );
}

/// A deposit as the allocation engine sees it: what was attached, what is
/// left of it after tax, and the rates at the time.
pub struct DepositCall {
    pub deposit: u128,
    pub offer: u128,
    pub rates: Rates,
}

/// The books after a run of deposits, each planned against the books that the
/// one before left behind. A deposit that is refused leaves the books as they
/// were.
pub open spec fn books_after(
    weights: Weights,
    strategy: MintStrategy,
    state: State,
    calls: Seq<DepositCall>,
) -> State
    decreases calls.len(),
{
    if calls.len() == 0 {
        state
    } else {
        let before = books_after(weights, strategy, state, calls.drop_last());
        let call = calls.last();
        if mint_fault(weights, strategy, before, call.deposit, call.offer, call.rates) is None {
            mint_plan_of(
                weights,
                strategy,
                before,
                call.deposit,
                call.offer,
                call.rates.values(),
            ).state
        } else {
            before
        }
    }
}

/// The claim tokens minted by a run of deposits, added up.
pub open spec fn minted_by(
    weights: Weights,
    strategy: MintStrategy,
    state: State,
    calls: Seq<DepositCall>,
) -> int
    decreases calls.len(),
{
    if calls.len() == 0 {
        0
    } else {
        let before = books_after(weights, strategy, state, calls.drop_last());
        let call = calls.last();
        let earlier = minted_by(weights, strategy, state, calls.drop_last());
        if mint_fault(weights, strategy, before, call.deposit, call.offer, call.rates) is None {
            earlier + mint_plan_of(
                weights,
                strategy,
                before,
                call.deposit,
                call.offer,
                call.rates.values(),
            ).mint_amount
        } else {
            earlier
        }
    }
}

/// After any run of deposits the outstanding supply is the supply before it
/// plus everything that the deposits minted, and that sum fits into 128 bits.
pub proof fn lemma_supply_counts_every_mint(
    weights: Weights,
    strategy: MintStrategy,
    state: State,
    calls: Seq<DepositCall>,
)
    ensures
        books_after(weights, strategy, state, calls).total_supply == state.total_supply
            + minted_by(weights, strategy, state, calls),
        0 <= minted_by(weights, strategy, state, calls),
        state.total_supply + minted_by(weights, strategy, state, calls) <= u128::MAX,
    decreases calls.len(),
{
    if calls.len() > 0 {
        lemma_supply_counts_every_mint(weights, strategy, state, calls.drop_last());
    }
}

/// On a vault whose companion token is not bound yet, the first registration
/// succeeds, whoever calls, and binds the caller; the registration after it
/// fails as unauthorized, whoever calls, and changes nothing.
pub proof fn lemma_registration_binds_once(
    fresh: Ledger,
    first: EnvView,
    bound: Ledger,
    first_result: Result<Response, ContractError>,
    second: EnvView,
    after: Ledger,
    second_result: Result<Response, ContractError>,
)
    requires
        fresh.config_view() matches Some(config) && config.eterra_contract is None,
        register_spec(fresh, first, bound, first_result),
        register_spec(bound, second, after, second_result),
    ensures
        first_result is Ok,
        bound.config_view() matches Some(config) && config.eterra_contract == Some(first.sender),
        second_result is Err,
        second_result->Err_0 == ContractError::Unauthorized,
        after == bound,
{
}

/// A redemption of more claim tokens than are outstanding fails and leaves
/// the ledger, and with it the supply, as it was.
pub proof fn lemma_burn_beyond_supply_fails(
    pre: Ledger,
    env: EnvView,
    chain: ChainSnapshotView,
    post: Ledger,
    r: Result<Response, ContractError>,
)
    requires
        burn_spec(pre, env, chain, post, r),
        pre.stored_state() matches Some(state) && chain.claim_balance > state.total_supply,
    ensures
        r is Err,
        post == pre,
        post.stored_state() == pre.stored_state(),
        pre.config_view() matches Some(config) && config.eterra_contract is Some ==> r->Err_0
            == ContractError::ArithmeticFailure(crate::error::ArithmeticFault::Underflow)
            || r->Err_0 == ContractError::InvalidInput(crate::error::InputFault::ZeroSupply),
{
}

} // verus!
