//! The allocation engine: how a deposit is split over the reserve assets,
//! what each part buys, and how many claim tokens the deposit is worth.
use vstd::prelude::*;
use vstd::arithmetic::div_mod::lemma_div_denominator;
use crate::error::{ArithmeticFault, ContractError, InputFault};
use crate::math::{decimal_division, mul_decimal, multiply_ratio, ratio_floor, scaled_floor};
use crate::math::{Decimal18, DECIMAL_FRACTIONAL};
use crate::msg::MintStrategy;
use crate::state::{weights_valid, State, WEIGHT_TOTAL};

verus! {

/// The number of basis points in the whole.
pub const BASIS_POINTS: u128 = 10_000;

/// The divisor that stands in for a pool without value.
pub const NOMINAL_POOL_VALUE: u128 = 1;

/// One amount for each reserve asset.
#[derive(Clone, Copy, Debug, PartialEq, Eq, Structural)]
pub struct Basket {
    pub luna: u128,
    pub anc: u128,
    pub mir: u128,
}

/// The allocation weight of each reserve asset, in basis points.
#[derive(Clone, Copy, Debug, PartialEq, Eq, Structural)]
pub struct Weights {
    pub luna: Decimal18,
    pub anc: Decimal18,
    pub mir: Decimal18,
}

/// The price of each reserve asset: base units for one unit of the asset.
#[derive(Clone, Copy, Debug, PartialEq, Eq, Structural)]
pub struct Prices {
    pub luna: Decimal18,
    pub anc: Decimal18,
    pub mir: Decimal18,
}

/// The price of each reserve asset in base units, as far as it is known.
#[derive(Clone, Copy, Debug, PartialEq, Eq, Structural)]
pub struct Rates {
    pub luna: Option<Decimal18>,
    pub anc: Option<Decimal18>,
    pub mir: Option<Decimal18>,
}

/// What a deposit leads to.
#[derive(Clone, Copy, Debug, PartialEq, Eq, Structural)]
pub struct MintPlan {
    /// The base amount routed to each reserve asset.
    pub targets: Basket,
    /// The quantity of each reserve asset that its target buys.
    pub quantities: Basket,
    /// The claim tokens minted to the depositor.
    pub mint_amount: u128,
    /// The books after the deposit.
    pub state: State,
}

impl Basket {
    /// The three amounts added up.
    pub open spec fn total(self) -> int {
        self.luna + self.anc + self.mir
    }
}

impl Weights {
    /// Whether the three values add up to 10,000 basis points.
    pub open spec fn valid(self) -> bool {
        weights_valid(self.luna, self.anc, self.mir)
    }
}

/// Whether a rate is there and can be divided by.
pub open spec fn rate_usable(rate: Option<Decimal18>) -> bool {
    rate matches Some(r) && r.atomics != 0
}

impl Rates {
    /// Whether every rate is there and can be divided by.
    pub open spec fn usable(self) -> bool {
        rate_usable(self.luna) && rate_usable(self.anc) && rate_usable(self.mir)
    }

    /// The three rates, where every one is there.
    pub open spec fn values(self) -> Prices {
        Prices { luna: self.luna->Some_0, anc: self.anc->Some_0, mir: self.mir->Some_0 }
    }

    /// The three rates if every one is there and not zero.
    pub fn resolve(&self) -> (r: Option<Prices>)
        ensures
            r is Some <==> self.usable(),
            r is Some ==> r->Some_0 == self.values(),
    {
        match (self.luna, self.anc, self.mir) {
            (Some(luna), Some(anc), Some(mir)) => {
                if luna.atomics == 0 || anc.atomics == 0 || mir.atomics == 0 {
                    None
                } else {
                    Some(Prices { luna, anc, mir })
                }
            },
            _ => None,
        }
    }
}

/// The part of an offered amount that a weight routes to its asset: the
/// amount times the weight, over 10,000 basis points, rounded down.
pub open spec fn target_of(offer: int, weight: Decimal18) -> int {
    offer * weight.atomics / (WEIGHT_TOTAL as int)
}

/// The quantity of an asset that a base amount buys at a rate, rounded down.
pub open spec fn quantity_of(amount: int, rate: Decimal18) -> int {
    ratio_floor(amount, DECIMAL_FRACTIONAL as int, rate.atomics as int)
}

/// The base value of a whole quantity of an asset at a rate, rounded down.
pub open spec fn value_of(units: int, rate: Decimal18) -> int {
    scaled_floor(units, rate.atomics as int)
}

/// The whole units of each reserve that the books show.
pub open spec fn reserve_units(state: State) -> Basket {
    Basket {
        luna: state.reserve_luna.atomics / DECIMAL_FRACTIONAL,
        anc: state.reserve_anc.atomics / DECIMAL_FRACTIONAL,
        mir: state.reserve_mir.atomics / DECIMAL_FRACTIONAL,
    }
}

/// The base value of a basket of whole quantities at the given rates.
pub open spec fn basket_value(units: Basket, rates: Prices) -> int {
    value_of(units.luna as int, rates.luna) + value_of(units.anc as int, rates.anc) + value_of(
        units.mir as int,
        rates.mir,
    )
}

/// The divisor of the pro-rata strategy: the pool's value, or the nominal
/// divisor where the pool has none.
pub open spec fn pool_divisor(pool_value: int) -> int {
    if pool_value == 0 {
        NOMINAL_POOL_VALUE as int
    } else {
        pool_value
    }
}

/// The claim tokens that a deposit is worth under a strategy.
pub open spec fn mint_amount_of(
    strategy: MintStrategy,
    total_supply: u128,
    deposit: u128,
    pool_value: int,
) -> int {
    match strategy {
        MintStrategy::DirectDeposit => deposit as int,
        MintStrategy::ProRata => ratio_floor(
            total_supply as int,
            deposit as int,
            pool_divisor(pool_value),
        ),
    }
}

/// The base amount that a weight routes to its asset, or `None` where the
/// product of the amount and the weight's atomics does not fit into 128 bits.
/// The amount is first scaled by the weight and then divided by 10,000; both
/// roundings together are the single rounding of `target_of`.
pub fn target(offer: u128, weight: Decimal18) -> (r: Option<u128>)
    ensures
        r is Some <==> offer * weight.atomics <= u128::MAX,
        r is Some ==> r->Some_0 == target_of(offer as int, weight),
{
    match mul_decimal(offer, weight) {
        Some(scaled) => {
            assert(scaled * DECIMAL_FRACTIONAL <= u128::MAX);
            assert(ratio_floor(scaled as int, DECIMAL_FRACTIONAL as int, WEIGHT_TOTAL as int)
                == scaled / BASIS_POINTS);
            assert(scaled / BASIS_POINTS == target_of(offer as int, weight)) by {
                lemma_div_denominator(
                    offer * weight.atomics,
                    DECIMAL_FRACTIONAL as int,
                    BASIS_POINTS as int,
                );
            }
            decimal_division(scaled, Decimal18 { atomics: WEIGHT_TOTAL })
        },
        None => None,
    }
}

/// The three targets of an offered amount.
pub open spec fn targets_of(offer: u128, weights: Weights) -> Basket {
    Basket {
        luna: target_of(offer as int, weights.luna) as u128,
        anc: target_of(offer as int, weights.anc) as u128,
        mir: target_of(offer as int, weights.mir) as u128,
    }
}

/// Whether the three targets of an offered amount can be computed.
pub open spec fn targets_fit(offer: u128, weights: Weights) -> bool {
    &&& offer * weights.luna.atomics <= u128::MAX
    &&& offer * weights.anc.atomics <= u128::MAX
    &&& offer * weights.mir.atomics <= u128::MAX
}

/// Rounding down never routes more than was offered: with weights that add up
/// to 10,000 basis points the three targets together are at most the offer.
pub proof fn lemma_targets_within_offer(offer: u128, weights: Weights)
    requires
        weights.valid(),
    ensures
        targets_of(offer, weights).total() <= offer,
        target_of(offer as int, weights.luna) + target_of(offer as int, weights.anc) + target_of(
            offer as int,
            weights.mir,
        ) <= offer,
{
    let o = offer as int;
    let wl = weights.luna.atomics as int;
    let wa = weights.anc.atomics as int;
    let wm = weights.mir.atomics as int;
    let tl = target_of(o, weights.luna);
    let ta = target_of(o, weights.anc);
    let tm = target_of(o, weights.mir);
    assert(0 <= o * wl && 0 <= o * wa && 0 <= o * wm) by (nonlinear_arith)
        requires
            0 <= o,
            0 <= wl,
            0 <= wa,
            0 <= wm,
    ;
    assert(o * wl + o * wa + o * wm == o * (WEIGHT_TOTAL as int)) by (nonlinear_arith)
        requires
            wl + wa + wm == WEIGHT_TOTAL,
    ;
    assert(tl * WEIGHT_TOTAL <= o * wl);
    assert(ta * WEIGHT_TOTAL <= o * wa);
    assert(tm * WEIGHT_TOTAL <= o * wm);
    assert(0 <= tl && 0 <= ta && 0 <= tm);
}

/// Splits an offered amount over the three reserve assets.
pub fn allocate(offer: u128, weights: &Weights) -> (r: Result<Basket, ContractError>)
    ensures
        targets_fit(offer, *weights) ==> r == Ok::<Basket, ContractError>(
            targets_of(offer, *weights),
        ),
        !targets_fit(offer, *weights) ==> r == Err::<Basket, ContractError>(
            ContractError::ArithmeticFailure(ArithmeticFault::Overflow),
        ),
        r is Ok && weights.valid() ==> r->Ok_0.total() <= offer,
{
    proof {
        if weights.valid() {
            lemma_targets_within_offer(offer, *weights);
        }
    }
    match (target(offer, weights.luna), target(offer, weights.anc), target(offer, weights.mir)) {
        (Some(luna), Some(anc), Some(mir)) => Ok(Basket { luna, anc, mir }),
        _ => Err(ContractError::ArithmeticFailure(ArithmeticFault::Overflow)),
    }
}

/// The quantities that three targets buy at the given rates.
pub open spec fn quantities_of(targets: Basket, rates: Prices) -> Basket {
    Basket {
        luna: quantity_of(targets.luna as int, rates.luna) as u128,
        anc: quantity_of(targets.anc as int, rates.anc) as u128,
        mir: quantity_of(targets.mir as int, rates.mir) as u128,
    }
}

/// Whether the quantities that three targets buy can be computed.
pub open spec fn quantities_fit(targets: Basket) -> bool {
    &&& targets.luna * DECIMAL_FRACTIONAL <= u128::MAX
    &&& targets.anc * DECIMAL_FRACTIONAL <= u128::MAX
    &&& targets.mir * DECIMAL_FRACTIONAL <= u128::MAX
}

/// The quantity of each reserve asset that its target buys. A rate that is
/// missing or zero is a division by zero.
pub fn acquire(targets: &Basket, rates: &Rates) -> (r: Result<Basket, ContractError>)
    ensures
        !rates.usable() ==> r == Err::<Basket, ContractError>(
            ContractError::ArithmeticFailure(ArithmeticFault::DivisionByZero),
        ),
        rates.usable() && !quantities_fit(*targets) ==> r == Err::<Basket, ContractError>(
            ContractError::ArithmeticFailure(ArithmeticFault::Overflow),
        ),
        rates.usable() && quantities_fit(*targets) ==> r == Ok::<Basket, ContractError>(
            quantities_of(*targets, rates.values()),
        ),
{
    let prices = match rates.resolve() {
        Some(prices) => prices,
        None => {
            return Err(ContractError::ArithmeticFailure(ArithmeticFault::DivisionByZero));
        },
    };
    match (
        decimal_division(targets.luna, prices.luna),
        decimal_division(targets.anc, prices.anc),
        decimal_division(targets.mir, prices.mir),
    ) {
        (Some(luna), Some(anc), Some(mir)) => Ok(Basket { luna, anc, mir }),
        _ => Err(ContractError::ArithmeticFailure(ArithmeticFault::Overflow)),
    }
}

/// Whether the base value of a basket can be computed.
pub open spec fn value_fits(units: Basket, rates: Prices) -> bool {
    &&& units.luna * rates.luna.atomics <= u128::MAX
    &&& units.anc * rates.anc.atomics <= u128::MAX
    &&& units.mir * rates.mir.atomics <= u128::MAX
    &&& basket_value(units, rates) <= u128::MAX
}

/// The base value of a basket of whole quantities at the given rates, or
/// `None` where a product or the sum does not fit into 128 bits.
pub fn pool_value(units: &Basket, rates: &Prices) -> (r: Option<u128>)
    ensures
        r is Some <==> value_fits(*units, *rates),
        r is Some ==> r->Some_0 == basket_value(*units, *rates),
{
    let luna = match mul_decimal(units.luna, rates.luna) {
        Some(v) => v,
        None => {
            return None;
        },
    };
    let anc = match mul_decimal(units.anc, rates.anc) {
        Some(v) => v,
        None => {
            return None;
        },
    };
    let mir = match mul_decimal(units.mir, rates.mir) {
        Some(v) => v,
        None => {
            return None;
        },
    };
    match luna.checked_add(anc) {
        Some(part) => part.checked_add(mir),
        None => None,
    }
}

/// Whether the claim tokens that a deposit is worth can be computed.
pub open spec fn mint_amount_fits(
    strategy: MintStrategy,
    total_supply: u128,
    deposit: u128,
    units: Basket,
    rates: Prices,
) -> bool {
    strategy is ProRata ==> value_fits(units, rates) && total_supply * deposit <= u128::MAX
}

/// The claim tokens that a deposit is worth: the deposit itself under the
/// direct strategy; under the pro-rata strategy the outstanding supply times
/// the deposit over the value of the pool, rounded down, with the nominal
/// divisor in place of a pool without value.
pub fn mint_amount(
    strategy: MintStrategy,
    total_supply: u128,
    deposit: u128,
    units: &Basket,
    rates: &Prices,
) -> (r: Option<u128>)
    ensures
        r is Some <==> mint_amount_fits(strategy, total_supply, deposit, *units, *rates),
        r is Some ==> r->Some_0 == mint_amount_of(
            strategy,
            total_supply,
            deposit,
            basket_value(*units, *rates),
        ),
{
    match strategy {
        MintStrategy::DirectDeposit => Some(deposit),
        MintStrategy::ProRata => {
            let value = match pool_value(units, rates) {
                Some(v) => v,
                None => {
                    return None;
                },
            };
            let divisor = if value == 0 {
                NOMINAL_POOL_VALUE
            } else {
                value
            };
            multiply_ratio(total_supply, deposit, divisor)
        },
    }
}

/// The books after `mint_amount` claim tokens were issued and the given whole
/// quantities were added to the reserves.
pub open spec fn credited(state: State, quantities: Basket, mint_amount: u128) -> State {
    State {
        total_supply: (state.total_supply + mint_amount) as u128,
        reserve_luna: Decimal18 {
            atomics: (state.reserve_luna.atomics + quantities.luna * DECIMAL_FRACTIONAL) as u128,
        },
        reserve_anc: Decimal18 {
            atomics: (state.reserve_anc.atomics + quantities.anc * DECIMAL_FRACTIONAL) as u128,
        },
        reserve_mir: Decimal18 {
            atomics: (state.reserve_mir.atomics + quantities.mir * DECIMAL_FRACTIONAL) as u128,
        },
    }
}

/// Whether the books have room for an issue and the quantities bought.
pub open spec fn credit_fits(state: State, quantities: Basket, mint_amount: u128) -> bool {
    &&& state.total_supply + mint_amount <= u128::MAX
    &&& state.reserve_luna.atomics + quantities.luna * DECIMAL_FRACTIONAL <= u128::MAX
    &&& state.reserve_anc.atomics + quantities.anc * DECIMAL_FRACTIONAL <= u128::MAX
    &&& state.reserve_mir.atomics + quantities.mir * DECIMAL_FRACTIONAL <= u128::MAX
}

/// A reserve after a whole quantity was added, or `None` where it has no room.
fn credit_reserve(reserve: Decimal18, quantity: u128) -> (r: Option<Decimal18>)
    ensures
        r is Some <==> reserve.atomics + quantity * DECIMAL_FRACTIONAL <= u128::MAX,
        r is Some ==> r->Some_0.atomics == reserve.atomics + quantity * DECIMAL_FRACTIONAL,
{
    match Decimal18::from_units(quantity) {
        Some(added) => reserve.checked_add(&added),
        None => None,
    }
}

/// Enters an issue of claim tokens and the quantities bought into the books,
/// or returns `None` where a balance has no room for it.
pub fn credit(state: &State, quantities: &Basket, mint_amount: u128) -> (r: Option<State>)
    ensures
        r is Some <==> credit_fits(*state, *quantities, mint_amount),
        r is Some ==> r->Some_0 == credited(*state, *quantities, mint_amount),
{
    match (
        state.total_supply.checked_add(mint_amount),
        credit_reserve(state.reserve_luna, quantities.luna),
        credit_reserve(state.reserve_anc, quantities.anc),
        credit_reserve(state.reserve_mir, quantities.mir),
    ) {
        (Some(total_supply), Some(reserve_luna), Some(reserve_anc), Some(reserve_mir)) => Some(
            State { total_supply, reserve_luna, reserve_anc, reserve_mir },
        ),
        _ => None,
    }
}

/// What a deposit leads to where nothing stands in its way.
pub open spec fn mint_plan_of(
    weights: Weights,
    strategy: MintStrategy,
    state: State,
    deposit: u128,
    offer: u128,
    rates: Prices,
) -> MintPlan {
    let targets = targets_of(offer, weights);
    let quantities = quantities_of(targets, rates);
    let mint_amount = mint_amount_of(
        strategy,
        state.total_supply,
        deposit,
        basket_value(reserve_units(state), rates),
    ) as u128;
    MintPlan { targets, quantities, mint_amount, state: credited(state, quantities, mint_amount) }
}

/// Whether every number of a deposit's plan fits into 128 bits.
pub open spec fn mint_fits(
    weights: Weights,
    strategy: MintStrategy,
    state: State,
    deposit: u128,
    offer: u128,
    rates: Prices,
) -> bool {
    let plan = mint_plan_of(weights, strategy, state, deposit, offer, rates);
    &&& targets_fit(offer, weights)
    &&& quantities_fit(plan.targets)
    &&& mint_amount_fits(strategy, state.total_supply, deposit, reserve_units(state), rates)
    &&& credit_fits(state, plan.quantities, plan.mint_amount)
}

/// Why a deposit is refused, if it is: the first of these that holds. Nothing
/// was deposited; more is said to be left after tax than was deposited; a rate
/// is missing or zero; a number of the plan does not fit into 128 bits.
pub open spec fn mint_fault(
    weights: Weights,
    strategy: MintStrategy,
    state: State,
    deposit: u128,
    offer: u128,
    rates: Rates,
) -> Option<ContractError> {
    if deposit == 0 {
        Some(ContractError::InvalidInput(InputFault::ZeroDeposit))
    } else if offer > deposit {
        Some(ContractError::InvalidInput(InputFault::TaxExceedsDeposit))
    } else if !rates.usable() {
        Some(ContractError::ArithmeticFailure(ArithmeticFault::DivisionByZero))
    } else if !mint_fits(weights, strategy, state, deposit, offer, rates.values()) {
        Some(ContractError::ArithmeticFailure(ArithmeticFault::Overflow))
    } else {
        None
    }
}

/// Plans a deposit: `offer` is what is left of `deposit` after tax and is
/// split by the weights; each part buys its asset at the given rate; the
/// strategy prices the deposit in claim tokens; the books take up both.
pub fn plan_mint(
    weights: &Weights,
    strategy: MintStrategy,
    state: &State,
    deposit: u128,
    offer: u128,
    rates: &Rates,
) -> (r: Result<MintPlan, ContractError>)
    ensures
        match r {
            Ok(plan) => mint_fault(*weights, strategy, *state, deposit, offer, *rates) is None
                && plan == mint_plan_of(
                *weights,
                strategy,
                *state,
                deposit,
                offer,
                rates.values(),
            ),
            Err(e) => mint_fault(*weights, strategy, *state, deposit, offer, *rates) == Some(e),
        },
        r is Ok ==> r->Ok_0.state.total_supply == state.total_supply + r->Ok_0.mint_amount,
        r is Ok && weights.valid() ==> r->Ok_0.targets.total() <= deposit,
{
    if deposit == 0 {
        return Err(ContractError::InvalidInput(InputFault::ZeroDeposit));
    }
    if offer > deposit {
        return Err(ContractError::InvalidInput(InputFault::TaxExceedsDeposit));
    }
    let prices = match rates.resolve() {
        Some(prices) => prices,
        None => {
            return Err(ContractError::ArithmeticFailure(ArithmeticFault::DivisionByZero));
        },
    };
    let targets = allocate(offer, weights)?;
    let quantities = acquire(&targets, rates)?;
    let units = Basket {
        luna: state.reserve_luna.floor_units(),
        anc: state.reserve_anc.floor_units(),
        mir: state.reserve_mir.floor_units(),
    };
    let minted = match mint_amount(strategy, state.total_supply, deposit, &units, &prices) {
        Some(minted) => minted,
        None => {
            return Err(ContractError::ArithmeticFailure(ArithmeticFault::Overflow));
        },
    };
    match credit(state, &quantities, minted) {
        Some(after) => Ok(MintPlan { targets, quantities, mint_amount: minted, state: after }),
        None => Err(ContractError::ArithmeticFailure(ArithmeticFault::Overflow)),
    }
}

} // verus!
