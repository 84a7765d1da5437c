//! The redemption engine: which slice of every reserve asset is liquidated
//! when claim tokens are redeemed.
use vstd::prelude::*;
use crate::allocation::{target, target_of, Basket, Weights};
use crate::error::{ArithmeticFault, ContractError, InputFault};
use crate::math::{checked_sub, multiply_ratio, ratio_floor, Decimal18};
use crate::state::State;

verus! {

/// What a redemption leads to.
#[derive(Clone, Copy, Debug, PartialEq, Eq, Structural)]
pub struct BurnPlan {
    /// The quantity of each reserve asset that is swapped back.
    pub slices: Basket,
    /// The claim tokens burned.
    pub burn_amount: u128,
    /// The books after the redemption.
    pub state: State,
}

/// The part of a holding that belongs to the redeemed claim tokens: the
/// holding times the redeemed amount over the outstanding supply, rounded down.
pub open spec fn share_of(available: u128, holding: u128, total_supply: u128) -> int {
    ratio_floor(available as int, holding as int, total_supply as int)
}

/// The slice of a holding that is liquidated: the share of the redeemed claim
/// tokens in it, rounded down, times the asset's weight over 10,000 basis
/// points, rounded down again.
pub open spec fn slice_of(
    available: u128,
    holding: u128,
    total_supply: u128,
    weight: Decimal18,
) -> int {
    target_of(share_of(available, holding, total_supply), weight)
}

/// Whether the slice of a holding can be computed.
pub open spec fn slice_fits(
    available: u128,
    holding: u128,
    total_supply: u128,
    weight: Decimal18,
) -> bool {
    &&& total_supply != 0
    &&& available * holding <= u128::MAX
    &&& share_of(available, holding, total_supply) * weight.atomics <= u128::MAX
}

/// The slice of a holding that is liquidated, or `None` where nothing is
/// outstanding or a product does not fit into 128 bits.
pub fn slice(available: u128, holding: u128, total_supply: u128, weight: Decimal18) -> (r:
    Option<u128>)
    ensures
        r is Some <==> slice_fits(available, holding, total_supply, weight),
        r is Some ==> r->Some_0 == slice_of(available, holding, total_supply, weight),
{
    match multiply_ratio(available, holding, total_supply) {
        Some(share) => target(share, weight),
        None => None,
    }
}

/// The three slices of a redemption.
pub open spec fn slices_of(
    weights: Weights,
    total_supply: u128,
    available: u128,
    holdings: Basket,
) -> Basket {
    Basket {
        luna: slice_of(available, holdings.luna, total_supply, weights.luna) as u128,
        anc: slice_of(available, holdings.anc, total_supply, weights.anc) as u128,
        mir: slice_of(available, holdings.mir, total_supply, weights.mir) as u128,
    }
}

/// Whether the three slices of a redemption can be computed.
pub open spec fn burn_fits(
    weights: Weights,
    total_supply: u128,
    available: u128,
    holdings: Basket,
) -> bool {
    &&& slice_fits(available, holdings.luna, total_supply, weights.luna)
    &&& slice_fits(available, holdings.anc, total_supply, weights.anc)
    &&& slice_fits(available, holdings.mir, total_supply, weights.mir)
}

/// The books after `available` claim tokens were burned.
pub open spec fn debited(state: State, available: u128) -> State {
    State { total_supply: (state.total_supply - available) as u128, ..state }
}

/// What a redemption leads to where nothing stands in its way.
pub open spec fn burn_plan_of(
    weights: Weights,
    state: State,
    available: u128,
    holdings: Basket,
) -> BurnPlan {
    BurnPlan {
        slices: slices_of(weights, state.total_supply, available, holdings),
        burn_amount: available,
        state: debited(state, available),
    }
}

/// Why a redemption is refused, if it is: the first of these that holds. No
/// claim token is outstanding; more is to be burned than is outstanding; a
/// product on the way to a slice does not fit into 128 bits.
pub open spec fn burn_fault(
    weights: Weights,
    state: State,
    available: u128,
    holdings: Basket,
) -> Option<ContractError> {
    if state.total_supply == 0 {
        Some(ContractError::InvalidInput(InputFault::ZeroSupply))
    } else if available > state.total_supply {
        Some(ContractError::ArithmeticFailure(ArithmeticFault::Underflow))
    } else if !burn_fits(weights, state.total_supply, available, holdings) {
        Some(ContractError::ArithmeticFailure(ArithmeticFault::Overflow))
    } else {
        None
    }
}

/// Plans the redemption of `available` claim tokens against the vault's
/// holdings: the slice of every holding, the burn of the whole amount, and the
/// supply reduced by it.
pub fn plan_burn(weights: &Weights, state: &State, available: u128, holdings: &Basket) -> (r:
    Result<BurnPlan, ContractError>)
    ensures
        match r {
            Ok(plan) => burn_fault(*weights, *state, available, *holdings) is None && plan
                == burn_plan_of(*weights, *state, available, *holdings),
            Err(e) => burn_fault(*weights, *state, available, *holdings) == Some(e),
        },
        r is Ok ==> r->Ok_0.burn_amount == available && r->Ok_0.state.total_supply
            == state.total_supply - available,
{
    if state.total_supply == 0 {
        return Err(ContractError::InvalidInput(InputFault::ZeroSupply));
    }
    let total_supply = checked_sub(state.total_supply, available)?;
    match (
        slice(available, holdings.luna, state.total_supply, weights.luna),
        slice(available, holdings.anc, state.total_supply, weights.anc),
        slice(available, holdings.mir, state.total_supply, weights.mir),
    ) {
        (Some(luna), Some(anc), Some(mir)) => Ok(
            BurnPlan {
                slices: Basket { luna, anc, mir },
                burn_amount: available,
                state: State {
                    total_supply,
                    reserve_luna: state.reserve_luna,
                    reserve_anc: state.reserve_anc,
                    reserve_mir: state.reserve_mir,
                },
            },
        ),
        _ => Err(ContractError::ArithmeticFailure(ArithmeticFault::Overflow)),
    }
}

} // verus!
