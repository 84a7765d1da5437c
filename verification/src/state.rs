//! The two records that the vault keeps, and the ledger that holds them.
use vstd::prelude::*;
use crate::error::{ContractError, InputFault};
use crate::math::Decimal18;
use crate::msg::{opt_text, ConfigView, MintStrategy};

verus! {

/// The total that the three allocation weights must add up to: 10,000 basis
/// points, in atomics.
pub const WEIGHT_TOTAL: u128 = 10_000_000_000_000_000_000_000;

/// Whether three weights add up to the fixed total.
pub open spec fn weights_valid(luna: Decimal18, anc: Decimal18, mir: Decimal18) -> bool {
    luna.atomics + anc.atomics + mir.atomics == WEIGHT_TOTAL
}

/// Whether three weights add up to the fixed total.
pub fn check_weights(luna: Decimal18, anc: Decimal18, mir: Decimal18) -> (r: bool)
    ensures
        r == weights_valid(luna, anc, mir),
{
    luna.atomics <= WEIGHT_TOTAL && anc.atomics <= WEIGHT_TOTAL && mir.atomics <= WEIGHT_TOTAL
        && luna.atomics + anc.atomics + mir.atomics == WEIGHT_TOTAL
}

/// The vault's parameters. They are written when the vault is created and
/// changed once more, when the companion token registers itself.
#[derive(Clone, Debug, PartialEq, Eq)]
pub struct Config {
    pub owner_addr: String,
    pub stable_denom: String,
    /// The claim token contract; `None` until it has registered.
    pub eterra_contract: Option<String>,
    pub terraswap_factory: String,
    pub alloc_luna: Decimal18,
    pub alloc_anc: Decimal18,
    pub alloc_mir: Decimal18,
    pub mint_strategy: MintStrategy,
}

impl View for Config {
    type V = ConfigView;

    open spec fn view(&self) -> ConfigView {
        ConfigView {
            owner_addr: self.owner_addr@,
            stable_denom: self.stable_denom@,
            eterra_contract: opt_text(self.eterra_contract),
            terraswap_factory: self.terraswap_factory@,
            alloc_luna: self.alloc_luna,
            alloc_anc: self.alloc_anc,
            alloc_mir: self.alloc_mir,
            mint_strategy: self.mint_strategy,
        }
    }
}

impl ConfigView {
    /// Whether the weights add up to the fixed total.
    pub open spec fn valid(self) -> bool {
        weights_valid(self.alloc_luna, self.alloc_anc, self.alloc_mir)
    }
}

/// A copy of an optional string.
pub fn copy_opt_string(o: &Option<String>) -> (r: Option<String>)
    ensures
        r == *o,
{
    match o {
        Some(s) => Some(s.clone()),
        None => None,
    }
}

impl Config {
    /// A copy of the configuration.
    pub fn duplicate(&self) -> (r: Config)
        ensures
            r == *self,
    {
        Config {
            owner_addr: self.owner_addr.clone(),
            stable_denom: self.stable_denom.clone(),
            eterra_contract: copy_opt_string(&self.eterra_contract),
            terraswap_factory: self.terraswap_factory.clone(),
            alloc_luna: self.alloc_luna,
            alloc_anc: self.alloc_anc,
            alloc_mir: self.alloc_mir,
            mint_strategy: self.mint_strategy,
        }
    }
}

/// The vault's books: the claim tokens believed to be outstanding and the
/// believed holding of each reserve asset.
#[derive(Clone, Copy, Debug, PartialEq, Eq, Structural)]
pub struct State {
    pub total_supply: u128,
    pub reserve_luna: Decimal18,
    pub reserve_anc: Decimal18,
    pub reserve_mir: Decimal18,
}

/// Holds the configuration and the state, each once it has been stored. A
/// stored configuration always has weights that add up to the fixed total.
#[derive(Debug, PartialEq, Eq)]
pub struct Ledger {
    config: Option<Config>,
    state: Option<State>,
}

impl Ledger {
    #[verifier::type_invariant]
    spec fn well_formed(self) -> bool {
        self.config matches Some(c) ==> c@.valid()
    }

    /// The stored configuration.
    pub closed spec fn stored_config(self) -> Option<Config> {
        self.config
    }

    /// The stored state.
    pub closed spec fn stored_state(self) -> Option<State> {
        self.state
    }

    /// The text and numbers of the stored configuration.
    pub open spec fn config_view(self) -> Option<ConfigView> {
        match self.stored_config() {
            Some(c) => Some(c@),
            None => None,
        }
    }

    /// Whether the ledger holds a configuration.
    pub fn has_config(&self) -> (r: bool)
        ensures
            r == self.stored_config() is Some,
    {
        self.config.is_some()
    }

    /// A ledger that holds nothing yet.
    pub fn new() -> (r: Ledger)
        ensures
            r.stored_config() is None,
            r.stored_state() is None,
    {
        Ledger { config: None, state: None }
    }
}

/// Stores the configuration, in place of any earlier one, if its weights add
/// up to the fixed total; refuses it and changes nothing otherwise.
pub fn store_config(ledger: &mut Ledger, config: Config) -> (r: Result<(), ContractError>)
    ensures
        config@.valid() ==> r is Ok && final(ledger).stored_config() == Some(config)
            && final(ledger).stored_state() == old(ledger).stored_state(),
        !config@.valid() ==> r == Err::<(), ContractError>(
            ContractError::InvalidInput(InputFault::WeightTotal),
        ) && *final(ledger) == *old(ledger),
{
    if !check_weights(config.alloc_luna, config.alloc_anc, config.alloc_mir) {
        return Err(ContractError::InvalidInput(InputFault::WeightTotal));
    }
    ledger.config = Some(config);
    Ok(())
}

/// The stored configuration, or the failure of a ledger that holds none.
pub fn read_config(ledger: &Ledger) -> (r: Result<Config, ContractError>)
    ensures
        match ledger.stored_config() {
            Some(c) => r == Ok::<Config, ContractError>(c) && c@.valid(),
            None => r == Err::<Config, ContractError>(ContractError::NotInitialized),
        },
{
    proof {
        use_type_invariant(ledger);
    }
    match &ledger.config {
        Some(c) => Ok(c.duplicate()),
        None => Err(ContractError::NotInitialized),
    }
}

/// Stores the state, in place of any earlier one.
pub fn store_state(ledger: &mut Ledger, state: State)
    ensures
        final(ledger).stored_state() == Some(state),
        final(ledger).stored_config() == old(ledger).stored_config(),
{
    proof {
        use_type_invariant(&*ledger);
    }
    ledger.state = Some(state);
}

/// The stored state, or the failure of a ledger that holds none.
pub fn read_state(ledger: &Ledger) -> (r: Result<State, ContractError>)
    ensures
        match ledger.stored_state() {
            Some(s) => r == Ok::<State, ContractError>(s),
            None => r == Err::<State, ContractError>(ContractError::NotInitialized),
        },
{
    match ledger.state {
        Some(s) => Ok(s),
        None => Err(ContractError::NotInitialized),
    }
}

} // verus!
