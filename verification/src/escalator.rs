//! Escalation of the gas price of a transaction that is submitted again.
//!
//! The price of the earlier attempt is blended with the newly estimated price,
//! the blend is raised by the escalation multiplier, and the result is never
//! below the raised estimate itself. All arithmetic is on 256-bit unsigned
//! integers and exact: where a step would overflow or divide by zero, the
//! escalation is undefined, and the functions without `try_` in their name
//! exclude such inputs by their precondition.

use vstd::prelude::*;
use crate::overrides::{overridden, override_fits, TransactionOverrides};
use crate::price::{GasPrice, GasPriceView};
use crate::u256::{checked_add, checked_div, checked_mul, U256};

verus! {

/// Configuration for the gas price escalator.
#[derive(Clone, Copy, Debug, PartialEq, Eq, Structural)]
pub struct GasEscalatorConfig {
    pub escalation_multiplier_numerator: u32,
    pub escalation_multiplier_denominator: u32,
    pub twap_history_weight: u32,
    pub twap_current_weight: u32,
}

impl GasEscalatorConfig {
    /// The default settings: a multiplier of 110/100, and three parts of the
    /// old price to one part of the new one.
    pub open spec fn spec_default() -> GasEscalatorConfig {
        GasEscalatorConfig {
            escalation_multiplier_numerator: 110,
            escalation_multiplier_denominator: 100,
            twap_history_weight: 3,
            twap_current_weight: 1,
        }
    }

    /// The settings that overrides give: each one is the override where it is
    /// set, and the default where it is not.
    pub open spec fn spec_from(overrides: TransactionOverrides) -> GasEscalatorConfig {
        let default = Self::spec_default();
        GasEscalatorConfig {
            escalation_multiplier_numerator: overridden(
                overrides.gas_escalator_multiplier_numerator,
                default.escalation_multiplier_numerator,
            ),
            escalation_multiplier_denominator: overridden(
                overrides.gas_escalator_multiplier_denominator,
                default.escalation_multiplier_denominator,
            ),
            twap_history_weight: overridden(
                overrides.gas_escalator_history_weight,
                default.twap_history_weight,
            ),
            twap_current_weight: overridden(
                overrides.gas_escalator_current_weight,
                default.twap_current_weight,
            ),
        }
    }

    /// A configuration is well formed when neither the denominator of the
    /// multiplier nor the sum of the two weights is zero.
    pub open spec fn wf(&self) -> bool {
        &&& self.escalation_multiplier_denominator != 0
        &&& self.twap_history_weight + self.twap_current_weight != 0
    }

    /// Whether the configuration is well formed.
    pub fn is_valid(&self) -> (r: bool)
        ensures
            r == self.wf(),
    {
        self.escalation_multiplier_denominator != 0 && (self.twap_history_weight != 0
            || self.twap_current_weight != 0)
    }

    /// The settings that `overrides` give, where every override that is set
    /// fits in a `u32`, and `None` where one does not.
    pub fn checked_from(overrides: &TransactionOverrides) -> (r: Option<GasEscalatorConfig>)
        ensures
            r is Some <==> overrides.fits(),
            r matches Some(config) ==> config == Self::spec_from(*overrides),
    {
        let default = GasEscalatorConfig::default();
        Some(
            GasEscalatorConfig {
                escalation_multiplier_numerator: checked_setting(
                    overrides.gas_escalator_multiplier_numerator,
                    default.escalation_multiplier_numerator,
                )?,
                escalation_multiplier_denominator: checked_setting(
                    overrides.gas_escalator_multiplier_denominator,
                    default.escalation_multiplier_denominator,
                )?,
                twap_history_weight: checked_setting(
                    overrides.gas_escalator_history_weight,
                    default.twap_history_weight,
                )?,
                twap_current_weight: checked_setting(
                    overrides.gas_escalator_current_weight,
                    default.twap_current_weight,
                )?,
            },
        )
    }

    /// The settings that `overrides` give. Every override that is set must fit
    /// in a `u32`.
    pub fn from(overrides: &TransactionOverrides) -> (r: GasEscalatorConfig)
        requires
            overrides.fits(),
        ensures
            r == Self::spec_from(*overrides),
    {
        let default = GasEscalatorConfig::default();
        GasEscalatorConfig {
            escalation_multiplier_numerator: setting(
                overrides.gas_escalator_multiplier_numerator,
                default.escalation_multiplier_numerator,
            ),
            escalation_multiplier_denominator: setting(
                overrides.gas_escalator_multiplier_denominator,
                default.escalation_multiplier_denominator,
            ),
            twap_history_weight: setting(
                overrides.gas_escalator_history_weight,
                default.twap_history_weight,
            ),
            twap_current_weight: setting(
                overrides.gas_escalator_current_weight,
                default.twap_current_weight,
            ),
        }
    }
}

impl Default for GasEscalatorConfig {
    fn default() -> (r: Self)
        ensures
            r == Self::spec_default(),
    {
        Self {
            escalation_multiplier_numerator: 110,
            escalation_multiplier_denominator: 100,
            twap_history_weight: 3,
            twap_current_weight: 1,
        }
    }
}

/// One setting: the override where it is set, the default where it is not.
fn setting(value: Option<U256>, default: u32) -> (r: u32)
    requires
        override_fits(value),
    ensures
        r == overridden(value, default),
{
    match value {
        Some(v) => v.as_u32(),
        None => default,
    }
}

/// One setting, or `None` where the override does not fit in a `u32`.
fn checked_setting(value: Option<U256>, default: u32) -> (r: Option<u32>)
    ensures
        r is Some <==> override_fits(value),
        r matches Some(v) ==> v == overridden(value, default),
{
    match value {
        Some(v) => v.checked_as_u32(),
        None => Some(default),
    }
}

/// The old price times its weight plus the new price times its weight.
pub open spec fn weighted_sum(old_price: nat, new_price: nat, config: GasEscalatorConfig) -> nat {
    let history_weight = config.twap_history_weight as nat;
    let current_weight = config.twap_current_weight as nat;
    old_price * history_weight + new_price * current_weight
}

/// The weighted mean of the old and the new price, rounded down.
pub open spec fn blended_price(old_price: nat, new_price: nat, config: GasEscalatorConfig) -> nat {
    let history_weight = config.twap_history_weight as nat;
    let current_weight = config.twap_current_weight as nat;
    weighted_sum(old_price, new_price, config) / (history_weight + current_weight)
}

/// A price raised by the escalation multiplier, rounded down.
pub open spec fn multiplied_price(price: nat, config: GasEscalatorConfig) -> nat {
    let numerator = config.escalation_multiplier_numerator as nat;
    let denominator = config.escalation_multiplier_denominator as nat;
    price * numerator / denominator
}

/// The escalated price: the larger of the raised blend and the raised new price.
pub open spec fn escalated_price(old_price: nat, new_price: nat, config: GasEscalatorConfig) -> nat {
    let from_history = multiplied_price(blended_price(old_price, new_price, config), config);
    let from_oracle = multiplied_price(new_price, config);
    if from_history >= from_oracle {
        from_history
    } else {
        from_oracle
    }
}

/// Whether a price can be raised by the multiplier in 256 bits: the
/// denominator is not zero and the product with the numerator fits.
pub open spec fn multiplier_applies(price: nat, config: GasEscalatorConfig) -> bool {
    let numerator = config.escalation_multiplier_numerator as nat;
    &&& config.escalation_multiplier_denominator != 0
    &&& price * numerator <= U256::spec_max()
}

/// Whether the escalated price of two prices can be computed in 256 bits:
/// no divisor is zero, and every product and sum on the way fits.
pub open spec fn price_escalation_defined(
    old_price: nat,
    new_price: nat,
    config: GasEscalatorConfig,
) -> bool {
    &&& config.twap_history_weight + config.twap_current_weight != 0
    &&& weighted_sum(old_price, new_price, config) <= U256::spec_max()
    &&& multiplier_applies(blended_price(old_price, new_price, config), config)
    &&& multiplier_applies(new_price, config)
}

/// The escalated gas price. Two prices of the same scheme give a price of that
/// scheme, each component escalated from its own old and new value. A missing
/// price, or two prices of different schemes, give no price.
pub open spec fn escalated_gas_price(
    old: GasPriceView,
    estimated: GasPriceView,
    config: GasEscalatorConfig,
) -> GasPriceView {
    match (old, estimated) {
        (
            GasPriceView::NonEip1559 { gas_price: old_gas_price },
            GasPriceView::NonEip1559 { gas_price: new_gas_price },
        ) => GasPriceView::NonEip1559 {
            gas_price: escalated_price(old_gas_price, new_gas_price, config),
        },
        (
            GasPriceView::Eip1559 { max_fee: old_max_fee, max_priority_fee: old_max_priority_fee },
            GasPriceView::Eip1559 { max_fee: new_max_fee, max_priority_fee: new_max_priority_fee },
        ) => GasPriceView::Eip1559 {
            max_fee: escalated_price(old_max_fee, new_max_fee, config),
            max_priority_fee: escalated_price(old_max_priority_fee, new_max_priority_fee, config),
        },
        _ => GasPriceView::Absent,
    }
}

/// Whether the escalated gas price can be computed in 256 bits. It always can
/// where nothing is computed: where a price is missing or the schemes differ.
pub open spec fn gas_price_escalation_defined(
    old: GasPriceView,
    estimated: GasPriceView,
    config: GasEscalatorConfig,
) -> bool {
    match (old, estimated) {
        (
            GasPriceView::NonEip1559 { gas_price: old_gas_price },
            GasPriceView::NonEip1559 { gas_price: new_gas_price },
        ) => price_escalation_defined(old_gas_price, new_gas_price, config),
        (
            GasPriceView::Eip1559 { max_fee: old_max_fee, max_priority_fee: old_max_priority_fee },
            GasPriceView::Eip1559 { max_fee: new_max_fee, max_priority_fee: new_max_priority_fee },
        ) => {
            &&& price_escalation_defined(old_max_fee, new_max_fee, config)
            &&& price_escalation_defined(old_max_priority_fee, new_max_priority_fee, config)
        },
        _ => true,
    }
}

/// What an attempt at escalation comes to, for whoever reports on it. The two
/// missing prices are ordinary skips; a mismatch of schemes is an
/// inconsistency on the caller's side and worth an error report.
#[derive(Clone, Copy, Debug, PartialEq, Eq, Structural)]
pub enum EscalationOutcome {
    /// The earlier attempt carries no gas price: nothing is escalated.
    MissingOldPrice,
    /// There is no newly estimated gas price: nothing is escalated.
    MissingEstimate,
    /// Both prices are of the same scheme: the price is escalated.
    Escalated,
    /// The two prices are of different schemes: nothing is escalated.
    SchemeMismatch,
}

/// The outcome for two prices. A missing old price is named first, so it is
/// the outcome where both prices are missing.
pub open spec fn escalation_outcome(old: GasPriceView, estimated: GasPriceView) -> EscalationOutcome {
    match (old, estimated) {
        (GasPriceView::Absent, _) => EscalationOutcome::MissingOldPrice,
        (_, GasPriceView::Absent) => EscalationOutcome::MissingEstimate,
        (GasPriceView::NonEip1559 { .. }, GasPriceView::NonEip1559 { .. }) => {
            EscalationOutcome::Escalated
        },
        (GasPriceView::Eip1559 { .. }, GasPriceView::Eip1559 { .. }) => EscalationOutcome::Escalated,
        _ => EscalationOutcome::SchemeMismatch,
    }
}

/// Tells what an attempt at escalation on these two prices comes to.
pub fn classify_escalation(
    old_gas_price: &GasPrice,
    estimated_gas_price: &GasPrice,
) -> (r: EscalationOutcome)
    ensures
        r == escalation_outcome(old_gas_price@, estimated_gas_price@),
{
    match (old_gas_price, estimated_gas_price) {
        (GasPrice::Absent, _) => EscalationOutcome::MissingOldPrice,
        (_, GasPrice::Absent) => EscalationOutcome::MissingEstimate,
        (GasPrice::NonEip1559 { .. }, GasPrice::NonEip1559 { .. }) => EscalationOutcome::Escalated,
        (GasPrice::Eip1559 { .. }, GasPrice::Eip1559 { .. }) => EscalationOutcome::Escalated,
        _ => EscalationOutcome::SchemeMismatch,
    }
}

/// Raises a price by the escalation multiplier, or gives `None` where that
/// cannot be done in 256 bits.
pub fn try_apply_escalation_multiplier(
    gas_price: &U256,
    config: &GasEscalatorConfig,
) -> (r: Option<U256>)
    ensures
        r is Some <==> multiplier_applies(gas_price@, *config),
        r matches Some(price) ==> price@ == multiplied_price(gas_price@, *config),
{
    let numerator = U256::from(config.escalation_multiplier_numerator);
    let denominator = U256::from(config.escalation_multiplier_denominator);
    let product = checked_mul(gas_price, &numerator)?;
    checked_div(&product, &denominator)
}

/// Raises a price by the escalation multiplier.
pub fn apply_escalation_multiplier(gas_price: &U256, config: &GasEscalatorConfig) -> (r: U256)
    requires
        multiplier_applies(gas_price@, *config),
    ensures
        r@ == multiplied_price(gas_price@, *config),
{
    try_apply_escalation_multiplier(gas_price, config).unwrap()
}

/// Escalates one price from its old and its newly estimated value, or gives
/// `None` where that cannot be done in 256 bits.
pub fn try_get_escalated_price_from_old_and_new(
    old_gas_price: &U256,
    new_gas_price: &U256,
    config: &GasEscalatorConfig,
) -> (r: Option<U256>)
    ensures
        r is Some <==> price_escalation_defined(old_gas_price@, new_gas_price@, *config),
        r matches Some(price) ==> price@ == escalated_price(
            old_gas_price@,
            new_gas_price@,
            *config,
        ),
{
    // Blend the previous gas price with the most recently estimated one. This
    // smooths out short lived spikes of the estimate and keeps the escalated
    // price from growing without bound when prices are volatile.
    let history_weight = U256::from(config.twap_history_weight);
    let current_weight = U256::from(config.twap_current_weight);
    let weighted_old = checked_mul(old_gas_price, &history_weight)?;
    let weighted_new = checked_mul(new_gas_price, &current_weight)?;
    let weighted_sum = checked_add(&weighted_old, &weighted_new)?;
    let weight_sum = checked_add(&history_weight, &current_weight)?;
    let blended = checked_div(&weighted_sum, &weight_sum)?;

    // Raise both the blend and the estimate itself, so that a stale blend
    // never holds the result below the raised estimate.
    let escalated_from_history = try_apply_escalation_multiplier(&blended, config)?;
    let escalated_from_oracle = try_apply_escalation_multiplier(new_gas_price, config)?;
    Some(escalated_from_history.max(escalated_from_oracle))
}

/// Escalates one price from its old and its newly estimated value. The result
/// is never below the new value raised by the multiplier.
pub fn get_escalated_price_from_old_and_new(
    old_gas_price: &U256,
    new_gas_price: &U256,
    config: &GasEscalatorConfig,
) -> (r: U256)
    requires
        price_escalation_defined(old_gas_price@, new_gas_price@, *config),
    ensures
        r@ == escalated_price(old_gas_price@, new_gas_price@, *config),
        r@ >= multiplied_price(new_gas_price@, *config),
{
    try_get_escalated_price_from_old_and_new(old_gas_price, new_gas_price, config).unwrap()
}

/// Escalates the gas price of an earlier attempt towards a newly estimated
/// one, or gives `None` where that cannot be done in 256 bits.
pub fn try_escalate_gas_price_if_needed(
    old_gas_price: &GasPrice,
    estimated_gas_price: &GasPrice,
    config: &GasEscalatorConfig,
) -> (r: Option<GasPrice>)
    ensures
        r is Some <==> gas_price_escalation_defined(old_gas_price@, estimated_gas_price@, *config),
        r matches Some(price) ==> price@ == escalated_gas_price(
            old_gas_price@,
            estimated_gas_price@,
            *config,
        ),
{
    match (old_gas_price, estimated_gas_price) {
        (
            GasPrice::NonEip1559 { gas_price: old_gas_price },
            GasPrice::NonEip1559 { gas_price: estimated_gas_price },
        ) => {
            let escalated = try_get_escalated_price_from_old_and_new(
                old_gas_price,
                estimated_gas_price,
                config,
            )?;
            Some(GasPrice::NonEip1559 { gas_price: escalated })
        },
        (
            GasPrice::Eip1559 { max_fee: old_max_fee, max_priority_fee: old_max_priority_fee },
            GasPrice::Eip1559 { max_fee: new_max_fee, max_priority_fee: new_max_priority_fee },
        ) => {
            let escalated_max_fee_per_gas = try_get_escalated_price_from_old_and_new(
                old_max_fee,
                new_max_fee,
                config,
            )?;
            let escalated_max_priority_fee_per_gas = try_get_escalated_price_from_old_and_new(
                old_max_priority_fee,
                new_max_priority_fee,
                config,
            )?;
            Some(
                GasPrice::Eip1559 {
                    max_fee: escalated_max_fee_per_gas,
                    max_priority_fee: escalated_max_priority_fee_per_gas,
                },
            )
        },
        _ => Some(GasPrice::Absent),
    }
}

/// Escalates the gas price of an earlier attempt towards a newly estimated
/// one. Two prices of the same scheme give a price of that scheme; a missing
/// price, or two prices of different schemes, give no price.
pub fn escalate_gas_price_if_needed(
    old_gas_price: &GasPrice,
    estimated_gas_price: &GasPrice,
    config: &GasEscalatorConfig,
) -> (r: GasPrice)
    requires
        gas_price_escalation_defined(old_gas_price@, estimated_gas_price@, *config),
    ensures
        r@ == escalated_gas_price(old_gas_price@, estimated_gas_price@, *config),
{
    match (old_gas_price, estimated_gas_price) {
        (GasPrice::Absent, _) => {
            // Without an old gas price there is nothing to escalate.
            GasPrice::Absent
        },
        (_, GasPrice::Absent) => {
            // Without an estimate there is nothing to escalate to.
            GasPrice::Absent
        },
        (
            GasPrice::NonEip1559 { gas_price: old_gas_price },
            GasPrice::NonEip1559 { gas_price: estimated_gas_price },
        ) => {
            let escalated = get_escalated_price_from_old_and_new(
                old_gas_price,
                estimated_gas_price,
                config,
            );
            GasPrice::NonEip1559 { gas_price: escalated }
        },
        (
            GasPrice::Eip1559 { max_fee: old_max_fee, max_priority_fee: old_max_priority_fee },
            GasPrice::Eip1559 { max_fee: new_max_fee, max_priority_fee: new_max_priority_fee },
        ) => {
            let escalated_max_fee_per_gas = get_escalated_price_from_old_and_new(
                old_max_fee,
                new_max_fee,
                config,
            );
            let escalated_max_priority_fee_per_gas = get_escalated_price_from_old_and_new(
                old_max_priority_fee,
                new_max_priority_fee,
                config,
            );
            GasPrice::Eip1559 {
                max_fee: escalated_max_fee_per_gas,
                max_priority_fee: escalated_max_priority_fee_per_gas,
            }
        },
        _ => {
            // The scheme of a transaction never changes: two prices of
            // different schemes are an inconsistency, and nothing is escalated.
            GasPrice::Absent
        },
    }
}

} // verus!
