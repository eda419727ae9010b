//! What holds of the escalated price for every input.

use vstd::prelude::*;
use vstd::arithmetic::div_mod::{lemma_div_by_multiple, lemma_div_is_ordered};
use vstd::arithmetic::mul::{lemma_mul_inequality, lemma_mul_is_distributive_add};
use crate::escalator::{
    blended_price,
    escalated_gas_price,
    escalated_price,
    escalation_outcome,
    gas_price_escalation_defined,
    multiplied_price,
    multiplier_applies,
    price_escalation_defined,
    GasEscalatorConfig,
};
use crate::overrides::TransactionOverrides;
use crate::price::{GasPrice, GasPriceView};
use crate::u256::U256;

verus! {

/// The escalated price is never below the newly estimated price raised by the
/// multiplier, whatever the old price was.
pub proof fn lemma_escalated_price_at_least_raised_estimate(
    old_price: nat,
    new_price: nat,
    config: GasEscalatorConfig,
)
    ensures
        escalated_price(old_price, new_price, config) >= multiplied_price(new_price, config),
{
}

/// A higher price gives a raised price that is no lower.
pub proof fn lemma_multiplied_price_monotonic(low: nat, high: nat, config: GasEscalatorConfig)
    requires
        config.escalation_multiplier_denominator != 0,
        low <= high,
    ensures
        multiplied_price(low, config) <= multiplied_price(high, config),
        multiplier_applies(high, config) ==> multiplier_applies(low, config),
{
    let numerator = config.escalation_multiplier_numerator as int;
    let denominator = config.escalation_multiplier_denominator as int;
    lemma_mul_inequality(low as int, high as int, numerator);
    lemma_div_is_ordered(low * numerator, high * numerator, denominator);
}

/// With the old price fixed, a higher new price gives a blend that is no lower.
pub proof fn lemma_blended_price_monotonic(
    old_price: nat,
    low: nat,
    high: nat,
    config: GasEscalatorConfig,
)
    requires
        config.twap_history_weight + config.twap_current_weight != 0,
        low <= high,
    ensures
        blended_price(old_price, low, config) <= blended_price(old_price, high, config),
{
    let history_weight = config.twap_history_weight as int;
    let current_weight = config.twap_current_weight as int;
    lemma_mul_inequality(low as int, high as int, current_weight);
    lemma_div_is_ordered(
        old_price * history_weight + low * current_weight,
        old_price * history_weight + high * current_weight,
        history_weight + current_weight,
    );
}

/// With the old price fixed, the escalated price does not fall as the newly
/// estimated price rises. And where the escalated price can be computed for
/// the higher estimate, it can be computed for the lower one.
pub proof fn lemma_escalated_price_monotonic(
    old_price: nat,
    low: nat,
    high: nat,
    config: GasEscalatorConfig,
)
    requires
        config.wf(),
        low <= high,
    ensures
        escalated_price(old_price, low, config) <= escalated_price(old_price, high, config),
        price_escalation_defined(old_price, high, config) ==> price_escalation_defined(
            old_price,
            low,
            config,
        ),
{
    lemma_blended_price_monotonic(old_price, low, high, config);
    lemma_multiplied_price_monotonic(
        blended_price(old_price, low, config),
        blended_price(old_price, high, config),
        config,
    );
    lemma_multiplied_price_monotonic(low, high, config);
    lemma_mul_inequality(low as int, high as int, config.twap_current_weight as int);
}

/// Where the old and the new price are the same, the blend is that price, and
/// the escalated price is that price raised by the multiplier.
pub proof fn lemma_equal_prices(price: nat, config: GasEscalatorConfig)
    requires
        config.wf(),
    ensures
        blended_price(price, price, config) == price,
        escalated_price(price, price, config) == multiplied_price(price, config),
{
    let history_weight = config.twap_history_weight as int;
    let current_weight = config.twap_current_weight as int;
    lemma_mul_is_distributive_add(price as int, history_weight, current_weight);
    lemma_div_by_multiple(price as int, history_weight + current_weight);
}

/// Two prices of the same scheme escalate to a price of that scheme, and each
/// component of the result depends on its own old and new value only: with
/// the fee caps fixed, the escalated fee cap is the same whatever the priority
/// fees are, and the other way round.
pub proof fn lemma_components_escalate_independently(
    old_max_fee: nat,
    new_max_fee: nat,
    old_max_priority_fee: nat,
    new_max_priority_fee: nat,
    other_old: nat,
    other_new: nat,
    config: GasEscalatorConfig,
)
    ensures
        escalated_gas_price(
            GasPriceView::Eip1559 { max_fee: old_max_fee, max_priority_fee: old_max_priority_fee },
            GasPriceView::Eip1559 { max_fee: new_max_fee, max_priority_fee: new_max_priority_fee },
            config,
        ) == (GasPriceView::Eip1559 {
            max_fee: escalated_price(old_max_fee, new_max_fee, config),
            max_priority_fee: escalated_price(old_max_priority_fee, new_max_priority_fee, config),
        }),
        escalated_gas_price(
            GasPriceView::Eip1559 { max_fee: old_max_fee, max_priority_fee: other_old },
            GasPriceView::Eip1559 { max_fee: new_max_fee, max_priority_fee: other_new },
            config,
        )->max_fee == escalated_gas_price(
            GasPriceView::Eip1559 { max_fee: old_max_fee, max_priority_fee: old_max_priority_fee },
            GasPriceView::Eip1559 { max_fee: new_max_fee, max_priority_fee: new_max_priority_fee },
            config,
        )->max_fee,
        escalated_gas_price(
            GasPriceView::Eip1559 { max_fee: other_old, max_priority_fee: old_max_priority_fee },
            GasPriceView::Eip1559 { max_fee: other_new, max_priority_fee: new_max_priority_fee },
            config,
        )->max_priority_fee == escalated_gas_price(
            GasPriceView::Eip1559 { max_fee: old_max_fee, max_priority_fee: old_max_priority_fee },
            GasPriceView::Eip1559 { max_fee: new_max_fee, max_priority_fee: new_max_priority_fee },
            config,
        )->max_priority_fee,
{
}

/// Where either price is missing, no price results, whatever the other price
/// and the configuration are; and nothing has to be computed for that.
pub proof fn lemma_absent_price_gives_absent(price: GasPriceView, config: GasEscalatorConfig)
    ensures
        escalated_gas_price(GasPriceView::Absent, price, config) is Absent,
        escalated_gas_price(price, GasPriceView::Absent, config) is Absent,
        gas_price_escalation_defined(GasPriceView::Absent, price, config),
        gas_price_escalation_defined(price, GasPriceView::Absent, config),
{
}

/// Where the two prices are of different schemes, no price results, whatever
/// the prices and the configuration are; and nothing has to be computed for
/// that, so nothing can overflow.
pub proof fn lemma_scheme_mismatch_gives_absent(
    single: GasPriceView,
    dual: GasPriceView,
    config: GasEscalatorConfig,
)
    requires
        single is NonEip1559,
        dual is Eip1559,
    ensures
        escalated_gas_price(single, dual, config) is Absent,
        escalated_gas_price(dual, single, config) is Absent,
        gas_price_escalation_defined(single, dual, config),
        gas_price_escalation_defined(dual, single, config),
{
}

/// A price results exactly where both prices are set and of the same scheme,
/// and it is then of that scheme.
pub proof fn lemma_result_keeps_scheme(
    old: GasPriceView,
    estimated: GasPriceView,
    config: GasEscalatorConfig,
)
    ensures
        escalated_gas_price(old, estimated, config) is NonEip1559 <==> old is NonEip1559
            && estimated is NonEip1559,
        escalated_gas_price(old, estimated, config) is Eip1559 <==> old is Eip1559
            && estimated is Eip1559,
{
}

/// A price results exactly where the outcome of the attempt is an escalation.
pub proof fn lemma_outcome_matches_result(
    old: GasPriceView,
    estimated: GasPriceView,
    config: GasEscalatorConfig,
)
    ensures
        escalation_outcome(old, estimated) is Escalated <==> !(escalated_gas_price(
            old,
            estimated,
            config,
        ) is Absent),
{
}

/// The same inputs always give the same price: the view of the result is a
/// function of the inputs, and two prices with that view are one price.
pub proof fn lemma_result_is_unique(
    first: GasPrice,
    second: GasPrice,
    old: GasPriceView,
    estimated: GasPriceView,
    config: GasEscalatorConfig,
)
    requires
        first@ == escalated_gas_price(old, estimated, config),
        second@ == escalated_gas_price(old, estimated, config),
    ensures
        first == second,
{
    first.lemma_view_injective(second);
}

/// An override of one setting leaves the other settings as they would have
/// been without it: the multiplier depends on its two overrides only, and the
/// weights on theirs.
pub proof fn lemma_overrides_do_not_leak(a: TransactionOverrides, b: TransactionOverrides)
    ensures
        a.gas_escalator_multiplier_numerator == b.gas_escalator_multiplier_numerator
            ==> GasEscalatorConfig::spec_from(a).escalation_multiplier_numerator
            == GasEscalatorConfig::spec_from(b).escalation_multiplier_numerator,
        a.gas_escalator_multiplier_denominator == b.gas_escalator_multiplier_denominator
            ==> GasEscalatorConfig::spec_from(a).escalation_multiplier_denominator
            == GasEscalatorConfig::spec_from(b).escalation_multiplier_denominator,
        a.gas_escalator_history_weight == b.gas_escalator_history_weight
            ==> GasEscalatorConfig::spec_from(a).twap_history_weight
            == GasEscalatorConfig::spec_from(b).twap_history_weight,
        a.gas_escalator_current_weight == b.gas_escalator_current_weight
            ==> GasEscalatorConfig::spec_from(a).twap_current_weight
            == GasEscalatorConfig::spec_from(b).twap_current_weight,
{
}

/// Overrides of all four settings give exactly those four settings.
pub proof fn lemma_full_override(
    numerator: U256,
    denominator: U256,
    history_weight: U256,
    current_weight: U256,
)
    requires
        numerator@ <= u32::MAX,
        denominator@ <= u32::MAX,
        history_weight@ <= u32::MAX,
        current_weight@ <= u32::MAX,
    ensures
        GasEscalatorConfig::spec_from(
            TransactionOverrides {
                gas_escalator_multiplier_numerator: Some(numerator),
                gas_escalator_multiplier_denominator: Some(denominator),
                gas_escalator_history_weight: Some(history_weight),
                gas_escalator_current_weight: Some(current_weight),
            },
        ) == (GasEscalatorConfig {
            escalation_multiplier_numerator: numerator@ as u32,
            escalation_multiplier_denominator: denominator@ as u32,
            twap_history_weight: history_weight@ as u32,
            twap_current_weight: current_weight@ as u32,
        }),
{
}

} // verus!
