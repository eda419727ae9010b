//! Per-destination overrides of the escalation settings.

use vstd::prelude::*;
use crate::u256::U256;

verus! {

/// The settings of the escalator that a destination may override. A field that
/// is `None` leaves the matching setting at its default.
#[derive(Clone, Copy, Debug, PartialEq, Eq, Structural)]
pub struct TransactionOverrides {
    pub gas_escalator_multiplier_numerator: Option<U256>,
    pub gas_escalator_multiplier_denominator: Option<U256>,
    pub gas_escalator_history_weight: Option<U256>,
    pub gas_escalator_current_weight: Option<U256>,
}

/// Whether an override, where one is set, fits in a `u32`.
pub open spec fn override_fits(value: Option<U256>) -> bool {
    value matches Some(v) ==> v@ <= u32::MAX
}

/// The setting that results from an override and a default.
pub open spec fn overridden(value: Option<U256>, default: u32) -> u32 {
    match value {
        Some(v) => v@ as u32,
        None => default,
    }
}

impl TransactionOverrides {
    /// Whether every override that is set fits in a `u32`.
    pub open spec fn fits(&self) -> bool {
        &&& override_fits(self.gas_escalator_multiplier_numerator)
        &&& override_fits(self.gas_escalator_multiplier_denominator)
        &&& override_fits(self.gas_escalator_history_weight)
        &&& override_fits(self.gas_escalator_current_weight)
    }
}

impl Default for TransactionOverrides {
    /// No setting is overridden.
    fn default() -> (r: Self)
        ensures
            r.gas_escalator_multiplier_numerator is None,
            r.gas_escalator_multiplier_denominator is None,
            r.gas_escalator_history_weight is None,
            r.gas_escalator_current_weight is None,
    {
        TransactionOverrides {
            gas_escalator_multiplier_numerator: None,
            gas_escalator_multiplier_denominator: None,
            gas_escalator_history_weight: None,
            gas_escalator_current_weight: None,
        }
    }
}

} // verus!
