use gas_escalator::escalator::GasEscalatorConfig;
use gas_escalator::overrides::TransactionOverrides;
use gas_escalator::u256::U256;

#[test]
fn config_overrides_defaults() {
    let overrides = TransactionOverrides {
        gas_escalator_multiplier_numerator: Some(200u32.into()),
        gas_escalator_multiplier_denominator: Some(100u32.into()),
        gas_escalator_history_weight: Some(1u32.into()),
        gas_escalator_current_weight: Some(1u32.into()),
        ..Default::default()
    };

    let config = GasEscalatorConfig::from(&overrides);
    assert_eq!(config.escalation_multiplier_numerator, 200);
    assert_eq!(config.twap_history_weight, 1);
    assert_eq!(config.twap_current_weight, 1);
}

#[test]
fn full_override_gives_exactly_the_overrides() {
    let overrides = TransactionOverrides {
        gas_escalator_multiplier_numerator: Some(200u32.into()),
        gas_escalator_multiplier_denominator: Some(100u32.into()),
        gas_escalator_history_weight: Some(1u32.into()),
        gas_escalator_current_weight: Some(1u32.into()),
    };
    let expected = GasEscalatorConfig {
        escalation_multiplier_numerator: 200,
        escalation_multiplier_denominator: 100,
        twap_history_weight: 1,
        twap_current_weight: 1,
    };
    assert_eq!(GasEscalatorConfig::from(&overrides), expected);
    assert_eq!(GasEscalatorConfig::checked_from(&overrides), Some(expected));
}

#[test]
fn default_configuration() {
    let config = GasEscalatorConfig::default();
    assert_eq!(config.escalation_multiplier_numerator, 110);
    assert_eq!(config.escalation_multiplier_denominator, 100);
    assert_eq!(config.twap_history_weight, 3);
    assert_eq!(config.twap_current_weight, 1);
    assert!(config.is_valid());
}

#[test]
fn no_override_gives_the_defaults() {
    let overrides = TransactionOverrides::default();
    assert_eq!(overrides.gas_escalator_multiplier_numerator, None);
    assert_eq!(overrides.gas_escalator_multiplier_denominator, None);
    assert_eq!(overrides.gas_escalator_history_weight, None);
    assert_eq!(overrides.gas_escalator_current_weight, None);
    assert_eq!(GasEscalatorConfig::from(&overrides), GasEscalatorConfig::default());
}

#[test]
fn multiplier_override_leaves_the_weights() {
    let overrides = TransactionOverrides {
        gas_escalator_multiplier_numerator: Some(U256::from(3u32)),
        gas_escalator_multiplier_denominator: Some(U256::from(2u32)),
        ..Default::default()
    };
    let config = GasEscalatorConfig::from(&overrides);
    assert_eq!(config.escalation_multiplier_numerator, 3);
    assert_eq!(config.escalation_multiplier_denominator, 2);
    assert_eq!(config.twap_history_weight, 3);
    assert_eq!(config.twap_current_weight, 1);
}

#[test]
fn weight_override_leaves_the_multiplier() {
    let overrides = TransactionOverrides {
        gas_escalator_history_weight: Some(U256::from(9u32)),
        ..Default::default()
    };
    let config = GasEscalatorConfig::from(&overrides);
    assert_eq!(config.escalation_multiplier_numerator, 110);
    assert_eq!(config.escalation_multiplier_denominator, 100);
    assert_eq!(config.twap_history_weight, 9);
    assert_eq!(config.twap_current_weight, 1);

    let overrides = TransactionOverrides {
        gas_escalator_current_weight: Some(U256::from(u32::MAX)),
        ..Default::default()
    };
    let config = GasEscalatorConfig::from(&overrides);
    assert_eq!(config.twap_history_weight, 3);
    assert_eq!(config.twap_current_weight, u32::MAX);
}

#[test]
fn oversized_override_is_refused() {
    let too_large = U256::from(1u64 << 32);
    let cases: [TransactionOverrides; 4] = [
        TransactionOverrides {
            gas_escalator_multiplier_numerator: Some(too_large),
            ..Default::default()
        },
        TransactionOverrides {
            gas_escalator_multiplier_denominator: Some(too_large),
            ..Default::default()
        },
        TransactionOverrides {
            gas_escalator_history_weight: Some(too_large),
            ..Default::default()
        },
        TransactionOverrides {
            gas_escalator_current_weight: Some(U256 { w0: 1, w1: 0, w2: 0, w3: 1 }),
            ..Default::default()
        },
    ];
    for overrides in cases {
        assert_eq!(GasEscalatorConfig::checked_from(&overrides), None);
    }
}

#[test]
fn validity_of_a_configuration() {
    let valid = GasEscalatorConfig::default();
    assert!(valid.is_valid());
    assert!(GasEscalatorConfig { twap_history_weight: 0, ..valid }.is_valid());
    assert!(GasEscalatorConfig { twap_current_weight: 0, ..valid }.is_valid());
    assert!(!GasEscalatorConfig { twap_history_weight: 0, twap_current_weight: 0, ..valid }
        .is_valid());
    assert!(!GasEscalatorConfig { escalation_multiplier_denominator: 0, ..valid }.is_valid());
    assert!(GasEscalatorConfig { escalation_multiplier_numerator: 0, ..valid }.is_valid());
    assert!(GasEscalatorConfig {
        twap_history_weight: u32::MAX,
        twap_current_weight: u32::MAX,
        ..valid
    }
    .is_valid());
}

#[test]
fn zero_denominator_override_is_kept_as_given() {
    let overrides = TransactionOverrides {
        gas_escalator_multiplier_denominator: Some(U256::from(0u32)),
        ..Default::default()
    };
    let config = GasEscalatorConfig::from(&overrides);
    assert_eq!(config.escalation_multiplier_denominator, 0);
    assert!(!config.is_valid());
}
