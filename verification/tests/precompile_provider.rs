use arc_node::pq::PQ_ADDRESS;
use arc_node::provider::{
    ArcHardfork, ArcHardforkFlags, ArcPrecompile, ArcPrecompileProvider, ArcSystemPrecompiles,
};

fn system_address(last: u8) -> [u8; 20] {
    let mut a = [0u8; 20];
    a[0] = 0x18;
    a[19] = last;
    a
}

/// Addresses chosen for these tests, next to the PQ precompile.
fn system() -> ArcSystemPrecompiles {
    ArcSystemPrecompiles {
        native_coin_authority: system_address(0),
        native_coin_control: system_address(1),
        system_accounting: system_address(2),
    }
}
use revm::primitives::hardfork::SpecId;

#[test]
fn test_p256_precompile_available_with_osaka() {
    let precompiles = ArcPrecompileProvider::create_precompiles_map(
        SpecId::OSAKA as u8,
        ArcHardforkFlags::default(),
        system(),
    );

    // Verify P256 precompile exists at address 0x100 with Osaka
    assert!(
        precompiles
            .get(&ArcPrecompileProvider::P256_PRECOMPILE_ADDRESS)
            .is_some(),
        "P256 precompile should be available with Osaka hardfork"
    );
}

#[test]
fn test_pq_precompile_available_with_zero6() {
    let precompiles = ArcPrecompileProvider::create_precompiles_map(
        SpecId::PRAGUE as u8,
        ArcHardforkFlags::with(&[ArcHardfork::Zero6]),
        system(),
    );

    assert!(
        precompiles.get(&PQ_ADDRESS).is_some(),
        "PQ precompile should be available when Zero6 is active"
    );
}

#[test]
fn test_pq_precompile_not_available_without_zero6() {
    let precompiles = ArcPrecompileProvider::create_precompiles_map(
        SpecId::PRAGUE as u8,
        ArcHardforkFlags::default(),
        system(),
    );

    assert!(
        precompiles.get(&PQ_ADDRESS).is_none(),
        "PQ precompile should NOT be available without Zero6"
    );
}

#[test]
fn test_p256_precompile_not_available_with_prague() {
    let precompiles = ArcPrecompileProvider::create_precompiles_map(
        SpecId::PRAGUE as u8,
        ArcHardforkFlags::default(),
        system(),
    );

    // P256 precompile should NOT be available with Prague
    assert!(
        precompiles
            .get(&ArcPrecompileProvider::P256_PRECOMPILE_ADDRESS)
            .is_none(),
        "P256 precompile should NOT be available with Prague hardfork"
    );
}

#[test]
fn standard_precompiles_answer_before_arc_ones() {
    let mut ecrecover = [0u8; 20];
    ecrecover[19] = 1;
    let precompiles = ArcPrecompileProvider::create_precompiles_map(
        SpecId::PRAGUE as u8,
        ArcHardforkFlags::with(&[ArcHardfork::Zero5, ArcHardfork::Zero6]),
        system(),
    );
    assert_eq!(precompiles.get(&ecrecover), Some(ArcPrecompile::Standard));
    assert_eq!(precompiles.get(&PQ_ADDRESS), Some(ArcPrecompile::Pq));
    assert_eq!(precompiles.get(&[0x42u8; 20]), None);
}

#[test]
fn unknown_spec_number_has_no_standard_precompiles() {
    let mut ecrecover = [0u8; 20];
    ecrecover[19] = 1;
    let precompiles =
        ArcPrecompileProvider::create_precompiles_map(250, ArcHardforkFlags::default(), system());
    assert_eq!(precompiles.get(&ecrecover), None);
}

#[test]
fn hardfork_flags_hold_exactly_the_listed_forks() {
    let flags = ArcHardforkFlags::with(&[ArcHardfork::Zero5]);
    assert!(flags.is_active(ArcHardfork::Zero5));
    assert!(!flags.is_active(ArcHardfork::Zero6));
    let flags = ArcHardforkFlags::with(&[]);
    assert!(!flags.is_active(ArcHardfork::Zero5));
    let flags = ArcHardforkFlags::default();
    assert!(!flags.is_active(ArcHardfork::Zero6));
    let flags = ArcHardforkFlags::with(&[ArcHardfork::Zero6, ArcHardfork::Zero6]);
    assert!(flags.is_active(ArcHardfork::Zero6));
    assert!(!flags.is_active(ArcHardfork::Zero5));
}

#[test]
fn p256_address_is_0x100() {
    let expected: alloy_primitives::Address =
        "0x0000000000000000000000000000000000000100".parse().unwrap();
    assert_eq!(
        alloy_primitives::Address::from(ArcPrecompileProvider::P256_PRECOMPILE_ADDRESS),
        expected
    );
}

#[test]
fn system_precompiles_answer_under_every_hardfork_set() {
    for flags in [
        ArcHardforkFlags::default(),
        ArcHardforkFlags::with(&[ArcHardfork::Zero5]),
        ArcHardforkFlags::with(&[ArcHardfork::Zero6]),
    ] {
        let precompiles =
            ArcPrecompileProvider::create_precompiles_map(SpecId::PRAGUE as u8, flags, system());
        assert_eq!(precompiles.get(&system_address(0)), Some(ArcPrecompile::NativeCoinAuthority));
        assert_eq!(precompiles.get(&system_address(1)), Some(ArcPrecompile::NativeCoinControl));
        assert_eq!(precompiles.get(&system_address(2)), Some(ArcPrecompile::SystemAccounting));
        assert_eq!(precompiles.get(&system_address(3)), None);
        assert_eq!(
            precompiles.hardfork_flags().is_active(ArcHardfork::Zero6),
            flags.is_active(ArcHardfork::Zero6)
        );
    }
}
