use patrie_network::tiers::{
    ServiceTier, ADMIN_FEE_401K, ADMIN_FEE_CRIME, ADMIN_FEE_HEALTH, BASE_PLATFORM_FEE,
    BRIDGE_EXIT_FEE_USD,
};

#[test]
fn the_price_list_is_in_cents() {
    assert_eq!(BASE_PLATFORM_FEE, 250_000);
    assert_eq!(ADMIN_FEE_HEALTH, 5_000);
    assert_eq!(ADMIN_FEE_401K, 5_000);
    assert_eq!(ADMIN_FEE_CRIME, 5_000);
    assert_eq!(BRIDGE_EXIT_FEE_USD, 1_000);
}

#[test]
fn tiers_have_names() {
    assert_eq!(ServiceTier::Starter.label(), "Starter (OS)");
    assert_eq!(ServiceTier::Professional.label(), "Professional (Employer)");
    assert_eq!(ServiceTier::Enterprise.label(), "Enterprise (Compliance)");
}

#[test]
fn starter_includes_no_addon() {
    let config = ServiceTier::Starter.get_config();
    assert_eq!(config.tier_name, "Starter (OS)");
    assert_eq!(config.base_price, 250_000);
    assert!(!config.includes_health);
    assert!(!config.includes_401k);
    assert!(!config.includes_crime_ins);
    assert_eq!(config.description, "Blockchain Ledger + Banking Rails");
}

#[test]
fn professional_includes_health() {
    let config = ServiceTier::Professional.get_config();
    assert_eq!(config.tier_name, "Professional (Employer)");
    assert_eq!(config.base_price, 250_000);
    assert!(config.includes_health);
    assert!(!config.includes_401k);
    assert!(!config.includes_crime_ins);
    assert_eq!(config.description, "Includes Managed Health Insurance");
}

#[test]
fn enterprise_includes_everything() {
    let config = ServiceTier::Enterprise.get_config();
    assert_eq!(config.tier_name, "Enterprise (Compliance)");
    assert_eq!(config.base_price, 250_000);
    assert!(config.includes_health);
    assert!(config.includes_401k);
    assert!(config.includes_crime_ins);
    assert_eq!(config.description, "Full Compliance Stack: Health, 401k, Fraud Protection");
}

#[test]
fn profit_is_base_fee_and_admin_fees() {
    assert_eq!(ServiceTier::Starter.estimated_profit(), 250_000);
    assert_eq!(ServiceTier::Professional.estimated_profit(), 255_000);
    assert_eq!(ServiceTier::Enterprise.estimated_profit(), 265_000);
}
