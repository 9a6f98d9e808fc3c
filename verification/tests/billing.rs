use patrie_network::billing::{
    bank_description, compute_invoice, process_monthly_invoice, Addon, AddonState, BillingError,
    Charge, LineItem, PriceTable, TenantId, TenantSubscription,
};
use patrie_network::tiers::ServiceTier;

fn tenant() -> TenantId {
    TenantId::parse("550e8400-e29b-41d4-a716-446655440000").unwrap()
}

fn off() -> AddonState {
    AddonState { active: false, wholesale_cost: None }
}

fn on(cost: u64) -> AddonState {
    AddonState { active: true, wholesale_cost: Some(cost) }
}

fn subscription(health: AddonState, retirement: AddonState, crime: AddonState) -> TenantSubscription {
    TenantSubscription {
        tenant: tenant(),
        tier: ServiceTier::Enterprise,
        base_fee: Some(250_000),
        health,
        retirement,
        crime,
    }
}

#[test]
fn tenant_ids_are_uuids() {
    let id = TenantId::parse("a1a2a3a4-b1b2-c1c2-d1d2-d3d4d5d6d7d8").unwrap();
    assert_eq!(id.value, 0xa1a2a3a4b1b2c1c2d1d2d3d4d5d6d7d8);
    let simple = TenantId::parse("a1a2a3a4b1b2c1c2d1d2d3d4d5d6d7d8").unwrap();
    assert_eq!(simple, id);
    let urn = TenantId::parse("urn:uuid:A1A2A3A4-B1B2-C1C2-D1D2-D3D4D5D6D7D8").unwrap();
    assert_eq!(urn, id);
    let braced = TenantId::parse("{a1a2a3a4-b1b2-c1c2-d1d2-d3d4d5d6d7d8}").unwrap();
    assert_eq!(braced, id);
    assert_eq!(TenantId::parse("00000000-0000-0000-0000-000000000000").unwrap().value, 0);
}

#[test]
fn a_text_that_is_no_uuid_is_no_tenant() {
    for text in ["", "tenant-1", "a1a2a3a4-b1b2-c1c2-d1d2-d3d4d5d6d7d", "g1a2a3a4-b1b2-c1c2-d1d2-d3d4d5d6d7d8",
        "a1a2a3a4b1b2-c1c2-d1d2-d3d4d5d6d7d8-"]
    {
        assert_eq!(TenantId::parse(text), Err(BillingError::InvalidTenantId), "{:?}", text);
    }
    assert_eq!(TenantId::from_parsed(None), Err(BillingError::InvalidTenantId));
    assert_eq!(TenantId::from_parsed(Some(7)), Ok(TenantId { value: 7 }));
}

#[test]
fn health_subscription_is_billed_2950() {
    let sub = subscription(on(40_000), off(), off());
    let prices = PriceTable::standard();
    let invoice = compute_invoice(&sub, &prices).unwrap();
    assert_eq!(invoice.total, 295_000);
    assert_eq!(
        invoice.lines,
        vec![
            LineItem { charge: Charge::BaseFee, amount: 250_000 },
            LineItem { charge: Charge::Wholesale(Addon::Health), amount: 40_000 },
            LineItem { charge: Charge::AdminFee(Addon::Health), amount: 5_000 },
        ]
    );
    assert!(invoice.anomalies.is_empty());
    assert_eq!(invoice.tenant, tenant());
    assert_eq!(invoice.price_version, 1);
}

#[test]
fn every_active_addon_adds_its_cost_and_its_fee() {
    let sub = subscription(on(40_000), on(8_000), on(3_000));
    let invoice = compute_invoice(&sub, &PriceTable::standard()).unwrap();
    assert_eq!(invoice.total, 250_000 + 45_000 + 13_000 + 8_000);
    assert_eq!(invoice.lines.len(), 7);
    assert_eq!(invoice.lines[3], LineItem { charge: Charge::Wholesale(Addon::Retirement), amount: 8_000 });
    assert_eq!(invoice.lines[4], LineItem { charge: Charge::AdminFee(Addon::Retirement), amount: 5_000 });
    assert_eq!(invoice.lines[5], LineItem { charge: Charge::Wholesale(Addon::Crime), amount: 3_000 });
    assert_eq!(invoice.lines[6], LineItem { charge: Charge::AdminFee(Addon::Crime), amount: 5_000 });
    let sum: u64 = invoice.lines.iter().map(|line| line.amount).sum();
    assert_eq!(sum, invoice.total);
}

#[test]
fn an_inactive_addon_is_not_billed_even_with_a_cost() {
    let sub = subscription(
        AddonState { active: false, wholesale_cost: Some(40_000) },
        off(),
        off(),
    );
    let invoice = compute_invoice(&sub, &PriceTable::standard()).unwrap();
    assert_eq!(invoice.total, 250_000);
    assert_eq!(invoice.lines, vec![LineItem { charge: Charge::BaseFee, amount: 250_000 }]);
    assert!(invoice.anomalies.is_empty());
}

#[test]
fn a_missing_wholesale_cost_is_billed_at_zero_and_flagged() {
    let missing = AddonState { active: true, wholesale_cost: None };
    let sub = subscription(missing, on(8_000), missing);
    let invoice = compute_invoice(&sub, &PriceTable::standard()).unwrap();
    assert_eq!(invoice.total, 250_000 + 5_000 + 13_000 + 5_000);
    assert_eq!(invoice.lines[1], LineItem { charge: Charge::Wholesale(Addon::Health), amount: 0 });
    assert_eq!(invoice.lines[2], LineItem { charge: Charge::AdminFee(Addon::Health), amount: 5_000 });
    assert_eq!(invoice.anomalies, vec![Addon::Health, Addon::Crime]);
}

#[test]
fn a_missing_base_fee_is_the_listed_one() {
    let mut sub = subscription(off(), off(), off());
    sub.base_fee = None;
    let prices = PriceTable { version: 7, base_fee: 123_400, ..PriceTable::standard() };
    let invoice = compute_invoice(&sub, &prices).unwrap();
    assert_eq!(invoice.total, 123_400);
    assert_eq!(invoice.price_version, 7);
    sub.base_fee = Some(99);
    assert_eq!(compute_invoice(&sub, &prices).unwrap().total, 99);
}

#[test]
fn a_total_beyond_64_bits_is_refused() {
    let mut sub = subscription(on(1), off(), off());
    sub.base_fee = Some(u64::MAX - 5_000);
    assert!(matches!(
        compute_invoice(&sub, &PriceTable::standard()),
        Err(BillingError::TotalOverflow)
    ));
    sub.base_fee = Some(u64::MAX - 5_001);
    assert_eq!(compute_invoice(&sub, &PriceTable::standard()).unwrap().total, u64::MAX);
    assert!(matches!(
        process_monthly_invoice(&subscription(on(u64::MAX), on(u64::MAX), on(u64::MAX)), &PriceTable::standard()),
        Err(BillingError::TotalOverflow)
    ));
}

#[test]
fn the_same_subscription_gives_the_same_invoice() {
    let sub = subscription(on(40_000), AddonState { active: true, wholesale_cost: None }, on(3_000));
    let prices = PriceTable::standard();
    let first = compute_invoice(&sub, &prices).unwrap();
    let second = compute_invoice(&sub.clone(), &prices.clone()).unwrap();
    assert_eq!(first.total, second.total);
    assert_eq!(first.lines, second.lines);
    assert_eq!(first.anomalies, second.anomalies);
    assert_eq!(first.receipt(), second.receipt());
    let copy = first.clone();
    assert_eq!(copy.lines, first.lines);
    assert_eq!(copy.total, first.total);
    assert_eq!(copy.anomalies, first.anomalies);
}

#[test]
fn the_receipt_lists_fees_apart_from_costs() {
    let sub = subscription(on(40_000), on(8_000), on(3_005));
    let invoice = compute_invoice(&sub, &PriceTable::standard()).unwrap();
    assert_eq!(
        invoice.receipt(),
        "Base Platform Access: $2500.00\
         \n + Health Premium (Pass-through): $400.00\
         \n + Health Integration Fee: $50.00\
         \n + 401k Contribution: $80.00\
         \n + 401k Data Connection Fee: $50.00\
         \n + Crime Ins Premium: $30.05\
         \n + Crime Ins Admin Fee: $50.00"
    );
}

#[test]
fn the_monthly_charge_is_the_invoice_in_cents() {
    let sub = subscription(on(40_000), on(8_000), on(3_000));
    let charge = process_monthly_invoice(&sub, &PriceTable::standard()).unwrap();
    assert_eq!(charge.amount_cents, 316_000);
    assert_eq!(charge.invoice.total, 316_000);
    assert_eq!(charge.bank_description, "Monthly SaaS Bundle");
    assert_eq!(charge.receipt, charge.invoice.receipt());
    assert!(charge.receipt.starts_with("Base Platform Access: $2500.00\n + Health"));
    assert_eq!(bank_description(), "Monthly SaaS Bundle");
}

#[test]
fn a_tier_sets_up_its_addons() {
    let starter = TenantSubscription::for_tier(tenant(), ServiceTier::Starter);
    assert_eq!(starter.base_fee, Some(250_000));
    assert!(!starter.health.active && !starter.retirement.active && !starter.crime.active);
    let professional = TenantSubscription::for_tier(tenant(), ServiceTier::Professional);
    assert!(professional.health.active && !professional.retirement.active && !professional.crime.active);
    let enterprise = TenantSubscription::for_tier(tenant(), ServiceTier::Enterprise);
    assert!(enterprise.health.active && enterprise.retirement.active && enterprise.crime.active);
    assert_eq!(enterprise.health.wholesale_cost, None);
    assert_eq!(enterprise.tier, ServiceTier::Enterprise);
    let costed = enterprise.with_wholesale_costs(40_000, 8_000);
    assert_eq!(costed.health, AddonState { active: true, wholesale_cost: Some(40_000) });
    assert_eq!(costed.retirement, AddonState { active: true, wholesale_cost: Some(8_000) });
    assert_eq!(costed.crime, enterprise.crime);
    let invoice = compute_invoice(&costed, &PriceTable::standard()).unwrap();
    assert_eq!(invoice.total, 250_000 + 45_000 + 13_000 + 5_000);
    assert_eq!(invoice.anomalies, vec![Addon::Crime]);
}
