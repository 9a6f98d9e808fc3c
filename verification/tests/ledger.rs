use patrie_network::amount::{Amount, Rate};
use patrie_network::ident::{AccountId, AssetId, DomainId};
use patrie_network::instruction::{
    append_issuance, build_split_payment, AssetKind, AtomicBatch, Attribute, Instruction,
};
use patrie_network::ledger::{BatchReceipt, Ledger};
use patrie_network::settlement::SettlementError;

fn account(text: &str) -> AccountId {
    AccountId::parse(text).unwrap()
}

fn asset(text: &str) -> AssetId {
    AssetId::parse(text).unwrap()
}

fn usd(units: u64) -> Amount {
    Amount::new(units, asset("usd#bank"))
}

fn batch(instructions: Vec<Instruction>) -> AtomicBatch {
    AtomicBatch::from_instructions(instructions).unwrap()
}

/// A ledger with three accounts, a currency and a policy asset; the user
/// holds `funds`.
fn market(funds: u64) -> Ledger {
    let mut ledger = Ledger::new();
    let mut setup = vec![
        Instruction::RegisterDomain { domain: DomainId::parse("bank").unwrap() },
        Instruction::RegisterAccount { account: account("user@bank") },
        Instruction::RegisterAccount { account: account("insurer@bank") },
        Instruction::RegisterAccount { account: account("platform@bank") },
        Instruction::RegisterAsset { asset: asset("usd#bank"), kind: AssetKind::Numeric },
        Instruction::RegisterAsset { asset: asset("policy#bank"), kind: AssetKind::Store },
    ];
    if funds > 0 {
        setup.push(Instruction::Mint { to: account("user@bank"), amount: usd(funds) });
    }
    ledger.submit(&batch(setup)).unwrap();
    ledger
}

fn purchase(premium: u64) -> AtomicBatch {
    let payments = build_split_payment(
        &account("user@bank"),
        &account("insurer@bank"),
        &account("platform@bank"),
        &usd(premium),
        Rate::from_percent(15),
    )
    .unwrap();
    append_issuance(
        payments,
        &asset("policy#bank"),
        &account("user@bank"),
        vec![Attribute::new("coverage", "full")],
    )
}

fn balances(ledger: &Ledger) -> (u64, u64, u64) {
    (
        ledger.balance_of(&account("user@bank"), &asset("usd#bank")),
        ledger.balance_of(&account("insurer@bank"), &asset("usd#bank")),
        ledger.balance_of(&account("platform@bank"), &asset("usd#bank")),
    )
}

#[test]
fn a_new_ledger_knows_nothing() {
    let ledger = Ledger::new();
    assert!(!ledger.knows_account(&account("user@bank")));
    assert_eq!(ledger.asset_kind(&asset("usd#bank")), None);
    assert_eq!(ledger.balance_of(&account("user@bank"), &asset("usd#bank")), 0);
    assert!(!ledger.holds(&account("user@bank"), &asset("policy#bank")));
    assert_eq!(ledger.committed(), 0);
}

#[test]
fn a_batch_commits_as_a_whole() {
    let ledger = market(100_000);
    assert_eq!(ledger.committed(), 1);
    assert!(ledger.knows_domain(&DomainId::parse("bank").unwrap()));
    assert!(!ledger.knows_domain(&DomainId::parse("user").unwrap()));
    assert!(ledger.knows_account(&account("user@bank")));
    assert!(!ledger.knows_account(&account("nobody@bank")));
    assert_eq!(ledger.asset_kind(&asset("usd#bank")), Some(AssetKind::Numeric));
    assert_eq!(ledger.asset_kind(&asset("policy#bank")), Some(AssetKind::Store));
    assert_eq!(balances(&ledger), (100_000, 0, 0));
}

#[test]
fn an_insurance_purchase_pays_both_and_issues_the_policy() {
    let mut ledger = market(100_000);
    let receipt = ledger.submit(&purchase(100_000)).unwrap();
    assert_eq!(receipt, BatchReceipt { sequence: 2, instruction_count: 3 });
    assert_eq!(balances(&ledger), (0, 85_000, 15_000));
    assert!(ledger.holds(&account("user@bank"), &asset("policy#bank")));
    assert_eq!(
        ledger.attribute(&account("user@bank"), &asset("policy#bank"), "coverage"),
        Some("full".to_string())
    );
    assert_eq!(ledger.attribute(&account("user@bank"), &asset("policy#bank"), "expiry"), None);
    assert_eq!(ledger.committed(), 2);
}

#[test]
fn a_failing_insurer_leg_issues_no_policy_and_pays_no_commission() {
    let mut ledger = market(84_999);
    assert_eq!(ledger.submit(&purchase(100_000)), Err(SettlementError::InsufficientFunds));
    assert_eq!(balances(&ledger), (84_999, 0, 0));
    assert!(!ledger.holds(&account("user@bank"), &asset("policy#bank")));
    assert_eq!(ledger.committed(), 1);
}

#[test]
fn a_failure_on_the_second_of_three_undoes_the_first() {
    let mut ledger = market(85_000);
    assert_eq!(ledger.submit(&purchase(100_000)), Err(SettlementError::InsufficientFunds));
    assert_eq!(balances(&ledger), (85_000, 0, 0));
    assert!(!ledger.holds(&account("user@bank"), &asset("policy#bank")));
    assert_eq!(ledger.committed(), 1);
}

#[test]
fn a_failure_on_the_last_instruction_undoes_the_payments() {
    let mut ledger = market(100_000);
    let payments = build_split_payment(
        &account("user@bank"),
        &account("insurer@bank"),
        &account("platform@bank"),
        &usd(100_000),
        Rate::from_percent(15),
    )
    .unwrap();
    let unknown = append_issuance(payments, &asset("policy#nowhere"), &account("user@bank"), vec![]);
    assert_eq!(ledger.submit(&unknown), Err(SettlementError::UnknownAsset));
    assert_eq!(balances(&ledger), (100_000, 0, 0));
    // An instruction may depend on one before it in the same batch.
    let chained = batch(vec![
        Instruction::Transfer { from: account("user@bank"), to: account("insurer@bank"), amount: usd(60_000) },
        Instruction::Transfer { from: account("insurer@bank"), to: account("platform@bank"), amount: usd(50_000) },
    ]);
    assert_eq!(ledger.submit(&chained).unwrap().instruction_count, 2);
    assert_eq!(balances(&ledger), (40_000, 10_000, 50_000));
}

#[test]
fn every_refusal_has_its_error() {
    let mut ledger = market(1_000);
    let user = account("user@bank");
    let cases: Vec<(Instruction, SettlementError)> = vec![
        (Instruction::RegisterDomain { domain: DomainId::parse("bank").unwrap() }, SettlementError::RejectedByLedger),
        (Instruction::RegisterAccount { account: user.clone() }, SettlementError::RejectedByLedger),
        (Instruction::RegisterAsset { asset: asset("usd#bank"), kind: AssetKind::Store }, SettlementError::RejectedByLedger),
        (Instruction::Mint { to: user.clone(), amount: Amount::new(1, asset("eur#bank")) }, SettlementError::UnknownAsset),
        (Instruction::Mint { to: account("nobody@bank"), amount: usd(1) }, SettlementError::UnknownAccount),
        (Instruction::Mint { to: user.clone(), amount: Amount::new(1, asset("policy#bank")) }, SettlementError::RejectedByLedger),
        (Instruction::Mint { to: user.clone(), amount: usd(u64::MAX) }, SettlementError::RejectedByLedger),
        (Instruction::Transfer { from: user.clone(), to: account("insurer@bank"), amount: Amount::new(1, asset("eur#bank")) }, SettlementError::UnknownAsset),
        (Instruction::Transfer { from: account("nobody@bank"), to: user.clone(), amount: usd(1) }, SettlementError::UnknownAccount),
        (Instruction::Transfer { from: user.clone(), to: account("nobody@bank"), amount: usd(1) }, SettlementError::UnknownAccount),
        (Instruction::Transfer { from: user.clone(), to: account("insurer@bank"), amount: Amount::new(0, asset("policy#bank")) }, SettlementError::RejectedByLedger),
        (Instruction::Transfer { from: user.clone(), to: account("insurer@bank"), amount: usd(1_001) }, SettlementError::InsufficientFunds),
        (Instruction::Transfer { from: user.clone(), to: user.clone(), amount: usd(1_001) }, SettlementError::InsufficientFunds),
        (Instruction::Issue { asset: asset("deed#bank"), to: user.clone(), attributes: vec![] }, SettlementError::UnknownAsset),
        (Instruction::Issue { asset: asset("policy#bank"), to: account("nobody@bank"), attributes: vec![] }, SettlementError::UnknownAccount),
        (Instruction::Issue { asset: asset("usd#bank"), to: user.clone(), attributes: vec![] }, SettlementError::RejectedByLedger),
        (Instruction::SetAttribute { asset: asset("deed#bank"), holder: user.clone(), key: "k".to_string(), value: "v".to_string() }, SettlementError::UnknownAsset),
        (Instruction::SetAttribute { asset: asset("policy#bank"), holder: account("nobody@bank"), key: "k".to_string(), value: "v".to_string() }, SettlementError::UnknownAccount),
        (Instruction::SetAttribute { asset: asset("usd#bank"), holder: user.clone(), key: "k".to_string(), value: "v".to_string() }, SettlementError::RejectedByLedger),
    ];
    for (instruction, error) in cases {
        let text = format!("{:?}", instruction);
        assert_eq!(ledger.submit(&AtomicBatch::new(instruction)), Err(error), "{}", text);
        assert_eq!(balances(&ledger), (1_000, 0, 0));
        assert_eq!(ledger.committed(), 1);
    }
}

#[test]
fn a_transfer_moves_exactly_the_amount() {
    let mut ledger = market(1_000);
    let user = account("user@bank");
    let insurer = account("insurer@bank");
    let receipt = ledger.execute_transfer(&user, &insurer, &usd(400)).unwrap();
    assert_eq!(receipt, BatchReceipt { sequence: 2, instruction_count: 1 });
    assert_eq!(balances(&ledger), (600, 400, 0));
    ledger.execute_transfer(&user, &user, &usd(600)).unwrap();
    assert_eq!(balances(&ledger), (600, 400, 0));
    ledger.execute_transfer(&user, &insurer, &usd(0)).unwrap();
    assert_eq!(balances(&ledger), (600, 400, 0));
    assert_eq!(
        ledger.execute_transfer(&user, &insurer, &usd(601)),
        Err(SettlementError::InsufficientFunds)
    );
    assert_eq!(balances(&ledger), (600, 400, 0));
    assert_eq!(ledger.committed(), 4);
}

#[test]
fn a_balance_never_wraps() {
    let mut ledger = market(u64::MAX);
    ledger
        .submit(&AtomicBatch::new(Instruction::Mint { to: account("insurer@bank"), amount: usd(1) }))
        .unwrap();
    assert_eq!(
        ledger.execute_transfer(&account("user@bank"), &account("insurer@bank"), &usd(u64::MAX)),
        Err(SettlementError::RejectedByLedger)
    );
    assert_eq!(balances(&ledger), (u64::MAX, 1, 0));
    ledger
        .execute_transfer(&account("user@bank"), &account("insurer@bank"), &usd(u64::MAX - 1))
        .unwrap();
    assert_eq!(balances(&ledger), (1, u64::MAX, 0));
}

#[test]
fn a_policy_is_issued_once_and_attributes_are_set_by_key() {
    let mut ledger = market(0);
    let user = account("user@bank");
    let policy = asset("policy#bank");
    let issue = |attributes: Vec<Attribute>| {
        AtomicBatch::new(Instruction::Issue { asset: policy.clone(), to: user.clone(), attributes })
    };
    ledger
        .submit(&issue(vec![
            Attribute::new("coverage", "basic"),
            Attribute::new("expiry", "2030"),
            Attribute::new("coverage", "full"),
        ]))
        .unwrap();
    assert_eq!(ledger.attribute(&user, &policy, "coverage"), Some("full".to_string()));
    assert_eq!(ledger.attribute(&user, &policy, "expiry"), Some("2030".to_string()));
    assert_eq!(ledger.submit(&issue(vec![])), Err(SettlementError::RejectedByLedger));
    let set = |holder: &AccountId, key: &str, value: &str| {
        AtomicBatch::new(Instruction::SetAttribute {
            asset: policy.clone(),
            holder: holder.clone(),
            key: key.to_string(),
            value: value.to_string(),
        })
    };
    ledger.submit(&set(&user, "expiry", "2031")).unwrap();
    assert_eq!(ledger.attribute(&user, &policy, "expiry"), Some("2031".to_string()));
    assert_eq!(ledger.attribute(&user, &policy, "coverage"), Some("full".to_string()));
    let insurer = account("insurer@bank");
    assert!(!ledger.holds(&insurer, &policy));
    ledger.submit(&set(&insurer, "note", "n")).unwrap();
    assert!(ledger.holds(&insurer, &policy));
    assert_eq!(ledger.attribute(&insurer, &policy, "note"), Some("n".to_string()));
    assert_eq!(ledger.attribute(&insurer, &policy, "expiry"), None);
}

#[test]
fn batches_are_never_empty() {
    assert!(AtomicBatch::from_instructions(vec![]).is_none());
    let one = AtomicBatch::new(Instruction::RegisterAccount { account: account("a@b") });
    assert_eq!(one.len(), 1);
    let two = one.clone().with(Instruction::RegisterAccount { account: account("c@d") });
    assert_eq!(two.len(), 2);
    assert_eq!(one.len(), 1);
    assert!(matches!(two.get(1), Some(Instruction::RegisterAccount { account }) if account.as_str() == "c@d"));
    assert!(two.get(2).is_none());
}

#[test]
fn a_split_payment_is_two_transfers_from_the_payer() {
    let payments = build_split_payment(
        &account("user@bank"),
        &account("insurer@bank"),
        &account("platform@bank"),
        &usd(100_001),
        Rate::from_percent(15),
    )
    .unwrap();
    assert_eq!(payments.len(), 2);
    match payments.get(0).unwrap() {
        Instruction::Transfer { from, to, amount } => {
            assert_eq!(from.as_str(), "user@bank");
            assert_eq!(to.as_str(), "insurer@bank");
            assert_eq!(amount.minor_units, 85_001);
            assert_eq!(amount.asset.as_str(), "usd#bank");
        }
        other => panic!("{:?}", other),
    }
    match payments.get(1).unwrap() {
        Instruction::Transfer { from, to, amount } => {
            assert_eq!(from.as_str(), "user@bank");
            assert_eq!(to.as_str(), "platform@bank");
            assert_eq!(amount.minor_units, 15_000);
        }
        other => panic!("{:?}", other),
    }
    assert!(build_split_payment(
        &account("user@bank"),
        &account("insurer@bank"),
        &account("platform@bank"),
        &usd(100),
        Rate::new(101, 100).unwrap(),
    )
    .is_err());
    let issued = append_issuance(payments, &asset("policy#bank"), &account("user@bank"), vec![]);
    assert_eq!(issued.len(), 3);
    assert!(matches!(issued.get(2), Some(Instruction::Issue { asset, to, attributes })
        if asset.as_str() == "policy#bank" && to.as_str() == "user@bank" && attributes.is_empty()));
}
