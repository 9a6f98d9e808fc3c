use patrie_network::ident::IdError;
use patrie_network::instruction::{AssetKind, Instruction};
use patrie_network::unit::{
    define_unit, mint_unit, send_tokens, unit_kind, DefineUnitRequest, MintUnitRequest,
    TransferRequest,
};

fn define(unit_name: &str, tenant_id: &str, unit_type: &str) -> DefineUnitRequest {
    DefineUnitRequest {
        tenant_id: tenant_id.to_string(),
        unit_name: unit_name.to_string(),
        unit_type: unit_type.to_string(),
        decimals: Some(2),
    }
}

#[test]
fn a_unit_is_an_asset_of_the_tenant() {
    match define_unit(&define("battery_pack", "tesla_supply_chain", "Store")).unwrap() {
        Instruction::RegisterAsset { asset, kind } => {
            assert_eq!(asset.as_str(), "battery_pack#tesla_supply_chain");
            assert_eq!(kind, AssetKind::Store);
        }
        other => panic!("{:?}", other),
    }
}

#[test]
fn numeric_is_recognised_in_any_case() {
    for unit_type in ["numeric", "Numeric", "NUMERIC", "nUmErIc"] {
        assert!(matches!(
            define_unit(&define("credits", "tesla", unit_type)),
            Ok(Instruction::RegisterAsset { kind: AssetKind::Numeric, .. })
        ));
    }
    for unit_type in ["store", "", "numeric ", "number", "numerıc"] {
        assert!(matches!(
            define_unit(&define("credits", "tesla", unit_type)),
            Ok(Instruction::RegisterAsset { kind: AssetKind::Store, .. })
        ));
    }
    assert_eq!(unit_kind(&"numeric".to_string()), AssetKind::Numeric);
    assert_eq!(unit_kind(&"Numeric".to_string()), AssetKind::Store);
}

#[test]
fn a_unit_with_a_malformed_name_is_refused() {
    for (unit_name, tenant_id) in [("", "tesla"), ("battery", ""), ("bat tery", "tesla"),
        ("bat#tery", "tesla"), ("battery", "tes@la")]
    {
        assert!(matches!(
            define_unit(&define(unit_name, tenant_id, "numeric")),
            Err(IdError::MalformedAsset)
        ));
    }
}

#[test]
fn minting_goes_to_a_recipient_of_the_tenant() {
    let request = MintUnitRequest {
        tenant_id: "tesla_supply_chain".to_string(),
        unit_name: "battery_pack".to_string(),
        quantity: 10_000,
        recipient: "elon".to_string(),
    };
    match mint_unit(&request).unwrap() {
        Instruction::Mint { to, amount } => {
            assert_eq!(to.as_str(), "elon@tesla_supply_chain");
            assert_eq!(amount.asset.as_str(), "battery_pack#tesla_supply_chain");
            assert_eq!(amount.minor_units, 10_000);
        }
        other => panic!("{:?}", other),
    }
    let no_recipient = MintUnitRequest { recipient: "".to_string(), unit_name: "".to_string(), ..request };
    assert!(matches!(mint_unit(&no_recipient), Err(IdError::MalformedAccount)));
    let no_unit = MintUnitRequest { recipient: "elon".to_string(), ..no_recipient };
    assert!(matches!(mint_unit(&no_unit), Err(IdError::MalformedAsset)));
}

#[test]
fn a_transfer_request_is_checked_field_by_field() {
    let request = TransferRequest {
        sender_id: "alice@patrie".to_string(),
        private_key: "SECRET-REDACTED".to_string(),
        recipient_id: "bob@patrie".to_string(),
        asset_id: "usd#patrie".to_string(),
        amount: 2_500,
    };
    match send_tokens(&request).unwrap() {
        Instruction::Transfer { from, to, amount } => {
            assert_eq!(from.as_str(), "alice@patrie");
            assert_eq!(to.as_str(), "bob@patrie");
            assert_eq!(amount.asset.as_str(), "usd#patrie");
            assert_eq!(amount.minor_units, 2_500);
        }
        other => panic!("{:?}", other),
    }
    let bad_asset = TransferRequest { asset_id: "usd".to_string(), ..request };
    assert!(matches!(send_tokens(&bad_asset), Err(IdError::MalformedAsset)));
    let bad_recipient = TransferRequest { recipient_id: "bob".to_string(), ..bad_asset };
    assert!(matches!(send_tokens(&bad_recipient), Err(IdError::MalformedAccount)));
    let bad_sender = TransferRequest {
        sender_id: "".to_string(),
        recipient_id: "bob@patrie".to_string(),
        asset_id: "usd#patrie".to_string(),
        ..bad_recipient
    };
    assert!(matches!(send_tokens(&bad_sender), Err(IdError::MalformedAccount)));
}
