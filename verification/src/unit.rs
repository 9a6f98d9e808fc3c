//! Units of account that tenants define and mint, and transfers between
//! wallets, as they arrive from callers: text that is checked before any
//! instruction is built.

use vstd::prelude::*;
use crate::amount::Amount;
use crate::ident::{is_account_text, is_asset_text, AccountId, AssetId, IdError};
use crate::instruction::{AssetKind, Instruction, InstructionView};
use crate::text::{joined, lowercase, lowercase_text};

verus! {

/// A request to define a unit in a tenant's domain.
#[derive(Debug)]
pub struct DefineUnitRequest {
    pub tenant_id: String,
    pub unit_name: String,
    /// `numeric`, in any case, for a currency; anything else for a store.
    pub unit_type: String,
    /// Decimal places, for a numeric unit.
    pub decimals: Option<u32>,
}

/// A request to mint a quantity of a unit to a recipient of the tenant.
#[derive(Debug)]
pub struct MintUnitRequest {
    pub tenant_id: String,
    pub unit_name: String,
    /// Quantity in minor units.
    pub quantity: u64,
    pub recipient: String,
}

/// A request to move an amount from one wallet to another.
#[derive(Debug)]
pub struct TransferRequest {
    pub sender_id: String,
    /// Key with which the sender signs; never looked at here.
    pub private_key: String,
    pub recipient_id: String,
    pub asset_id: String,
    /// Amount in minor units.
    pub amount: u64,
}

/// The text of the asset `unit` of `tenant`.
pub open spec fn unit_asset_text(unit: Seq<char>, tenant: Seq<char>) -> Seq<char> {
    unit + "#"@ + tenant
}

/// The text of the account `holder` of `tenant`.
pub open spec fn unit_account_text(holder: Seq<char>, tenant: Seq<char>) -> Seq<char> {
    holder + "@"@ + tenant
}

/// The kind that a unit type given as lower-case text asks for.
pub open spec fn kind_for(lowered: Seq<char>) -> AssetKind {
    if lowered == "numeric"@ {
        AssetKind::Numeric
    } else {
        AssetKind::Store
    }
}

/// The kind of unit that a type in lower case asks for: numeric for
/// `numeric`, store for anything else.
pub fn unit_kind(lowered: &String) -> (r: AssetKind)
    ensures
        r == kind_for(lowered@),
{
    let numeric = "numeric".to_owned();
    if *lowered == numeric {
        AssetKind::Numeric
    } else {
        AssetKind::Store
    }
}

fn unit_asset(unit_name: &str, tenant_id: &str) -> (r: Result<AssetId, IdError>)
    ensures
        is_asset_text(unit_asset_text(unit_name@, tenant_id@)) ==> r is Ok && r->Ok_0@
            == unit_asset_text(unit_name@, tenant_id@),
        !is_asset_text(unit_asset_text(unit_name@, tenant_id@)) ==> r == Err::<AssetId, IdError>(
            IdError::MalformedAsset,
        ),
{
    let text = joined(joined(unit_name, "#").as_str(), tenant_id);
    AssetId::parse(text.as_str())
}

/// Builds the registration of the unit that `request` defines: the asset
/// `unit_name#tenant_id`, numeric or store by its type.
pub fn define_unit(request: &DefineUnitRequest) -> (r: Result<Instruction, IdError>)
    ensures
        ({
            let text = unit_asset_text(request.unit_name@, request.tenant_id@);
            &&& is_asset_text(text) ==> r is Ok && r->Ok_0@ == (InstructionView::RegisterAsset {
                asset: text,
                kind: kind_for(lowercase_text(request.unit_type@)),
            })
            &&& !is_asset_text(text) ==> r == Err::<Instruction, IdError>(IdError::MalformedAsset)
        }),
{
    let asset = match unit_asset(request.unit_name.as_str(), request.tenant_id.as_str()) {
        Ok(asset) => asset,
        Err(error) => {
            return Err(error);
        },
    };
    let kind = unit_kind(&lowercase(request.unit_type.as_str()));
    Ok(Instruction::RegisterAsset { asset, kind })
}

/// Builds the instruction that mints what `request` asks for: `quantity` of
/// `unit_name#tenant_id` to `recipient@tenant_id`. The recipient is checked
/// first, then the unit.
pub fn mint_unit(request: &MintUnitRequest) -> (r: Result<Instruction, IdError>)
    ensures
        ({
            let account = unit_account_text(request.recipient@, request.tenant_id@);
            let asset = unit_asset_text(request.unit_name@, request.tenant_id@);
            &&& !is_account_text(account) ==> r == Err::<Instruction, IdError>(
                IdError::MalformedAccount,
            )
            &&& is_account_text(account) && !is_asset_text(asset) ==> r == Err::<
                Instruction,
                IdError,
            >(IdError::MalformedAsset)
            &&& is_account_text(account) && is_asset_text(asset) ==> r is Ok && r->Ok_0@ == (
            InstructionView::Mint { to: account, asset, units: request.quantity as nat })
        }),
{
    let text = joined(joined(request.recipient.as_str(), "@").as_str(), request.tenant_id.as_str());
    let to = match AccountId::parse(text.as_str()) {
        Ok(account) => account,
        Err(error) => {
            return Err(error);
        },
    };
    let asset = match unit_asset(request.unit_name.as_str(), request.tenant_id.as_str()) {
        Ok(asset) => asset,
        Err(error) => {
            return Err(error);
        },
    };
    Ok(Instruction::Mint { to, amount: Amount::new(request.quantity, asset) })
}

/// Builds the transfer that `request` asks for. The sender is checked
/// first, then the recipient, then the asset.
pub fn send_tokens(request: &TransferRequest) -> (r: Result<Instruction, IdError>)
    ensures
        !is_account_text(request.sender_id@) ==> r == Err::<Instruction, IdError>(
            IdError::MalformedAccount,
        ),
        is_account_text(request.sender_id@) && !is_account_text(request.recipient_id@) ==> r
            == Err::<Instruction, IdError>(IdError::MalformedAccount),
        is_account_text(request.sender_id@) && is_account_text(request.recipient_id@)
            && !is_asset_text(request.asset_id@) ==> r == Err::<Instruction, IdError>(
            IdError::MalformedAsset,
        ),
        is_account_text(request.sender_id@) && is_account_text(request.recipient_id@)
            && is_asset_text(request.asset_id@) ==> r is Ok && r->Ok_0@ == (
        InstructionView::Transfer {
            from: request.sender_id@,
            to: request.recipient_id@,
            asset: request.asset_id@,
            units: request.amount as nat,
        }),
{
    let from = match AccountId::parse(request.sender_id.as_str()) {
        Ok(account) => account,
        Err(error) => {
            return Err(error);
        },
    };
    let to = match AccountId::parse(request.recipient_id.as_str()) {
        Ok(account) => account,
        Err(error) => {
            return Err(error);
        },
    };
    let asset = match AssetId::parse(request.asset_id.as_str()) {
        Ok(asset) => asset,
        Err(error) => {
            return Err(error);
        },
    };
    Ok(Instruction::Transfer { from, to, amount: Amount::new(request.amount, asset) })
}

} // verus!
