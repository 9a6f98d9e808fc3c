//! Ready-made batches: an insurance purchase with a commission.

use vstd::prelude::*;
use crate::amount::{scale_half_up, split_fraction, Amount, AmountError, Rate};
use crate::ident::{is_account_text, scoped_text, AccountId, AssetId, IdError};
use crate::instruction::{
    append_issuance, attributes_view, split_payment, AtomicBatch, Attribute, Instruction,
    InstructionView,
};

verus! {

/// The asset in which premiums are paid: `usd#bank`.
pub open spec fn premium_currency_text() -> Seq<char> {
    scoped_text("usd"@, '#', "bank"@)
}

/// The asset issued as the policy: `health_policy#insurer_a`.
pub open spec fn policy_asset_text() -> Seq<char> {
    scoped_text("health_policy"@, '#', "insurer_a"@)
}

/// The account that receives commissions: `admin@my_ecosystem`.
pub open spec fn platform_wallet_text() -> Seq<char> {
    scoped_text("admin"@, '@', "my_ecosystem"@)
}

/// The account of the insurer: `finance@blue_cross`.
pub open spec fn insurer_wallet_text() -> Seq<char> {
    scoped_text("finance"@, '@', "blue_cross"@)
}

/// The asset in which premiums are paid.
pub fn premium_currency() -> (r: AssetId)
    ensures
        r@ == premium_currency_text(),
{
    proof {
        reveal_strlit("usd");
        reveal_strlit("bank");
    }
    AssetId::known("usd", "bank")
}

/// The asset issued as the policy.
pub fn policy_asset() -> (r: AssetId)
    ensures
        r@ == policy_asset_text(),
{
    proof {
        reveal_strlit("health_policy");
        reveal_strlit("insurer_a");
    }
    AssetId::known("health_policy", "insurer_a")
}

/// The account that receives commissions.
pub fn platform_wallet() -> (r: AccountId)
    ensures
        r@ == platform_wallet_text(),
{
    proof {
        reveal_strlit("admin");
        reveal_strlit("my_ecosystem");
    }
    AccountId::known("admin", "my_ecosystem")
}

/// The account of the insurer.
pub fn insurer_wallet() -> (r: AccountId)
    ensures
        r@ == insurer_wallet_text(),
{
    proof {
        reveal_strlit("finance");
        reveal_strlit("blue_cross");
    }
    AccountId::known("finance", "blue_cross")
}

/// The commission on a policy sold through the platform: 15 percent.
pub fn standard_commission() -> (r: Rate)
    ensures
        r.num() == 15,
        r.den() == 100,
{
    Rate::from_percent(15)
}

/// The batch of an insurance purchase: the user pays the insurer the premium
/// less the commission, pays the platform the commission, and is issued the
/// policy, all or nothing.
pub open spec fn policy_purchase(
    user: Seq<char>,
    insurer: Seq<char>,
    platform: Seq<char>,
    premium: nat,
    rate: Rate,
) -> Seq<InstructionView> {
    split_payment(user, insurer, platform, premium_currency_text(), premium, rate).push(
        InstructionView::Issue { asset: policy_asset_text(), to: user, attributes: Seq::empty() },
    )
}

/// Sells policies for a commission.
pub struct InsuranceBroker;

/// The batch of a sale at a rate of at most one, and its commission.
fn sale(
    user: &AccountId,
    insurer: &AccountId,
    platform: &AccountId,
    premium_total: u64,
    rate: Rate,
) -> (r: (AtomicBatch, u64))
    requires
        rate.at_most_one(),
    ensures
        r.0@ == policy_purchase(user@, insurer@, platform@, premium_total as nat, rate),
        r.1 == scale_half_up(premium_total as nat, rate.num(), rate.den()),
{
    let (net, commission) = split_fraction(premium_total, rate);
    let payments = AtomicBatch::new(
        Instruction::Transfer {
            from: user.clone(),
            to: insurer.clone(),
            amount: Amount::new(net, premium_currency()),
        },
    ).with(
        Instruction::Transfer {
            from: user.clone(),
            to: platform.clone(),
            amount: Amount::new(commission, premium_currency()),
        },
    );
    let metadata: Vec<Attribute> = Vec::new();
    assert(attributes_view(metadata@) == Seq::<(Seq<char>, Seq<char>)>::empty());
    let batch = append_issuance(payments, &policy_asset(), user, metadata);
    assert(batch@ == policy_purchase(user@, insurer@, platform@, premium_total as nat, rate));
    (batch, commission)
}

impl InsuranceBroker {
    /// Builds the batch that sells a policy: the policy is issued only if
    /// both payments are made, and the platform is paid only if the insurer
    /// is. `premium_total` is in minor units of `usd#bank`.
    pub fn purchase_policy_with_commission(
        user_id: &AccountId,
        insurer_id: &AccountId,
        platform_commission_account: &AccountId,
        premium_total: u64,
        commission_rate: Rate,
    ) -> (r: Result<AtomicBatch, AmountError>)
        ensures
            commission_rate.at_most_one() ==> r is Ok && r->Ok_0@ == policy_purchase(
                user_id@,
                insurer_id@,
                platform_commission_account@,
                premium_total as nat,
                commission_rate,
            ),
            !commission_rate.at_most_one() ==> r == Err::<AtomicBatch, AmountError>(
                AmountError::RateAboveOne,
            ),
    {
        if !commission_rate.is_fraction() {
            return Err(AmountError::RateAboveOne);
        }
        let (batch, _) = sale(
            user_id,
            insurer_id,
            platform_commission_account,
            premium_total,
            commission_rate,
        );
        Ok(batch)
    }
}

/// A policy purchase ready to submit, with the commission it earns.
#[derive(Debug)]
pub struct PolicyPurchase {
    pub batch: AtomicBatch,
    /// The platform's commission, in minor units.
    pub commission_earned: u64,
}

/// Prepares the purchase of a policy at `price` minor units by the user
/// written as `user_id`, at the standard commission, between the standard
/// wallets. A text that is not an account is refused.
pub fn buy_policy(user_id: &str, price: u64) -> (r: Result<PolicyPurchase, IdError>)
    ensures
        !is_account_text(user_id@) ==> r == Err::<PolicyPurchase, IdError>(
            IdError::MalformedAccount,
        ),
        is_account_text(user_id@) ==> r is Ok && ({
            let purchase = r->Ok_0;
            &&& purchase.commission_earned == scale_half_up(price as nat, 15, 100)
            &&& purchase.batch@ == seq![
                InstructionView::Transfer {
                    from: user_id@,
                    to: insurer_wallet_text(),
                    asset: premium_currency_text(),
                    units: (price - scale_half_up(price as nat, 15, 100)) as nat,
                },
                InstructionView::Transfer {
                    from: user_id@,
                    to: platform_wallet_text(),
                    asset: premium_currency_text(),
                    units: scale_half_up(price as nat, 15, 100),
                },
                InstructionView::Issue {
                    asset: policy_asset_text(),
                    to: user_id@,
                    attributes: Seq::empty(),
                },
            ]
        }),
{
    let user = match AccountId::parse(user_id) {
        Ok(user) => user,
        Err(error) => {
            return Err(error);
        },
    };
    let (batch, commission_earned) = sale(
        &user,
        &insurer_wallet(),
        &platform_wallet(),
        price,
        standard_commission(),
    );
    Ok(PolicyPurchase { batch, commission_earned })
}

} // verus!
