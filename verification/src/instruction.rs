//! Ledger instructions and the batches that commit as one unit.

use vstd::prelude::*;
use crate::amount::{Amount, AmountError, Rate, split_parts};
use crate::ident::{AccountId, AssetId, DomainId};

verus! {

/// What an asset is registered as; fixed at registration.
#[derive(Clone, Copy, Debug, PartialEq, Eq, Structural)]
pub enum AssetKind {
    /// Fungible: holdings are counts of minor units.
    Numeric,
    /// Non-fungible: holdings carry key-value attributes and no quantity.
    Store,
}

/// A key-value attribute of a store asset.
#[derive(Debug)]
pub struct Attribute {
    pub key: String,
    pub value: String,
}

impl View for Attribute {
    type V = (Seq<char>, Seq<char>);

    open spec fn view(&self) -> (Seq<char>, Seq<char>) {
        (self.key@, self.value@)
    }
}

impl Clone for Attribute {
    fn clone(&self) -> (r: Self)
        ensures
            r == *self,
    {
        Attribute { key: self.key.clone(), value: self.value.clone() }
    }
}

impl Attribute {
    pub fn new(key: &str, value: &str) -> (r: Attribute)
        ensures
            r@ == (key@, value@),
    {
        Attribute { key: key.to_owned(), value: value.to_owned() }
    }
}

/// The attributes of `list`, each by its value.
pub open spec fn attributes_view(list: Seq<Attribute>) -> Seq<(Seq<char>, Seq<char>)> {
    list.map_values(|a: Attribute| a@)
}

/// One atomic ledger operation.
#[derive(Debug)]
pub enum Instruction {
    RegisterDomain { domain: DomainId },
    RegisterAccount { account: AccountId },
    RegisterAsset { asset: AssetId, kind: AssetKind },
    /// Creates `amount` in the holding of `to`.
    Mint { to: AccountId, amount: Amount },
    /// Issues one unit of a store asset to `to`, with its attributes.
    Issue { asset: AssetId, to: AccountId, attributes: Vec<Attribute> },
    /// Moves `amount` from the holding of `from` to the holding of `to`.
    Transfer { from: AccountId, to: AccountId, amount: Amount },
    /// Sets one attribute on the holding that `holder` has of a store asset.
    SetAttribute { asset: AssetId, holder: AccountId, key: String, value: String },
}

/// Mathematical value of an [`Instruction`].
pub enum InstructionView {
    RegisterDomain { domain: Seq<char> },
    RegisterAccount { account: Seq<char> },
    RegisterAsset { asset: Seq<char>, kind: AssetKind },
    Mint { to: Seq<char>, asset: Seq<char>, units: nat },
    Issue { asset: Seq<char>, to: Seq<char>, attributes: Seq<(Seq<char>, Seq<char>)> },
    Transfer { from: Seq<char>, to: Seq<char>, asset: Seq<char>, units: nat },
    SetAttribute { asset: Seq<char>, holder: Seq<char>, key: Seq<char>, value: Seq<char> },
}

impl View for Instruction {
    type V = InstructionView;

    open spec fn view(&self) -> InstructionView {
        match self {
            Instruction::RegisterDomain { domain } => InstructionView::RegisterDomain {
                domain: domain@,
            },
            Instruction::RegisterAccount { account } => InstructionView::RegisterAccount {
                account: account@,
            },
            Instruction::RegisterAsset { asset, kind } => InstructionView::RegisterAsset {
                asset: asset@,
                kind: *kind,
            },
            Instruction::Mint { to, amount } => InstructionView::Mint {
                to: to@,
                asset: amount@.asset,
                units: amount@.minor_units,
            },
            Instruction::Issue { asset, to, attributes } => InstructionView::Issue {
                asset: asset@,
                to: to@,
                attributes: attributes_view(attributes@),
            },
            Instruction::Transfer { from, to, amount } => InstructionView::Transfer {
                from: from@,
                to: to@,
                asset: amount@.asset,
                units: amount@.minor_units,
            },
            Instruction::SetAttribute { asset, holder, key, value } => {
                InstructionView::SetAttribute {
                    asset: asset@,
                    holder: holder@,
                    key: key@,
                    value: value@,
                }
            },
        }
    }
}

/// A copy of `list`, attribute by attribute.
pub fn copy_attributes(list: &Vec<Attribute>) -> (r: Vec<Attribute>)
    ensures
        r@ == list@,
{
    let mut r: Vec<Attribute> = Vec::new();
    let mut i: usize = 0;
    while i < list.len()
        invariant
            i <= list.len(),
            r@ == list@.take(i as int),
        decreases list.len() - i,
    {
        r.push(list[i].clone());
        i += 1;
    }
    r
}

impl Clone for Instruction {
    fn clone(&self) -> (r: Self)
        ensures
            r@ == self@,
    {
        match self {
            Instruction::RegisterDomain { domain } => Instruction::RegisterDomain {
                domain: domain.clone(),
            },
            Instruction::RegisterAccount { account } => Instruction::RegisterAccount {
                account: account.clone(),
            },
            Instruction::RegisterAsset { asset, kind } => Instruction::RegisterAsset {
                asset: asset.clone(),
                kind: *kind,
            },
            Instruction::Mint { to, amount } => Instruction::Mint {
                to: to.clone(),
                amount: amount.clone(),
            },
            Instruction::Issue { asset, to, attributes } => Instruction::Issue {
                asset: asset.clone(),
                to: to.clone(),
                attributes: copy_attributes(attributes),
            },
            Instruction::Transfer { from, to, amount } => Instruction::Transfer {
                from: from.clone(),
                to: to.clone(),
                amount: amount.clone(),
            },
            Instruction::SetAttribute { asset, holder, key, value } => Instruction::SetAttribute {
                asset: asset.clone(),
                holder: holder.clone(),
                key: key.clone(),
                value: value.clone(),
            },
        }
    }
}

/// The instructions of `list`, each by its value.
pub open spec fn instructions_view(list: Seq<Instruction>) -> Seq<InstructionView> {
    list.map_values(|i: Instruction| i@)
}

/// An ordered, non-empty sequence of instructions that commits as one unit:
/// a ledger applies all of them or none.
#[derive(Debug)]
pub struct AtomicBatch {
    instructions: Vec<Instruction>,
}

impl View for AtomicBatch {
    type V = Seq<InstructionView>;

    closed spec fn view(&self) -> Seq<InstructionView> {
        instructions_view(self.instructions@)
    }
}

impl AtomicBatch {
    #[verifier::type_invariant]
    spec fn non_empty(self) -> bool {
        self.instructions@.len() > 0
    }

    /// The batch of one instruction.
    pub fn new(first: Instruction) -> (r: AtomicBatch)
        ensures
            r@ == seq![first@],
    {
        let mut instructions: Vec<Instruction> = Vec::new();
        instructions.push(first);
        assert(instructions_view(instructions@) == seq![first@]);
        AtomicBatch { instructions }
    }

    /// The batch of `instructions` in their order; there is no empty batch.
    pub fn from_instructions(instructions: Vec<Instruction>) -> (r: Option<AtomicBatch>)
        ensures
            r is Some <==> instructions@.len() > 0,
            r matches Some(batch) ==> batch@ == instructions_view(instructions@),
    {
        if instructions.len() == 0 {
            None
        } else {
            Some(AtomicBatch { instructions })
        }
    }

    /// The batch with `next` added at its end.
    pub fn with(self, next: Instruction) -> (r: AtomicBatch)
        ensures
            r@ == self@.push(next@),
    {
        proof {
            use_type_invariant(&self);
        }
        let mut instructions = self.instructions;
        let ghost before = instructions@;
        instructions.push(next);
        assert(instructions_view(instructions@) == instructions_view(before).push(next@));
        AtomicBatch { instructions }
    }

    /// Number of instructions, at least one.
    pub fn len(&self) -> (n: usize)
        ensures
            n == self@.len(),
            n > 0,
    {
        proof {
            use_type_invariant(self);
        }
        self.instructions.len()
    }

    /// The instruction at `index`.
    pub fn get(&self, index: usize) -> (r: Option<&Instruction>)
        ensures
            r is Some <==> index < self@.len(),
            r matches Some(instruction) ==> instruction@ == self@[index as int],
    {
        if index < self.instructions.len() {
            Some(&self.instructions[index])
        } else {
            None
        }
    }
}

impl Clone for AtomicBatch {
    fn clone(&self) -> (r: Self)
        ensures
            r@ == self@,
    {
        proof {
            use_type_invariant(self);
        }
        let mut instructions: Vec<Instruction> = Vec::new();
        let mut i: usize = 0;
        while i < self.instructions.len()
            invariant
                i <= self.instructions.len(),
                instructions@.len() == i,
                forall|j: int|
                    0 <= j < i ==> (#[trigger] instructions@[j])@ == self.instructions@[j]@,
            decreases self.instructions.len() - i,
        {
            instructions.push(self.instructions[i].clone());
            i += 1;
        }
        assert(instructions_view(instructions@) == instructions_view(self.instructions@));
        AtomicBatch { instructions }
    }
}

/// The two transfers of a split payment: `payee_a` receives the total less
/// the commission, `payee_b` the commission, which is `rate` of the total
/// rounded half-up.
pub open spec fn split_payment(
    payer: Seq<char>,
    payee_a: Seq<char>,
    payee_b: Seq<char>,
    asset: Seq<char>,
    total: nat,
    rate: Rate,
) -> Seq<InstructionView> {
    let parts = split_parts(total, rate.num(), rate.den());
    seq![
        InstructionView::Transfer { from: payer, to: payee_a, asset, units: parts.0 },
        InstructionView::Transfer { from: payer, to: payee_b, asset, units: parts.1 },
    ]
}

/// Builds the batch that pays `total` from `payer`, split between `payee_a`
/// and `payee_b`. The two amounts add up to `total` exactly.
pub fn build_split_payment(
    payer: &AccountId,
    payee_a: &AccountId,
    payee_b: &AccountId,
    total: &Amount,
    rate: Rate,
) -> (r: Result<AtomicBatch, AmountError>)
    ensures
        rate.at_most_one() ==> r is Ok && r->Ok_0@ == split_payment(
            payer@,
            payee_a@,
            payee_b@,
            total@.asset,
            total@.minor_units,
            rate,
        ),
        !rate.at_most_one() ==> r == Err::<AtomicBatch, AmountError>(AmountError::RateAboveOne),
{
    match total.split(rate) {
        Ok((net, commission)) => {
            let first = Instruction::Transfer {
                from: payer.clone(),
                to: payee_a.clone(),
                amount: net,
            };
            let second = Instruction::Transfer {
                from: payer.clone(),
                to: payee_b.clone(),
                amount: commission,
            };
            let batch = AtomicBatch::new(first).with(second);
            assert(batch@ == split_payment(
                payer@,
                payee_a@,
                payee_b@,
                total@.asset,
                total@.minor_units,
                rate,
            ));
            Ok(batch)
        },
        Err(_) => Err(AmountError::RateAboveOne),
    }
}

/// Appends the issuance of `asset` to `recipient` to `batch`, so that the
/// issuance commits only together with the instructions before it.
pub fn append_issuance(
    batch: AtomicBatch,
    asset: &AssetId,
    recipient: &AccountId,
    metadata: Vec<Attribute>,
) -> (r: AtomicBatch)
    ensures
        r@ == batch@.push(
            InstructionView::Issue {
                asset: asset@,
                to: recipient@,
                attributes: attributes_view(metadata@),
            },
        ),
{
    batch.with(
        Instruction::Issue { asset: asset.clone(), to: recipient.clone(), attributes: metadata },
    )
}

} // verus!
