//! Three ledgers set up from scratch: a bank with a currency, a university
//! that issues diplomas, and a logistics firm that tracks containers. Each
//! is the list of instructions to submit, in order.

use vstd::prelude::*;
use crate::amount::Amount;
use crate::ident::{scoped_text, AccountId, AssetId, DomainId};
use crate::instruction::{
    attributes_view, instructions_view, AssetKind, Attribute, Instruction, InstructionView,
};

verus! {

/// One million units of a currency with two decimals, in minor units.
pub const INITIAL_SUPPLY: u64 = 100_000_000;

/// The instructions that set up the bank.
pub open spec fn defi_system() -> Seq<InstructionView> {
    seq![
        InstructionView::RegisterDomain { domain: "central_bank"@ },
        InstructionView::RegisterAsset {
            asset: scoped_text("usd"@, '#', "central_bank"@),
            kind: AssetKind::Numeric,
        },
        InstructionView::Mint {
            to: scoped_text("alice"@, '@', "wonderland"@),
            asset: scoped_text("usd"@, '#', "central_bank"@),
            units: INITIAL_SUPPLY as nat,
        },
    ]
}

/// The instructions that set up the university and issue one diploma.
pub open spec fn digital_id() -> Seq<InstructionView> {
    seq![
        InstructionView::RegisterDomain { domain: "university"@ },
        InstructionView::RegisterAccount {
            account: scoped_text("student_01"@, '@', "university"@),
        },
        InstructionView::RegisterAsset {
            asset: scoped_text("diploma"@, '#', "university"@),
            kind: AssetKind::Store,
        },
        InstructionView::SetAttribute {
            asset: scoped_text("diploma"@, '#', "university"@),
            holder: scoped_text("student_01"@, '@', "university"@),
            key: "ipfs_hash"@,
            value: "QmHashOfPDFDocument..."@,
        },
    ]
}

/// The instructions that set up the logistics firm and record one container.
pub open spec fn shipment() -> Seq<InstructionView> {
    seq![
        InstructionView::RegisterDomain { domain: "logistics"@ },
        InstructionView::RegisterAsset {
            asset: scoped_text("container"@, '#', "logistics"@),
            kind: AssetKind::Store,
        },
        InstructionView::Issue {
            asset: scoped_text("container"@, '#', "logistics"@),
            to: scoped_text("alice"@, '@', "wonderland"@),
            attributes: seq![
                ("location"@, "Port of Tokyo"@),
                ("temperature"@, "-4C"@),
            ],
        },
    ]
}

/// Registers the domain `central_bank`, defines the numeric asset
/// `usd#central_bank` in it and mints the initial supply to
/// `alice@wonderland`.
pub fn init_defi_system() -> (r: Vec<Instruction>)
    ensures
        instructions_view(r@) == defi_system(),
{
    proof {
        reveal_strlit("central_bank");
        reveal_strlit("usd");
        reveal_strlit("alice");
        reveal_strlit("wonderland");
    }
    let mut plan: Vec<Instruction> = Vec::new();
    plan.push(Instruction::RegisterDomain { domain: DomainId::known("central_bank") });
    plan.push(
        Instruction::RegisterAsset {
            asset: AssetId::known("usd", "central_bank"),
            kind: AssetKind::Numeric,
        },
    );
    plan.push(
        Instruction::Mint {
            to: AccountId::known("alice", "wonderland"),
            amount: Amount::new(INITIAL_SUPPLY, AssetId::known("usd", "central_bank")),
        },
    );
    assert(instructions_view(plan@) == defi_system());
    plan
}

/// Registers the domain `university` and the account
/// `student_01@university`, defines the store asset `diploma#university`
/// and attaches the hash of the diploma to the student's holding.
pub fn issue_digital_id() -> (r: Vec<Instruction>)
    ensures
        instructions_view(r@) == digital_id(),
{
    proof {
        reveal_strlit("university");
        reveal_strlit("student_01");
        reveal_strlit("diploma");
    }
    let mut plan: Vec<Instruction> = Vec::new();
    plan.push(Instruction::RegisterDomain { domain: DomainId::known("university") });
    plan.push(
        Instruction::RegisterAccount { account: AccountId::known("student_01", "university") },
    );
    plan.push(
        Instruction::RegisterAsset {
            asset: AssetId::known("diploma", "university"),
            kind: AssetKind::Store,
        },
    );
    plan.push(
        Instruction::SetAttribute {
            asset: AssetId::known("diploma", "university"),
            holder: AccountId::known("student_01", "university"),
            key: "ipfs_hash".to_owned(),
            value: "QmHashOfPDFDocument...".to_owned(),
        },
    );
    assert(instructions_view(plan@) == digital_id());
    plan
}

/// Registers the domain `logistics`, defines the store asset
/// `container#logistics` and records one container of `alice@wonderland`
/// with where it is and how cold.
pub fn track_shipment() -> (r: Vec<Instruction>)
    ensures
        instructions_view(r@) == shipment(),
{
    proof {
        reveal_strlit("logistics");
        reveal_strlit("container");
        reveal_strlit("alice");
        reveal_strlit("wonderland");
    }
    let mut attributes: Vec<Attribute> = Vec::new();
    attributes.push(Attribute::new("location", "Port of Tokyo"));
    attributes.push(Attribute::new("temperature", "-4C"));
    assert(attributes_view(attributes@) == seq![
        ("location"@, "Port of Tokyo"@),
        ("temperature"@, "-4C"@),
    ]);
    let mut plan: Vec<Instruction> = Vec::new();
    plan.push(Instruction::RegisterDomain { domain: DomainId::known("logistics") });
    plan.push(
        Instruction::RegisterAsset {
            asset: AssetId::known("container", "logistics"),
            kind: AssetKind::Store,
        },
    );
    plan.push(
        Instruction::Issue {
            asset: AssetId::known("container", "logistics"),
            to: AccountId::known("alice", "wonderland"),
            attributes,
        },
    );
    assert(instructions_view(plan@) == shipment());
    plan
}

} // verus!
