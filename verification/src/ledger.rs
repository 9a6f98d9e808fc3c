//! An in-memory ledger that commits batches atomically.
//!
//! The ledger is the reference for what a batch does: it applies the
//! instructions of a batch in order to a working copy and installs the copy
//! only when every instruction was accepted.

use vstd::prelude::*;
use crate::amount::Amount;
use crate::ident::{AccountId, AssetId, DomainId};
use crate::instruction::{AssetKind, AtomicBatch, Attribute, Instruction, InstructionView};
use crate::settlement::SettlementError;
use crate::table::{Keyed, Modeled, Table};

verus! {

/// The holding that an account has of an asset.
pub struct HoldingKey {
    pub account: String,
    pub asset: String,
}

impl Modeled for HoldingKey {
    type Model = (Seq<char>, Seq<char>);

    open spec fn model(&self) -> (Seq<char>, Seq<char>) {
        (self.account@, self.asset@)
    }

    fn duplicate(&self) -> (r: Self) {
        HoldingKey { account: self.account.clone(), asset: self.asset.clone() }
    }
}

impl Keyed for HoldingKey {
    fn same(&self, other: &Self) -> (r: bool) {
        self.account == other.account && self.asset == other.asset
    }
}

impl Modeled for AssetKind {
    type Model = AssetKind;

    open spec fn model(&self) -> AssetKind {
        *self
    }

    fn duplicate(&self) -> (r: Self) {
        *self
    }
}

/// The map that a list of attributes stands for: a later attribute for a key
/// replaces an earlier one.
pub open spec fn attributes_map(list: Seq<(Seq<char>, Seq<char>)>) -> Map<Seq<char>, Seq<char>>
    decreases list.len(),
{
    if list.len() == 0 {
        Map::empty()
    } else {
        attributes_map(list.drop_last()).insert(list.last().0, list.last().1)
    }
}

/// Mathematical value of a [`Ledger`].
#[verifier::ext_equal]
pub struct LedgerView {
    pub domains: Set<Seq<char>>,
    pub accounts: Set<Seq<char>>,
    /// Registered assets, each with the kind it was registered as.
    pub assets: Map<Seq<char>, AssetKind>,
    /// Minor units held, by account and numeric asset.
    pub balances: Map<(Seq<char>, Seq<char>), u64>,
    /// Attributes held, by account and store asset.
    pub records: Map<(Seq<char>, Seq<char>), Map<Seq<char>, Seq<char>>>,
    /// Number of batches committed.
    pub committed: u64,
}

/// Receipt of a committed batch.
#[derive(Clone, Copy, Debug, PartialEq, Eq, Structural)]
pub struct BatchReceipt {
    /// Position of the batch among the committed batches, from one.
    pub sequence: u64,
    /// Number of instructions that took effect together.
    pub instruction_count: usize,
}

impl LedgerView {
    /// The ledger with nothing registered.
    pub open spec fn empty() -> LedgerView {
        LedgerView {
            domains: Set::empty(),
            accounts: Set::empty(),
            assets: Map::empty(),
            balances: Map::empty(),
            records: Map::empty(),
            committed: 0,
        }
    }

    /// Minor units of `asset` that `account` holds; zero where it holds none.
    pub open spec fn balance(self, account: Seq<char>, asset: Seq<char>) -> u64 {
        if self.balances.dom().contains((account, asset)) {
            self.balances[(account, asset)]
        } else {
            0
        }
    }

    /// Whether `holder` holds the store asset `asset`.
    pub open spec fn holds(self, holder: Seq<char>, asset: Seq<char>) -> bool {
        self.records.dom().contains((holder, asset))
    }

    /// Attributes on the holding of `holder` in `asset`; none where it holds none.
    pub open spec fn attributes(self, holder: Seq<char>, asset: Seq<char>) -> Map<
        Seq<char>,
        Seq<char>,
    > {
        if self.holds(holder, asset) {
            self.records[(holder, asset)]
        } else {
            Map::empty()
        }
    }

    /// The first reason, if any, for which an instruction on `asset` of kind
    /// `kind` between the two accounts is refused before balances are looked at.
    pub open spec fn refusal(
        self,
        asset: Seq<char>,
        kind: AssetKind,
        first: Seq<char>,
        second: Seq<char>,
    ) -> Option<SettlementError> {
        if !self.assets.dom().contains(asset) {
            Some(SettlementError::UnknownAsset)
        } else if !self.accounts.contains(first) || !self.accounts.contains(second) {
            Some(SettlementError::UnknownAccount)
        } else if self.assets[asset] != kind {
            Some(SettlementError::RejectedByLedger)
        } else {
            None
        }
    }

    /// The ledger after one instruction, or why the instruction is refused.
    pub open spec fn step(self, instruction: InstructionView) -> Result<
        LedgerView,
        SettlementError,
    > {
        match instruction {
            InstructionView::RegisterDomain { domain } => {
                if self.domains.contains(domain) {
                    Err(SettlementError::RejectedByLedger)
                } else {
                    Ok(LedgerView { domains: self.domains.insert(domain), ..self })
                }
            },
            InstructionView::RegisterAccount { account } => {
                if self.accounts.contains(account) {
                    Err(SettlementError::RejectedByLedger)
                } else {
                    Ok(LedgerView { accounts: self.accounts.insert(account), ..self })
                }
            },
            InstructionView::RegisterAsset { asset, kind } => {
                if self.assets.dom().contains(asset) {
                    Err(SettlementError::RejectedByLedger)
                } else {
                    Ok(LedgerView { assets: self.assets.insert(asset, kind), ..self })
                }
            },
            InstructionView::Mint { to, asset, units } => {
                match self.refusal(asset, AssetKind::Numeric, to, to) {
                    Some(error) => Err(error),
                    None => {
                        if self.balance(to, asset) + units > u64::MAX {
                            Err(SettlementError::RejectedByLedger)
                        } else {
                            Ok(
                                LedgerView {
                                    balances: self.balances.insert(
                                        (to, asset),
                                        (self.balance(to, asset) + units) as u64,
                                    ),
                                    ..self
                                },
                            )
                        }
                    },
                }
            },
            InstructionView::Transfer { from, to, asset, units } => {
                match self.refusal(asset, AssetKind::Numeric, from, to) {
                    Some(error) => Err(error),
                    None => {
                        if self.balance(from, asset) < units {
                            Err(SettlementError::InsufficientFunds)
                        } else if from == to {
                            Ok(self)
                        } else if self.balance(to, asset) + units > u64::MAX {
                            Err(SettlementError::RejectedByLedger)
                        } else {
                            Ok(
                                LedgerView {
                                    balances: self.balances.insert(
                                        (from, asset),
                                        (self.balance(from, asset) - units) as u64,
                                    ).insert((to, asset), (self.balance(to, asset) + units) as u64),
                                    ..self
                                },
                            )
                        }
                    },
                }
            },
            InstructionView::Issue { asset, to, attributes } => {
                match self.refusal(asset, AssetKind::Store, to, to) {
                    Some(error) => Err(error),
                    None => {
                        if self.holds(to, asset) {
                            Err(SettlementError::RejectedByLedger)
                        } else {
                            Ok(
                                LedgerView {
                                    records: self.records.insert(
                                        (to, asset),
                                        attributes_map(attributes),
                                    ),
                                    ..self
                                },
                            )
                        }
                    },
                }
            },
            InstructionView::SetAttribute { asset, holder, key, value } => {
                match self.refusal(asset, AssetKind::Store, holder, holder) {
                    Some(error) => Err(error),
                    None => Ok(
                        LedgerView {
                            records: self.records.insert(
                                (holder, asset),
                                self.attributes(holder, asset).insert(key, value),
                            ),
                            ..self
                        },
                    ),
                }
            },
        }
    }

    /// The ledger after the instructions of `batch` in order, or the reason
    /// for which the first refused instruction is refused.
    pub open spec fn run(self, batch: Seq<InstructionView>) -> Result<LedgerView, SettlementError>
        decreases batch.len(),
    {
        if batch.len() == 0 {
            Ok(self)
        } else {
            match self.step(batch.first()) {
                Ok(next) => next.run(batch.drop_first()),
                Err(error) => Err(error),
            }
        }
    }

    /// The ledger after committing `batch` as one unit: every instruction
    /// took effect and the batch was counted, or the batch is refused.
    pub open spec fn commit(self, batch: Seq<InstructionView>) -> Result<
        LedgerView,
        SettlementError,
    > {
        if self.committed == u64::MAX {
            Err(SettlementError::RejectedByLedger)
        } else {
            match self.run(batch) {
                Ok(next) => Ok(LedgerView { committed: (self.committed + 1) as u64, ..next }),
                Err(error) => Err(error),
            }
        }
    }
}

/// Atomicity: a batch with an instruction that is refused where it stands,
/// after the instructions before it, is refused as a whole, with that
/// instruction's error. The ledger that commits it is left as it was.
pub proof fn lemma_refused_instruction_refuses_batch(
    state: LedgerView,
    batch: Seq<InstructionView>,
    index: int,
)
    requires
        0 <= index < batch.len(),
        state.run(batch.take(index)) is Ok,
        state.run(batch.take(index))->Ok_0.step(batch[index]) is Err,
    ensures
        state.run(batch) is Err,
        state.run(batch)->Err_0 == state.run(batch.take(index))->Ok_0.step(batch[index])->Err_0,
        state.commit(batch) is Err,
    decreases index,
{
    if index == 0 {
        assert(batch.take(0).len() == 0);
    } else {
        let prefix = batch.take(index);
        assert(prefix.first() == batch.first());
        assert(prefix.drop_first() == batch.drop_first().take(index - 1));
        let next = state.step(batch.first())->Ok_0;
        assert(batch.drop_first()[index - 1] == batch[index]);
        lemma_refused_instruction_refuses_batch(next, batch.drop_first(), index - 1);
    }
}

/// The kind of an asset is fixed at registration: whatever a batch does, an
/// asset registered before it is registered after it, as the same kind, and
/// so is every account.
pub proof fn lemma_registrations_are_kept(
    state: LedgerView,
    batch: Seq<InstructionView>,
    asset: Seq<char>,
    account: Seq<char>,
)
    requires
        state.run(batch) is Ok,
    ensures
        state.assets.dom().contains(asset) ==> state.run(batch)->Ok_0.assets.dom().contains(asset)
            && state.run(batch)->Ok_0.assets[asset] == state.assets[asset],
        state.accounts.contains(account) ==> state.run(batch)->Ok_0.accounts.contains(account),
    decreases batch.len(),
{
    if batch.len() > 0 {
        let next = state.step(batch.first())->Ok_0;
        lemma_registrations_are_kept(next, batch.drop_first(), asset, account);
    }
}

/// A transfer moves value and creates none: where it is accepted, what the
/// two accounts hold of the asset adds up to what it did before.
pub proof fn lemma_transfer_conserves(
    state: LedgerView,
    from: Seq<char>,
    to: Seq<char>,
    asset: Seq<char>,
    units: nat,
)
    requires
        state.step(InstructionView::Transfer { from, to, asset, units }) is Ok,
    ensures
        ({
            let next = state.step(InstructionView::Transfer { from, to, asset, units })->Ok_0;
            &&& from != to ==> next.balance(from, asset) == state.balance(from, asset) - units
            &&& from != to ==> next.balance(to, asset) == state.balance(to, asset) + units
            &&& from == to ==> next == state
            &&& forall|account: Seq<char>, other: Seq<char>|
                (account != from && account != to) || other != asset ==> #[trigger] next.balance(
                    account,
                    other,
                ) == state.balance(account, other)
        }),
{
}

/// The in-memory ledger.
pub struct Ledger {
    domains: Table<String, ()>,
    accounts: Table<String, ()>,
    assets: Table<String, AssetKind>,
    balances: Table<HoldingKey, u64>,
    records: Table<HoldingKey, Table<String, String>>,
    committed: u64,
}

impl View for Ledger {
    type V = LedgerView;

    closed spec fn view(&self) -> LedgerView {
        LedgerView {
            domains: self.domains.map().dom(),
            accounts: self.accounts.map().dom(),
            assets: self.assets.map(),
            balances: self.balances.map(),
            records: self.records.map(),
            committed: self.committed,
        }
    }
}

fn holding(account: &AccountId, asset: &AssetId) -> (key: HoldingKey)
    ensures
        key.model() == (account@, asset@),
{
    HoldingKey { account: account.as_str().to_owned(), asset: asset.as_str().to_owned() }
}

impl Ledger {
    /// A ledger with nothing registered.
    pub fn new() -> (r: Ledger)
        ensures
            r@ == LedgerView::empty(),
    {
        let r = Ledger {
            domains: Table::new(),
            accounts: Table::new(),
            assets: Table::new(),
            balances: Table::new(),
            records: Table::new(),
            committed: 0,
        };
        assert(r@ =~= LedgerView::empty());
        r
    }

    fn duplicate(&self) -> (r: Ledger)
        ensures
            r@ == self@,
    {
        Ledger {
            domains: self.domains.duplicate(),
            accounts: self.accounts.duplicate(),
            assets: self.assets.duplicate(),
            balances: self.balances.duplicate(),
            records: self.records.duplicate(),
            committed: self.committed,
        }
    }

    /// Whether `domain` is registered.
    pub fn knows_domain(&self, domain: &DomainId) -> (r: bool)
        ensures
            r == self@.domains.contains(domain@),
    {
        self.domains.contains_key(&domain.as_str().to_owned())
    }

    /// Whether `account` is registered.
    pub fn knows_account(&self, account: &AccountId) -> (r: bool)
        ensures
            r == self@.accounts.contains(account@),
    {
        self.accounts.contains_key(&account.as_str().to_owned())
    }

    /// The kind `asset` is registered as, if it is registered.
    pub fn asset_kind(&self, asset: &AssetId) -> (r: Option<AssetKind>)
        ensures
            r is Some <==> self@.assets.dom().contains(asset@),
            r matches Some(kind) ==> kind == self@.assets[asset@],
    {
        match self.assets.get(&asset.as_str().to_owned()) {
            Some(kind) => Some(*kind),
            None => None,
        }
    }

    /// Minor units of `asset` that `account` holds.
    pub fn balance_of(&self, account: &AccountId, asset: &AssetId) -> (r: u64)
        ensures
            r == self@.balance(account@, asset@),
    {
        match self.balances.get(&holding(account, asset)) {
            Some(units) => *units,
            None => 0,
        }
    }

    /// Whether `holder` holds the store asset `asset`.
    pub fn holds(&self, holder: &AccountId, asset: &AssetId) -> (r: bool)
        ensures
            r == self@.holds(holder@, asset@),
    {
        self.records.contains_key(&holding(holder, asset))
    }

    /// The value of attribute `key` on the holding of `holder` in `asset`.
    pub fn attribute(&self, holder: &AccountId, asset: &AssetId, key: &str) -> (r: Option<String>)
        ensures
            r is Some <==> self@.attributes(holder@, asset@).dom().contains(key@),
            r matches Some(value) ==> value@ == self@.attributes(holder@, asset@)[key@],
    {
        match self.records.get(&holding(holder, asset)) {
            Some(attributes) => match attributes.get(&key.to_owned()) {
                Some(value) => Some(value.clone()),
                None => None,
            },
            None => None,
        }
    }

    /// Number of batches committed so far.
    pub fn committed(&self) -> (r: u64)
        ensures
            r == self@.committed,
    {
        self.committed
    }

    fn check(&self, asset: &AssetId, kind: AssetKind, first: &AccountId, second: &AccountId) -> (r:
        Option<SettlementError>)
        ensures
            r == self@.refusal(asset@, kind, first@, second@),
    {
        match self.asset_kind(asset) {
            None => Some(SettlementError::UnknownAsset),
            Some(registered) => {
                if !self.knows_account(first) || !self.knows_account(second) {
                    Some(SettlementError::UnknownAccount)
                } else if registered != kind {
                    Some(SettlementError::RejectedByLedger)
                } else {
                    None
                }
            },
        }
    }

    fn credit(&mut self, to: &AccountId, amount: &Amount) -> (r: Result<(), SettlementError>)
        requires
            old(self)@.refusal(amount@.asset, AssetKind::Numeric, to@, to@) is None,
        ensures
            r == Ok::<(), SettlementError>(()) || r == Err::<(), SettlementError>(
                SettlementError::RejectedByLedger,
            ),
            r is Ok <==> old(self)@.balance(to@, amount@.asset) + amount@.minor_units <= u64::MAX,
            r is Ok ==> final(self)@ == (LedgerView {
                balances: old(self)@.balances.insert(
                    (to@, amount@.asset),
                    (old(self)@.balance(to@, amount@.asset) + amount@.minor_units) as u64,
                ),
                ..old(self)@
            }),
            r is Err ==> final(self)@ == old(self)@,
    {
        let have = self.balance_of(to, &amount.asset);
        if have > u64::MAX - amount.minor_units {
            return Err(SettlementError::RejectedByLedger);
        }
        self.balances.insert(holding(to, &amount.asset), have + amount.minor_units);
        Ok(())
    }

    /// Applies one instruction; a refused instruction changes nothing.
    fn apply(&mut self, instruction: &Instruction) -> (r: Result<(), SettlementError>)
        ensures
            match old(self)@.step(instruction@) {
                Ok(next) => r is Ok && final(self)@ == next,
                Err(error) => r == Err::<(), SettlementError>(error) && final(self)@ == old(self)@,
            },
    {
        match instruction {
            Instruction::RegisterDomain { domain } => {
                let key = domain.as_str().to_owned();
                if self.domains.contains_key(&key) {
                    return Err(SettlementError::RejectedByLedger);
                }
                self.domains.insert(key, ());
                assert(self@ =~= old(self)@.step(instruction@)->Ok_0);
                Ok(())
            },
            Instruction::RegisterAccount { account } => {
                let key = account.as_str().to_owned();
                if self.accounts.contains_key(&key) {
                    return Err(SettlementError::RejectedByLedger);
                }
                self.accounts.insert(key, ());
                assert(self@ =~= old(self)@.step(instruction@)->Ok_0);
                Ok(())
            },
            Instruction::RegisterAsset { asset, kind } => {
                let key = asset.as_str().to_owned();
                if self.assets.contains_key(&key) {
                    return Err(SettlementError::RejectedByLedger);
                }
                self.assets.insert(key, *kind);
                assert(self@ =~= old(self)@.step(instruction@)->Ok_0);
                Ok(())
            },
            Instruction::Mint { to, amount } => {
                match self.check(&amount.asset, AssetKind::Numeric, to, to) {
                    Some(error) => Err(error),
                    None => self.credit(to, amount),
                }
            },
            Instruction::Transfer { from, to, amount } => {
                match self.check(&amount.asset, AssetKind::Numeric, from, to) {
                    Some(error) => {
                        return Err(error);
                    },
                    None => {},
                }
                let have = self.balance_of(from, &amount.asset);
                if have < amount.minor_units {
                    return Err(SettlementError::InsufficientFunds);
                }
                if from.same(to) {
                    return Ok(());
                }
                let held = self.balance_of(to, &amount.asset);
                if held > u64::MAX - amount.minor_units {
                    return Err(SettlementError::RejectedByLedger);
                }
                self.balances.insert(holding(from, &amount.asset), have - amount.minor_units);
                self.balances.insert(holding(to, &amount.asset), held + amount.minor_units);
                assert(self@ =~= old(self)@.step(instruction@)->Ok_0);
                Ok(())
            },
            Instruction::Issue { asset, to, attributes } => {
                match self.check(asset, AssetKind::Store, to, to) {
                    Some(error) => {
                        return Err(error);
                    },
                    None => {},
                }
                let key = holding(to, asset);
                if self.records.contains_key(&key) {
                    return Err(SettlementError::RejectedByLedger);
                }
                self.records.insert(key, attribute_table(attributes));
                assert(self@ =~= old(self)@.step(instruction@)->Ok_0);
                Ok(())
            },
            Instruction::SetAttribute { asset, holder, key, value } => {
                match self.check(asset, AssetKind::Store, holder, holder) {
                    Some(error) => {
                        return Err(error);
                    },
                    None => {},
                }
                let place = holding(holder, asset);
                let mut attributes: Table<String, String> = match self.records.get(&place) {
                    Some(existing) => existing.duplicate(),
                    None => Table::new(),
                };
                attributes.insert(key.clone(), value.clone());
                self.records.insert(place, attributes);
                assert(self@ =~= old(self)@.step(instruction@)->Ok_0);
                Ok(())
            },
        }
    }

    /// Commits `batch` as one unit. Either every instruction takes effect, in
    /// order, and the receipt says so, or the ledger is left exactly as it
    /// was and the error is the one of the first refused instruction.
    pub fn submit(&mut self, batch: &AtomicBatch) -> (r: Result<BatchReceipt, SettlementError>)
        ensures
            match old(self)@.commit(batch@) {
                Ok(next) => r == Ok::<BatchReceipt, SettlementError>(
                    BatchReceipt {
                        sequence: next.committed,
                        instruction_count: batch@.len() as usize,
                    },
                ) && final(self)@ == next,
                Err(error) => r == Err::<BatchReceipt, SettlementError>(error) && final(self)@
                    == old(self)@,
            },
    {
        if self.committed == u64::MAX {
            return Err(SettlementError::RejectedByLedger);
        }
        let mut work = self.duplicate();
        let count = batch.len();
        let mut i: usize = 0;
        assert(batch@.skip(0) == batch@);
        while i < count
            invariant
                i <= count == batch@.len(),
                self@ == old(self)@,
                self@.committed < u64::MAX,
                work@.run(batch@.skip(i as int)) == old(self)@.run(batch@),
            decreases count - i,
        {
            let instruction = batch.get(i).unwrap();
            proof {
                let rest = batch@.skip(i as int);
                assert(rest.first() == batch@[i as int]);
                assert(rest.drop_first() == batch@.skip(i + 1));
            }
            match work.apply(instruction) {
                Ok(()) => {},
                Err(error) => {
                    return Err(error);
                },
            }
            i += 1;
        }
        assert(batch@.skip(count as int).len() == 0);
        work.committed = self.committed + 1;
        *self = work;
        Ok(BatchReceipt { sequence: self.committed, instruction_count: count })
    }

    /// Moves `amount` from `source` to `destination` as a batch of its own.
    pub fn execute_transfer(
        &mut self,
        source: &AccountId,
        destination: &AccountId,
        amount: &Amount,
    ) -> (r: Result<BatchReceipt, SettlementError>)
        ensures
            match old(self)@.commit(
                seq![
                    InstructionView::Transfer {
                        from: source@,
                        to: destination@,
                        asset: amount@.asset,
                        units: amount@.minor_units,
                    },
                ],
            ) {
                Ok(next) => r == Ok::<BatchReceipt, SettlementError>(
                    BatchReceipt { sequence: next.committed, instruction_count: 1 },
                ) && final(self)@ == next,
                Err(error) => r == Err::<BatchReceipt, SettlementError>(error) && final(self)@
                    == old(self)@,
            },
    {
        let batch = AtomicBatch::new(
            Instruction::Transfer {
                from: source.clone(),
                to: destination.clone(),
                amount: amount.clone(),
            },
        );
        self.submit(&batch)
    }
}

/// The table of the attributes of `list`.
fn attribute_table(list: &Vec<Attribute>) -> (r: Table<String, String>)
    ensures
        r.map() == attributes_map(crate::instruction::attributes_view(list@)),
{
    let mut table: Table<String, String> = Table::new();
    let ghost all = crate::instruction::attributes_view(list@);
    let mut i: usize = 0;
    while i < list.len()
        invariant
            i <= list.len(),
            all == crate::instruction::attributes_view(list@),
            table.map() == attributes_map(all.take(i as int)),
        decreases list.len() - i,
    {
        proof {
            let next = all.take(i + 1);
            assert(next.drop_last() == all.take(i as int));
            assert(next.last() == list@[i as int]@);
        }
        table.insert(list[i].key.clone(), list[i].value.clone());
        i += 1;
    }
    assert(all.take(list.len() as int) == all);
    table
}

} // verus!
