//! The explorer's index of the chain: which block to fetch next, and the
//! rows that a block is stored as.

use vstd::prelude::*;

verus! {

/// Seconds to wait before asking again for a block that is not there yet.
pub const POLL_INTERVAL_SECONDS: u64 = 2;

/// What is recorded of every transaction in the column for its kind.
pub open spec fn command_type_text() -> Seq<char> {
    "Instruction"@
}

/// A transaction of a block, as the indexer reads it.
#[derive(Debug)]
pub struct ChainTransaction {
    pub hash: String,
    pub sender_account_id: String,
    /// The instructions, rendered as text.
    pub instructions: String,
}

/// A block, as the indexer reads it.
#[derive(Debug)]
pub struct ChainBlock {
    pub height: u64,
    pub hash: String,
    pub transactions: Vec<ChainTransaction>,
}

/// The row stored for a block.
#[derive(Debug)]
pub struct BlockRow {
    pub block_height: i64,
    pub block_hash: String,
}

/// The row stored for a transaction.
#[derive(Debug)]
pub struct TransactionRow {
    pub tx_hash: String,
    pub block_height: i64,
    pub sender_account_id: String,
    pub command_type: String,
    pub payload: String,
}

/// Mathematical value of a [`TransactionRow`].
pub struct TransactionRowView {
    pub tx_hash: Seq<char>,
    pub block_height: i64,
    pub sender_account_id: Seq<char>,
    pub command_type: Seq<char>,
    pub payload: Seq<char>,
}

impl View for TransactionRow {
    type V = TransactionRowView;

    open spec fn view(&self) -> TransactionRowView {
        TransactionRowView {
            tx_hash: self.tx_hash@,
            block_height: self.block_height,
            sender_account_id: self.sender_account_id@,
            command_type: self.command_type@,
            payload: self.payload@,
        }
    }
}

/// The row of `transaction` in the block at `height`.
pub open spec fn row_of(transaction: ChainTransaction, height: i64) -> TransactionRowView {
    TransactionRowView {
        tx_hash: transaction.hash@,
        block_height: height,
        sender_account_id: transaction.sender_account_id@,
        command_type: command_type_text(),
        payload: transaction.instructions@,
    }
}

/// The rows of `transactions` in the block at `height`, in their order.
pub open spec fn rows_of(transactions: Seq<ChainTransaction>, height: i64) -> Seq<
    TransactionRowView,
> {
    transactions.map_values(|t: ChainTransaction| row_of(t, height))
}

/// The rows stored for a block.
#[derive(Debug)]
pub struct BlockRows {
    pub block: BlockRow,
    pub transactions: Vec<TransactionRow>,
}

/// The rows to store for `block`: one for the block, then one for each of
/// its transactions in their order. A height beyond what the store's signed
/// column holds has no rows.
pub fn save_block_to_db(block: &ChainBlock) -> (r: Option<BlockRows>)
    ensures
        r is Some <==> block.height <= i64::MAX,
        r matches Some(rows) ==> {
            &&& rows.block.block_height == block.height
            &&& rows.block.block_hash@ == block.hash@
            &&& rows.transactions@.map_values(|row: TransactionRow| row@) == rows_of(
                block.transactions@,
                block.height as i64,
            )
        },
{
    if block.height > i64::MAX as u64 {
        return None;
    }
    let height = block.height as i64;
    let mut transactions: Vec<TransactionRow> = Vec::new();
    let mut i: usize = 0;
    while i < block.transactions.len()
        invariant
            i <= block.transactions.len(),
            transactions@.len() == i,
            height == block.height,
            transactions@.map_values(|row: TransactionRow| row@) == rows_of(
                block.transactions@.take(i as int),
                height,
            ),
        decreases block.transactions.len() - i,
    {
        let transaction = &block.transactions[i];
        let ghost before = transactions@;
        transactions.push(
            TransactionRow {
                tx_hash: transaction.hash.clone(),
                block_height: height,
                sender_account_id: transaction.sender_account_id.clone(),
                command_type: "Instruction".to_owned(),
                payload: transaction.instructions.clone(),
            },
        );
        proof {
            let rows = transactions@.map_values(|row: TransactionRow| row@);
            let expected = rows_of(block.transactions@.take(i + 1), height);
            assert(rows.len() == expected.len());
            assert forall|k: int| 0 <= k < rows.len() implies rows[k] == expected[k] by {
                if k < i {
                    assert(transactions@[k] == before[k]);
                    assert(before.map_values(|row: TransactionRow| row@)[k] == rows_of(
                        block.transactions@.take(i as int),
                        height,
                    )[k]);
                }
            }
            assert(rows == expected);
        }
        i += 1;
    }
    assert(block.transactions@.take(block.transactions.len() as int) == block.transactions@);
    Some(
        BlockRows {
            block: BlockRow { block_height: height, block_hash: block.hash.clone() },
            transactions,
        },
    )
}

/// What the indexer does after asking for the next block.
#[derive(Clone, Copy, Debug, PartialEq, Eq, Structural)]
pub enum IndexStep {
    /// The block at `height` was there: store it and go on.
    Indexed { height: u64 },
    /// No new block: wait this many seconds and ask again.
    Wait { seconds: u64 },
}

/// How far the explorer has indexed the chain.
#[derive(Clone, Copy, Debug, PartialEq, Eq, Structural)]
pub struct ExplorerIndexer {
    pub last_height: u64,
}

impl ExplorerIndexer {
    /// An indexer that has indexed the chain up to `last_height`.
    pub fn new(last_height: u64) -> (r: ExplorerIndexer)
        ensures
            r.last_height == last_height,
    {
        ExplorerIndexer { last_height }
    }

    /// The height of the block to ask for next, if there can be one.
    pub fn next_height(&self) -> (r: Option<u64>)
        ensures
            r == if self.last_height < u64::MAX {
                Some((self.last_height + 1) as u64)
            } else {
                None
            },
    {
        self.last_height.checked_add(1)
    }

    /// One step of syncing, after the next block was asked for: if it was
    /// there, the indexer moves on to it; if not, it stays and waits.
    pub fn start_syncing(&mut self, block_found: bool) -> (r: IndexStep)
        ensures
            block_found && old(self).last_height < u64::MAX ==> final(self).last_height == old(
                self,
            ).last_height + 1 && r == (IndexStep::Indexed { height: final(self).last_height }),
            !(block_found && old(self).last_height < u64::MAX) ==> *final(self) == *old(self) && r
                == (IndexStep::Wait { seconds: POLL_INTERVAL_SECONDS }),
    {
        match self.next_height() {
            Some(height) => {
                if block_found {
                    self.last_height = height;
                    IndexStep::Indexed { height }
                } else {
                    IndexStep::Wait { seconds: POLL_INTERVAL_SECONDS }
                }
            },
            None => IndexStep::Wait { seconds: POLL_INTERVAL_SECONDS },
        }
    }
}

} // verus!
