//! What a block's instructions yield, as mathematics: the events in the order
//! of their emission and the first fatal condition, if any.
//!
//! The executable functions of the crate are specified against the functions
//! of this module.

use crate::amount::Amount;
use crate::base58::base58;
use crate::block::{
    BlockView, CompiledInstructionView, ConfirmedTransactionView, InnerInstructionsView,
    TokenBalanceView, TokenParamsView, TransactionStatusMetaView,
};
use crate::constants::TOKEN_PROGRAM;
use crate::error::Error;
use crate::events::{
    BurnView, EventView, InitializedAccountView, MintView, TransferView,
};
use crate::instruction::{unpacked, TokenInstruction};
use vstd::prelude::*;

verus! {

/// The events emitted up to the end of a walk or up to the fatal condition
/// that stopped it.
pub struct Walk {
    pub events: Seq<EventView>,
    pub failure: Option<Error>,
}

impl Walk {
    /// A walk that emits nothing and does not fail.
    pub open spec fn empty() -> Walk {
        Walk { events: Seq::empty(), failure: None }
    }

    /// A walk that fails before it emits anything.
    pub open spec fn failed(error: Error) -> Walk {
        Walk { events: Seq::empty(), failure: Some(error) }
    }

    /// The walk over one instruction with the given outcome.
    pub open spec fn of(outcome: Result<Option<EventView>, Error>) -> Walk {
        match outcome {
            Ok(None) => Walk::empty(),
            Ok(Some(event)) => Walk { events: seq![event], failure: None },
            Err(error) => Walk::failed(error),
        }
    }

    /// This walk and then `next`, unless this walk failed.
    pub open spec fn followed_by(self, next: Walk) -> Walk {
        if self.failure is Some {
            self
        } else {
            Walk { events: self.events + next.events, failure: next.failure }
        }
    }

    /// The walks of `steps` one after the other, up to the first that fails.
    pub open spec fn chain(steps: Seq<Walk>) -> Walk
        decreases steps.len(),
    {
        if steps.len() == 0 {
            Walk::empty()
        } else {
            Walk::chain(steps.drop_last()).followed_by(steps.last())
        }
    }

    /// What a function that performs the walk returns.
    pub open spec fn result(self) -> Result<(), Error> {
        match self.failure {
            None => Ok(()),
            Some(error) => Err(error),
        }
    }
}

/// Which account argument the mint filter of an instruction reads; `None` for
/// an instruction that never yields an event.
pub open spec fn filter_position(instruction: TokenInstruction) -> Option<int> {
    match instruction {
        TokenInstruction::Transfer { .. } => Some(2),
        TokenInstruction::TransferChecked { .. } => Some(1),
        TokenInstruction::MintTo { .. } | TokenInstruction::MintToChecked { .. } => Some(0),
        TokenInstruction::Burn { .. } | TokenInstruction::BurnChecked { .. } => Some(1),
        TokenInstruction::InitializeAccount
        | TokenInstruction::InitializeAccount2 { .. }
        | TokenInstruction::InitializeAccount3 { .. } => Some(1),
        TokenInstruction::Other => None,
    }
}

/// The address that the account argument at `position` names in the account
/// table, where both the position and the index found there are in range.
pub open spec fn account_at(table: Seq<Seq<char>>, inst_accounts: Seq<u8>, position: int) -> Option<
    Seq<char>,
> {
    if 0 <= position < inst_accounts.len() && inst_accounts[position] < table.len() {
        Some(table[inst_accounts[position] as int])
    } else {
        None
    }
}

/// Whether `owner` owns one of the balance snapshots of the mint `mint`.
pub open spec fn holds_mint(balances: Seq<TokenBalanceView>, owner: Seq<char>, mint: Seq<char>) -> bool {
    exists|i: int|
        0 <= i < balances.len() && (#[trigger] balances[i]).owner == owner && balances[i].mint
            == mint
}

/// What an instruction's processing knows of its transaction and of the
/// configuration.
pub struct Scope {
    /// The Base58 text of the transaction's first signature.
    pub trx_hash: Seq<char>,
    /// The block's time.
    pub timestamp: i64,
    pub meta: TransactionStatusMetaView,
    /// The transaction's account table.
    pub accounts: Seq<Seq<char>>,
    pub parameters: TokenParamsView,
}

impl Scope {
    /// The address that the account argument at `position` names in the
    /// transaction's account table.
    pub open spec fn account(self, inst_accounts: Seq<u8>, position: int) -> Option<Seq<char>> {
        account_at(self.accounts, inst_accounts, position)
    }

    /// Whether `owner` owns a balance snapshot of the tracked mint.
    pub open spec fn holds_tracked_mint(self, owner: Seq<char>) -> bool {
        holds_mint(self.meta.pre_token_balances, owner, self.parameters.token_contract)
    }

    /// Whether the mint filter lets the instruction through, given the
    /// address `filtered` at its filter position: for an unchecked transfer
    /// that address is the authority, which must own a balance snapshot of the
    /// tracked mint; for every other instruction it is the mint itself.
    pub open spec fn passes(self, instruction: TokenInstruction, filtered: Seq<char>) -> bool {
        match instruction {
            TokenInstruction::Transfer { .. } => self.holds_tracked_mint(filtered),
            _ => filtered == self.parameters.token_contract,
        }
    }

    /// A raw amount as a decimal quantity of the tracked mint.
    pub open spec fn amount(self, raw: u64) -> Amount {
        Amount { raw, decimals: self.parameters.token_decimals }
    }

    /// The event of an instruction that passed the mint filter, with each
    /// role read from the account argument at the position that the
    /// instruction's layout gives it; `None` where a role cannot be resolved.
    pub open spec fn event(self, instruction: TokenInstruction, inst_accounts: Seq<u8>) -> Option<
        EventView,
    > {
        let at = |position: int| self.account(inst_accounts, position);
        match instruction {
            TokenInstruction::Transfer { amount } => if at(0) is Some && at(1) is Some {
                Some(
                    EventView::Transfer(
                        TransferView {
                            trx_hash: self.trx_hash,
                            timestamp: self.timestamp,
                            from: at(0).unwrap(),
                            to: at(1).unwrap(),
                            amount: self.amount(amount),
                        },
                    ),
                )
            } else {
                None
            },
            TokenInstruction::TransferChecked { amount } => if at(0) is Some && at(2) is Some {
                Some(
                    EventView::Transfer(
                        TransferView {
                            trx_hash: self.trx_hash,
                            timestamp: self.timestamp,
                            from: at(0).unwrap(),
                            to: at(2).unwrap(),
                            amount: self.amount(amount),
                        },
                    ),
                )
            } else {
                None
            },
            TokenInstruction::MintTo { amount } | TokenInstruction::MintToChecked { amount } => {
                if at(1) is Some {
                    Some(
                        EventView::Mint(
                            MintView {
                                trx_hash: self.trx_hash,
                                timestamp: self.timestamp,
                                to: at(1).unwrap(),
                                amount: self.amount(amount),
                            },
                        ),
                    )
                } else {
                    None
                }
            },
            TokenInstruction::Burn { amount } | TokenInstruction::BurnChecked { amount } => {
                if at(0) is Some {
                    Some(
                        EventView::Burn(
                            BurnView {
                                trx_hash: self.trx_hash,
                                timestamp: self.timestamp,
                                from: at(0).unwrap(),
                                amount: self.amount(amount),
                            },
                        ),
                    )
                } else {
                    None
                }
            },
            TokenInstruction::InitializeAccount => if at(0) is Some && at(2) is Some {
                Some(
                    EventView::AccountInitialized(
                        InitializedAccountView {
                            trx_hash: self.trx_hash,
                            account: at(0).unwrap(),
                            mint: self.parameters.token_contract,
                            owner: at(2).unwrap(),
                        },
                    ),
                )
            } else {
                None
            },
            TokenInstruction::InitializeAccount2 { owner }
            | TokenInstruction::InitializeAccount3 { owner } => if at(0) is Some {
                Some(
                    EventView::AccountInitialized(
                        InitializedAccountView {
                            trx_hash: self.trx_hash,
                            account: at(0).unwrap(),
                            mint: self.parameters.token_contract,
                            owner: base58(owner@),
                        },
                    ),
                )
            } else {
                None
            },
            TokenInstruction::Other => None,
        }
    }

    /// What a decoded instruction yields: nothing where it has no mint filter
    /// or does not pass it, its event where it passes, and an error where the
    /// filter's account, or after it a role of the event, cannot be resolved.
    pub open spec fn extract(self, instruction: TokenInstruction, inst_accounts: Seq<u8>) -> Result<
        Option<EventView>,
        Error,
    > {
        match filter_position(instruction) {
            None => Ok(None),
            Some(position) => match self.account(inst_accounts, position) {
                None => Err(Error::AccountOutOfRange),
                Some(filtered) => if !self.passes(instruction, filtered) {
                    Ok(None)
                } else {
                    match self.event(instruction, inst_accounts) {
                        None => Err(Error::AccountOutOfRange),
                        Some(event) => Ok(Some(event)),
                    }
                },
            },
        }
    }

    /// What the payload of an instruction addressed to the token program
    /// yields.
    pub open spec fn token_instruction(self, data: Seq<u8>, inst_accounts: Seq<u8>) -> Result<
        Option<EventView>,
        Error,
    > {
        match unpacked(data) {
            None => Err(Error::DecodeFailure),
            Some(instruction) => self.extract(instruction, inst_accounts),
        }
    }

    /// The walk over one instruction, top-level or nested: it fails where the
    /// program's index is beyond the account table, emits nothing for another
    /// program than the token program, and else yields what the payload does.
    pub open spec fn instruction(self, instruction: CompiledInstructionView) -> Walk {
        if instruction.program_id_index >= self.accounts.len() {
            Walk::failed(Error::AccountOutOfRange)
        } else if self.accounts[instruction.program_id_index as int] != TOKEN_PROGRAM@ {
            Walk::empty()
        } else {
            Walk::of(self.token_instruction(instruction.data, instruction.accounts))
        }
    }

    /// The walk over a list of instructions in order.
    pub open spec fn instructions(self, instructions: Seq<CompiledInstructionView>) -> Walk {
        Walk::chain(instructions.map_values(|i: CompiledInstructionView| self.instruction(i)))
    }

    /// The walk over one group of nested instructions while the top-level
    /// instruction at `index` is processed: the group is in scope only where
    /// it originates from that instruction.
    pub open spec fn inner_group(self, group: InnerInstructionsView, index: int) -> Walk {
        if group.index == index {
            self.instructions(group.instructions)
        } else {
            Walk::empty()
        }
    }

    /// The walks over the transaction's groups of nested instructions, each
    /// as the top-level instruction at `index` sees it.
    pub open spec fn inner_groups(self, index: int) -> Seq<Walk> {
        self.meta.inner_instructions.map_values(|g: InnerInstructionsView| self.inner_group(g, index))
    }

    /// The walk over the nested instructions of the top-level instruction at
    /// `index`.
    pub open spec fn inner_instructions(self, index: int) -> Walk {
        Walk::chain(self.inner_groups(index))
    }

    /// The walk over the top-level instruction at `index` and then over its
    /// nested instructions.
    pub open spec fn compiled_instruction(self, instruction: CompiledInstructionView, index: int) -> Walk {
        self.instruction(instruction).followed_by(self.inner_instructions(index))
    }

    /// The walks over the top-level instructions of a transaction, each with
    /// its nested instructions.
    pub open spec fn top_level(self, instructions: Seq<CompiledInstructionView>) -> Seq<Walk> {
        Seq::new(instructions.len(), |i: int| self.compiled_instruction(instructions[i], i))
    }
}

/// The walk over one transaction of a block with the given time. A
/// transaction without a signed part is passed over; one without a signature,
/// a message or status metadata is fatal.
pub open spec fn transaction_walk(
    transaction: ConfirmedTransactionView,
    timestamp: i64,
    parameters: TokenParamsView,
) -> Walk {
    match transaction.transaction {
        None => Walk::empty(),
        Some(signed) => if signed.signatures.len() == 0 {
            Walk::failed(Error::MissingSignature)
        } else if signed.message is None {
            Walk::failed(Error::MissingMessage)
        } else if transaction.meta is None {
            Walk::failed(Error::MissingMeta)
        } else {
            let scope = Scope {
                trx_hash: base58(signed.signatures[0]),
                timestamp,
                meta: transaction.meta.unwrap(),
                accounts: transaction.accounts,
                parameters,
            };
            Walk::chain(scope.top_level(signed.message.unwrap().instructions))
        },
    }
}

/// The walks over the transactions of a block with the given time.
pub open spec fn transaction_walks(
    transactions: Seq<ConfirmedTransactionView>,
    timestamp: i64,
    parameters: TokenParamsView,
) -> Seq<Walk> {
    transactions.map_values(|t: ConfirmedTransactionView| transaction_walk(t, timestamp, parameters))
}

/// The walk over a block: fatal without a timestamp, else the walks over its
/// transactions in order.
pub open spec fn block_walk(block: BlockView, parameters: TokenParamsView) -> Walk {
    match block.block_time {
        None => Walk::failed(Error::MissingTimestamp),
        Some(timestamp) => Walk::chain(
            transaction_walks(block.transactions, timestamp, parameters),
        ),
    }
}

/// A chain of steps that emit nothing and do not fail does neither.
pub proof fn lemma_chain_of_empty(steps: Seq<Walk>)
    requires
        forall|i: int| 0 <= i < steps.len() ==> steps[i] == Walk::empty(),
    ensures
        Walk::chain(steps) == Walk::empty(),
    decreases steps.len(),
{
    if steps.len() > 0 {
        lemma_chain_of_empty(steps.drop_last());
        assert(Walk::chain(steps).events =~= Seq::empty());
    }
}

/// Following a walk by one that emits nothing and does not fail changes
/// nothing.
pub proof fn lemma_followed_by_empty(walk: Walk)
    ensures
        walk.followed_by(Walk::empty()) == walk,
{
    assert(walk.followed_by(Walk::empty()).events =~= walk.events);
}

/// The chain over the first `k + 1` steps is the chain over the first `k`
/// followed by the next step.
pub proof fn lemma_chain_take(steps: Seq<Walk>, k: int)
    requires
        0 <= k < steps.len(),
    ensures
        Walk::chain(steps.take(k + 1)) == Walk::chain(steps.take(k)).followed_by(steps[k]),
{
    assert(steps.take(k + 1).drop_last() =~= steps.take(k));
}

/// A chain stops at its first failure: the steps after a failed prefix
/// change nothing.
pub proof fn lemma_chain_stops(steps: Seq<Walk>, k: int)
    requires
        0 <= k <= steps.len(),
        Walk::chain(steps.take(k)).failure is Some,
    ensures
        Walk::chain(steps) == Walk::chain(steps.take(k)),
    decreases steps.len() - k,
{
    if k == steps.len() {
        assert(steps.take(k) =~= steps);
    } else {
        let shorter = steps.drop_last();
        assert(shorter.take(k) =~= steps.take(k));
        lemma_chain_stops(shorter, k);
    }
}

} // verus!
