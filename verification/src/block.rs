//! The decoded block as the tracker reads it: transactions with their
//! account table, instructions, nested instruction groups and balance
//! snapshots, and the configuration of the tracked mint.

use vstd::prelude::*;

verus! {

/// The tracked mint and the number of decimal digits of its amounts.
#[derive(Clone, Debug, PartialEq, Eq)]
pub struct TokenParams {
    pub token_contract: String,
    pub token_decimals: u32,
}

/// A program invocation: the program and the account arguments by their
/// positions in the transaction's account table, and the raw payload.
#[derive(Clone, Debug, PartialEq, Eq)]
pub struct CompiledInstruction {
    pub program_id_index: u32,
    pub accounts: Vec<u8>,
    pub data: Vec<u8>,
}

/// The instructions that one top-level instruction invoked, with the index of
/// that top-level instruction.
#[derive(Clone, Debug, PartialEq, Eq)]
pub struct InnerInstructions {
    pub index: u32,
    pub instructions: Vec<CompiledInstruction>,
}

/// Owner and mint of a token account before the transaction ran.
#[derive(Clone, Debug, PartialEq, Eq)]
pub struct TokenBalance {
    pub account_index: u32,
    pub mint: String,
    pub owner: String,
}

/// What the chain recorded of a transaction's execution.
#[derive(Clone, Debug, PartialEq, Eq)]
pub struct TransactionStatusMeta {
    pub inner_instructions: Vec<InnerInstructions>,
    pub pre_token_balances: Vec<TokenBalance>,
}

/// The top-level instructions of a transaction.
#[derive(Clone, Debug, PartialEq, Eq)]
pub struct Message {
    pub instructions: Vec<CompiledInstruction>,
}

/// A transaction as signed; the first signature identifies it.
#[derive(Clone, Debug, PartialEq, Eq)]
pub struct Transaction {
    pub signatures: Vec<Vec<u8>>,
    pub message: Option<Message>,
}

/// A transaction of a block, with its resolved account table: the address of
/// every account that its instructions name by position.
#[derive(Clone, Debug, PartialEq, Eq)]
pub struct ConfirmedTransaction {
    pub accounts: Vec<String>,
    pub transaction: Option<Transaction>,
    pub meta: Option<TransactionStatusMeta>,
}

/// A decoded block: its time in seconds since the epoch and its transactions
/// in order.
#[derive(Clone, Debug, PartialEq, Eq)]
pub struct Block {
    pub block_time: Option<i64>,
    pub transactions: Vec<ConfirmedTransaction>,
}

pub struct TokenParamsView {
    pub token_contract: Seq<char>,
    pub token_decimals: u32,
}

pub struct CompiledInstructionView {
    pub program_id_index: u32,
    pub accounts: Seq<u8>,
    pub data: Seq<u8>,
}

pub struct InnerInstructionsView {
    pub index: u32,
    pub instructions: Seq<CompiledInstructionView>,
}

pub struct TokenBalanceView {
    pub account_index: u32,
    pub mint: Seq<char>,
    pub owner: Seq<char>,
}

pub struct TransactionStatusMetaView {
    pub inner_instructions: Seq<InnerInstructionsView>,
    pub pre_token_balances: Seq<TokenBalanceView>,
}

pub struct MessageView {
    pub instructions: Seq<CompiledInstructionView>,
}

pub struct TransactionView {
    pub signatures: Seq<Seq<u8>>,
    pub message: Option<MessageView>,
}

pub struct ConfirmedTransactionView {
    pub accounts: Seq<Seq<char>>,
    pub transaction: Option<TransactionView>,
    pub meta: Option<TransactionStatusMetaView>,
}

pub struct BlockView {
    pub block_time: Option<i64>,
    pub transactions: Seq<ConfirmedTransactionView>,
}

/// The addresses of an account table as texts.
pub open spec fn addresses(table: Seq<String>) -> Seq<Seq<char>> {
    table.map_values(|a: String| a@)
}

impl View for TokenParams {
    type V = TokenParamsView;

    open spec fn view(&self) -> TokenParamsView {
        TokenParamsView { token_contract: self.token_contract@, token_decimals: self.token_decimals }
    }
}

impl View for CompiledInstruction {
    type V = CompiledInstructionView;

    open spec fn view(&self) -> CompiledInstructionView {
        CompiledInstructionView {
            program_id_index: self.program_id_index,
            accounts: self.accounts@,
            data: self.data@,
        }
    }
}

impl View for InnerInstructions {
    type V = InnerInstructionsView;

    open spec fn view(&self) -> InnerInstructionsView {
        InnerInstructionsView {
            index: self.index,
            instructions: self.instructions@.map_values(|i: CompiledInstruction| i@),
        }
    }
}

impl View for TokenBalance {
    type V = TokenBalanceView;

    open spec fn view(&self) -> TokenBalanceView {
        TokenBalanceView { account_index: self.account_index, mint: self.mint@, owner: self.owner@ }
    }
}

impl View for TransactionStatusMeta {
    type V = TransactionStatusMetaView;

    open spec fn view(&self) -> TransactionStatusMetaView {
        TransactionStatusMetaView {
            inner_instructions: self.inner_instructions@.map_values(|g: InnerInstructions| g@),
            pre_token_balances: self.pre_token_balances@.map_values(|b: TokenBalance| b@),
        }
    }
}

impl View for Message {
    type V = MessageView;

    open spec fn view(&self) -> MessageView {
        MessageView { instructions: self.instructions@.map_values(|i: CompiledInstruction| i@) }
    }
}

impl View for Transaction {
    type V = TransactionView;

    open spec fn view(&self) -> TransactionView {
        TransactionView {
            signatures: self.signatures@.map_values(|s: Vec<u8>| s@),
            message: match self.message {
                Some(m) => Some(m@),
                None => None,
            },
        }
    }
}

impl View for ConfirmedTransaction {
    type V = ConfirmedTransactionView;

    open spec fn view(&self) -> ConfirmedTransactionView {
        ConfirmedTransactionView {
            accounts: addresses(self.accounts@),
            transaction: match self.transaction {
                Some(t) => Some(t@),
                None => None,
            },
            meta: match self.meta {
                Some(m) => Some(m@),
                None => None,
            },
        }
    }
}

impl View for Block {
    type V = BlockView;

    open spec fn view(&self) -> BlockView {
        BlockView {
            block_time: self.block_time,
            transactions: self.transactions@.map_values(|t: ConfirmedTransaction| t@),
        }
    }
}

} // verus!
