//! Token-movement events of one configured mint, extracted from decoded
//! Solana blocks: transfers, mints, burns and account initialisations.
//!
//! [`map_solana_token_events`] walks a block transaction by transaction and,
//! within a transaction, top-level instruction by top-level instruction, each
//! followed by the instructions nested under it. Every instruction addressed
//! to the token program is decoded; where it concerns the tracked mint, its
//! event is appended to the output.

pub mod amount;
pub mod base58;
pub mod block;
pub mod constants;
pub mod error;
pub mod events;
pub mod instruction;
pub mod laws;
pub mod utils;
pub mod walk;

pub use crate::amount::{amount_to_decimals, Amount};
pub use crate::block::{
    Block, CompiledInstruction, ConfirmedTransaction, InnerInstructions, Message, TokenBalance,
    TokenParams, Transaction, TransactionStatusMeta,
};
pub use crate::error::Error;
pub use crate::events::{Burn, Event, InitializedAccount, Mint, Output, Transfer};
pub use crate::instruction::TokenInstruction;
pub use crate::utils::{
    extract_event, fetch_account_to, is_token, is_token_program, is_token_transfer,
    process_compiled_instruction, process_inner_instructions, process_instruction,
    process_instructions, process_token_instruction, resolve_account,
};

use crate::base58::encode;
use crate::events::{lemma_record_nothing, OutputView};
use crate::utils::{lemma_performs_step, performs, scope_of};
use crate::walk::{
    block_walk, lemma_chain_of_empty, lemma_chain_stops, lemma_chain_take,
    lemma_followed_by_empty, transaction_walk, transaction_walks, Walk,
};
use vstd::prelude::*;

verus! {

/// Processes one transaction of a block with the given time: its top-level
/// instructions in order, each followed by its nested instructions.
pub fn process_transaction(
    output: &mut Output,
    timestamp: i64,
    confirmed_trx: &ConfirmedTransaction,
    parameters: &TokenParams,
) -> (r: Result<(), Error>)
    ensures
        performs(
            transaction_walk(confirmed_trx@, timestamp, parameters@),
            old(output)@,
            final(output)@,
            r,
        ),
{
    let ghost before = output@;
    proof {
        lemma_record_nothing(before);
    }
    let trx = match &confirmed_trx.transaction {
        None => {
            return Ok(());
        },
        Some(trx) => trx,
    };
    if trx.signatures.len() == 0 {
        return Err(Error::MissingSignature);
    }
    let trx_hash = encode(trx.signatures[0].as_slice());
    let msg = match &trx.message {
        None => {
            return Err(Error::MissingMessage);
        },
        Some(msg) => msg,
    };
    let meta = match &confirmed_trx.meta {
        None => {
            return Err(Error::MissingMeta);
        },
        Some(meta) => meta,
    };
    let accounts = &confirmed_trx.accounts;
    let ghost scope = scope_of(&trx_hash, timestamp, meta, accounts, parameters);
    let ghost views = msg.instructions@.map_values(|i: CompiledInstruction| i@);
    let ghost steps = scope.top_level(views);
    assert(transaction_walk(confirmed_trx@, timestamp, parameters@) == Walk::chain(steps));
    let mut i: usize = 0;
    while i < msg.instructions.len()
        invariant
            i <= msg.instructions.len(),
            steps.len() == msg.instructions.len(),
            scope == scope_of(&trx_hash, timestamp, meta, accounts, parameters),
            views == msg.instructions@.map_values(|i: CompiledInstruction| i@),
            steps == scope.top_level(views),
            transaction_walk(confirmed_trx@, timestamp, parameters@) == Walk::chain(steps),
            before == old(output)@,
            Walk::chain(steps.take(i as int)).failure is None,
            output@ == before.record_all(Walk::chain(steps.take(i as int)).events),
        decreases msg.instructions.len() - i,
    {
        let ghost between = output@;
        let inst = &msg.instructions[i];
        let r = if i <= u32::MAX as usize {
            process_compiled_instruction(
                output,
                timestamp,
                &trx_hash,
                meta,
                i as u32,
                inst,
                accounts,
                parameters,
            )
        } else {
            proof {
                lemma_chain_of_empty(scope.inner_groups(i as int));
                lemma_followed_by_empty(scope.instruction(inst@));
            }
            process_instruction(output, inst, &trx_hash, timestamp, meta, accounts, parameters)
        };
        proof {
            lemma_chain_take(steps, i as int);
            assert(steps[i as int] == scope.compiled_instruction(inst@, i as int));
            lemma_performs_step(
                Walk::chain(steps.take(i as int)),
                steps[i as int],
                before,
                between,
                output@,
                r,
            );
        }
        match r {
            Err(error) => {
                proof {
                    lemma_chain_stops(steps, i + 1);
                }
                return Err(error);
            },
            Ok(()) => {},
        }
        i = i + 1;
    }
    proof {
        assert(steps.take(i as int) =~= steps);
    }
    Ok(())
}

/// Extracts the events of the tracked mint from a block.
///
/// The result is `Ok` with the events of every transaction in order, or the
/// first fatal condition met on the way; then nothing of the block is
/// handed out.
pub fn map_solana_token_events(parameters: TokenParams, block: Block) -> (r: Result<Output, Error>)
    ensures
        match r {
            Ok(output) => block_walk(block@, parameters@).failure is None && output@
                == OutputView::empty().record_all(block_walk(block@, parameters@).events),
            Err(error) => block_walk(block@, parameters@).failure == Some(error),
        },
{
    let mut output = Output::new();
    let timestamp = match block.block_time {
        None => {
            return Err(Error::MissingTimestamp);
        },
        Some(timestamp) => timestamp,
    };
    let ghost steps = transaction_walks(block@.transactions, timestamp, parameters@);
    proof {
        lemma_record_nothing(OutputView::empty());
    }
    let mut i: usize = 0;
    while i < block.transactions.len()
        invariant
            i <= block.transactions.len(),
            steps.len() == block.transactions.len(),
            steps == transaction_walks(block@.transactions, timestamp, parameters@),
            block_walk(block@, parameters@) == Walk::chain(steps),
            Walk::chain(steps.take(i as int)).failure is None,
            output@ == OutputView::empty().record_all(Walk::chain(steps.take(i as int)).events),
        decreases block.transactions.len() - i,
    {
        let ghost between = output@;
        let r = process_transaction(&mut output, timestamp, &block.transactions[i], &parameters);
        proof {
            lemma_chain_take(steps, i as int);
            assert(steps[i as int] == transaction_walk(
                block.transactions[i as int]@,
                timestamp,
                parameters@,
            ));
            lemma_performs_step(
                Walk::chain(steps.take(i as int)),
                steps[i as int],
                OutputView::empty(),
                between,
                output@,
                r,
            );
        }
        match r {
            Err(error) => {
                proof {
                    lemma_chain_stops(steps, i + 1);
                }
                return Err(error);
            },
            Ok(()) => {},
        }
        i = i + 1;
    }
    proof {
        assert(steps.take(i as int) =~= steps);
    }
    Ok(output)
}

} // verus!
