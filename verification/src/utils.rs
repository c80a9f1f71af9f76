//! Classification of token-program instructions and extraction of their
//! events, instruction by instruction.

use crate::amount::amount_to_decimals;
use crate::base58::encode;
use crate::block::{
    addresses, CompiledInstruction, CompiledInstructionView, TokenBalance, TokenParams,
    TransactionStatusMeta,
};
use crate::constants::TOKEN_PROGRAM;
use crate::error::Error;
use crate::events::{
    lemma_record_concat, lemma_record_nothing, lemma_record_push, Burn, Event, EventView,
    InitializedAccount, Mint, Output, OutputView, Transfer,
};
use crate::instruction::{unpack, TokenInstruction};
use crate::walk::{
    account_at, filter_position, holds_mint, lemma_chain_stops, lemma_chain_take, Scope, Walk,
};
use vstd::prelude::*;

verus! {

/// The scope in which the instructions of a transaction are processed.
pub open spec fn scope_of(
    trx_hash: &String,
    timestamp: i64,
    meta: &TransactionStatusMeta,
    accounts: &Vec<String>,
    parameters: &TokenParams,
) -> Scope {
    Scope {
        trx_hash: trx_hash@,
        timestamp,
        meta: meta@,
        accounts: addresses(accounts@),
        parameters: parameters@,
    }
}

/// The outcome of an extraction with its event seen as mathematics.
pub open spec fn outcome_view(outcome: Result<Option<Event>, Error>) -> Result<
    Option<EventView>,
    Error,
> {
    match outcome {
        Ok(Some(event)) => Ok(Some(event@)),
        Ok(None) => Ok(None),
        Err(error) => Err(error),
    }
}

/// That a function performed `walk`: it appended the walk's events to the
/// output, each to the list of its kind, and returned the walk's failure.
pub open spec fn performs(
    walk: Walk,
    before: OutputView,
    after: OutputView,
    result: Result<(), Error>,
) -> bool {
    after == before.record_all(walk.events) && result == walk.result()
}

/// The address at `position` of the account table.
pub fn fetch_account_to(account_keys: &Vec<String>, position: u8) -> (r: Result<String, Error>)
    ensures
        match r {
            Ok(address) => position < account_keys.len() && address@
                == account_keys[position as int]@,
            Err(error) => position >= account_keys.len() && error == Error::AccountOutOfRange,
        },
{
    let index = position as usize;
    if index < account_keys.len() {
        Ok(account_keys[index].clone())
    } else {
        Err(Error::AccountOutOfRange)
    }
}

/// The address that the instruction's account argument at `position` names.
pub fn resolve_account(accounts: &Vec<String>, inst_accounts: &Vec<u8>, position: usize) -> (r:
    Result<String, Error>)
    ensures
        match r {
            Ok(address) => account_at(addresses(accounts@), inst_accounts@, position as int)
                == Some(address@),
            Err(error) => error == Error::AccountOutOfRange && account_at(
                addresses(accounts@),
                inst_accounts@,
                position as int,
            ) is None,
        },
{
    if position < inst_accounts.len() {
        fetch_account_to(accounts, inst_accounts[position])
    } else {
        Err(Error::AccountOutOfRange)
    }
}

/// Whether `account` is the tracked mint.
pub fn is_token(account: &String, contract_address: &String) -> (r: bool)
    ensures
        r == (account@ == contract_address@),
{
    account.eq(contract_address)
}

/// Whether `account` is the token program.
pub fn is_token_program(account: &String) -> (r: bool)
    ensures
        r == (account@ == TOKEN_PROGRAM@),
{
    let program = TOKEN_PROGRAM.to_owned();
    account.eq(&program)
}

/// Whether `account` owns a balance snapshot of the tracked mint.
pub fn is_token_transfer(
    pre_token_balances: &Vec<TokenBalance>,
    account: &String,
    contract_address: &String,
) -> (r: bool)
    ensures
        r == holds_mint(
            pre_token_balances@.map_values(|b: TokenBalance| b@),
            account@,
            contract_address@,
        ),
{
    let ghost balances = pre_token_balances@.map_values(|b: TokenBalance| b@);
    let mut i: usize = 0;
    while i < pre_token_balances.len()
        invariant
            i <= pre_token_balances.len(),
            balances == pre_token_balances@.map_values(|b: TokenBalance| b@),
            forall|j: int|
                0 <= j < i ==> !((#[trigger] balances[j]).owner == account@ && balances[j].mint
                    == contract_address@),
        decreases pre_token_balances.len() - i,
    {
        let token_balance = &pre_token_balances[i];
        if token_balance.owner.eq(account) && token_balance.mint.eq(contract_address) {
            assert(balances[i as int].owner == account@ && balances[i as int].mint
                == contract_address@);
            return true;
        }
        i = i + 1;
    }
    false
}

/// Which account argument the mint filter of `instruction` reads.
pub fn mint_filter_position(instruction: &TokenInstruction) -> (r: Option<usize>)
    ensures
        match r {
            Some(position) => filter_position(*instruction) == Some(position as int),
            None => filter_position(*instruction) is None,
        },
{
    match instruction {
        TokenInstruction::Transfer { .. } => Some(2),
        TokenInstruction::TransferChecked { .. } => Some(1),
        TokenInstruction::MintTo { .. } | TokenInstruction::MintToChecked { .. } => Some(0),
        TokenInstruction::Burn { .. } | TokenInstruction::BurnChecked { .. } => Some(1),
        TokenInstruction::InitializeAccount
        | TokenInstruction::InitializeAccount2 { .. }
        | TokenInstruction::InitializeAccount3 { .. } => Some(1),
        TokenInstruction::Other => None,
    }
}

/// Decides whether a decoded instruction concerns the tracked mint and, if
/// so, builds its event.
pub fn extract_event(
    instruction: &TokenInstruction,
    inst_accounts: &Vec<u8>,
    trx_hash: &String,
    timestamp: i64,
    meta: &TransactionStatusMeta,
    accounts: &Vec<String>,
    parameters: &TokenParams,
) -> (r: Result<Option<Event>, Error>)
    ensures
        outcome_view(r) == scope_of(trx_hash, timestamp, meta, accounts, parameters).extract(
            *instruction,
            inst_accounts@,
        ),
{
    let position = match mint_filter_position(instruction) {
        None => {
            return Ok(None);
        },
        Some(position) => position,
    };
    let filtered = match resolve_account(accounts, inst_accounts, position) {
        Err(error) => {
            return Err(error);
        },
        Ok(address) => address,
    };
    let passes = match instruction {
        TokenInstruction::Transfer { .. } => is_token_transfer(
            &meta.pre_token_balances,
            &filtered,
            &parameters.token_contract,
        ),
        _ => is_token(&filtered, &parameters.token_contract),
    };
    if !passes {
        return Ok(None);
    }
    match instruction {
        TokenInstruction::Transfer { amount } => {
            let from = match resolve_account(accounts, inst_accounts, 0) {
                Err(error) => {
                    return Err(error);
                },
                Ok(address) => address,
            };
            let to = match resolve_account(accounts, inst_accounts, 1) {
                Err(error) => {
                    return Err(error);
                },
                Ok(address) => address,
            };
            Ok(
                Some(
                    Event::Transfer(
                        Transfer {
                            trx_hash: trx_hash.clone(),
                            timestamp,
                            from,
                            to,
                            amount: amount_to_decimals(*amount, parameters.token_decimals),
                        },
                    ),
                ),
            )
        },
        TokenInstruction::TransferChecked { amount } => {
            let from = match resolve_account(accounts, inst_accounts, 0) {
                Err(error) => {
                    return Err(error);
                },
                Ok(address) => address,
            };
            let to = match resolve_account(accounts, inst_accounts, 2) {
                Err(error) => {
                    return Err(error);
                },
                Ok(address) => address,
            };
            Ok(
                Some(
                    Event::Transfer(
                        Transfer {
                            trx_hash: trx_hash.clone(),
                            timestamp,
                            from,
                            to,
                            amount: amount_to_decimals(*amount, parameters.token_decimals),
                        },
                    ),
                ),
            )
        },
        TokenInstruction::MintTo { amount } | TokenInstruction::MintToChecked { amount } => {
            let to = match resolve_account(accounts, inst_accounts, 1) {
                Err(error) => {
                    return Err(error);
                },
                Ok(address) => address,
            };
            Ok(
                Some(
                    Event::Mint(
                        Mint {
                            trx_hash: trx_hash.clone(),
                            timestamp,
                            to,
                            amount: amount_to_decimals(*amount, parameters.token_decimals),
                        },
                    ),
                ),
            )
        },
        TokenInstruction::Burn { amount } | TokenInstruction::BurnChecked { amount } => {
            let from = match resolve_account(accounts, inst_accounts, 0) {
                Err(error) => {
                    return Err(error);
                },
                Ok(address) => address,
            };
            Ok(
                Some(
                    Event::Burn(
                        Burn {
                            trx_hash: trx_hash.clone(),
                            timestamp,
                            from,
                            amount: amount_to_decimals(*amount, parameters.token_decimals),
                        },
                    ),
                ),
            )
        },
        TokenInstruction::InitializeAccount => {
            let account = match resolve_account(accounts, inst_accounts, 0) {
                Err(error) => {
                    return Err(error);
                },
                Ok(address) => address,
            };
            let owner = match resolve_account(accounts, inst_accounts, 2) {
                Err(error) => {
                    return Err(error);
                },
                Ok(address) => address,
            };
            Ok(
                Some(
                    Event::AccountInitialized(
                        InitializedAccount {
                            trx_hash: trx_hash.clone(),
                            account,
                            mint: filtered,
                            owner,
                        },
                    ),
                ),
            )
        },
        TokenInstruction::InitializeAccount2 { owner }
        | TokenInstruction::InitializeAccount3 { owner } => {
            let account = match resolve_account(accounts, inst_accounts, 0) {
                Err(error) => {
                    return Err(error);
                },
                Ok(address) => address,
            };
            Ok(
                Some(
                    Event::AccountInitialized(
                        InitializedAccount {
                            trx_hash: trx_hash.clone(),
                            account,
                            mint: filtered,
                            owner: encode(owner.as_slice()),
                        },
                    ),
                ),
            )
        },
        TokenInstruction::Other => Ok(None),
    }
}

/// Decodes the payload of an instruction addressed to the token program and
/// records its event, if it has one for the tracked mint.
pub fn process_token_instruction(
    trx_hash: &String,
    timestamp: i64,
    data: &Vec<u8>,
    inst_accounts: &Vec<u8>,
    meta: &TransactionStatusMeta,
    accounts: &Vec<String>,
    output: &mut Output,
    parameters: &TokenParams,
) -> (r: Result<(), Error>)
    ensures
        performs(
            Walk::of(
                scope_of(trx_hash, timestamp, meta, accounts, parameters).token_instruction(
                    data@,
                    inst_accounts@,
                ),
            ),
            old(output)@,
            final(output)@,
            r,
        ),
{
    proof {
        lemma_record_nothing(output@);
    }
    match unpack(data.as_slice()) {
        None => Err(Error::DecodeFailure),
        Some(instruction) => match extract_event(
            &instruction,
            inst_accounts,
            trx_hash,
            timestamp,
            meta,
            accounts,
            parameters,
        ) {
            Err(error) => Err(error),
            Ok(None) => Ok(()),
            Ok(Some(event)) => {
                proof {
                    lemma_record_push(output@, Seq::empty(), event@);
                    assert(Seq::<EventView>::empty().push(event@) =~= seq![event@]);
                }
                output.record(event);
                Ok(())
            },
        },
    }
}

/// Processes one instruction, top-level or nested: if it is addressed to the
/// token program, its payload is decoded and its event recorded.
pub fn process_instruction(
    output: &mut Output,
    inst: &CompiledInstruction,
    trx_hash: &String,
    timestamp: i64,
    meta: &TransactionStatusMeta,
    accounts: &Vec<String>,
    parameters: &TokenParams,
) -> (r: Result<(), Error>)
    ensures
        performs(
            scope_of(trx_hash, timestamp, meta, accounts, parameters).instruction(inst@),
            old(output)@,
            final(output)@,
            r,
        ),
{
    proof {
        lemma_record_nothing(output@);
    }
    let index = inst.program_id_index as usize;
    if index >= accounts.len() {
        return Err(Error::AccountOutOfRange);
    }
    if !is_token_program(&accounts[index]) {
        return Ok(());
    }
    process_token_instruction(
        trx_hash,
        timestamp,
        &inst.data,
        &inst.accounts,
        meta,
        accounts,
        output,
        parameters,
    )
}

/// Performing `step` after a walk that did not fail performs the two in a
/// row.
pub proof fn lemma_performs_step(
    done: Walk,
    step: Walk,
    before: OutputView,
    between: OutputView,
    after: OutputView,
    result: Result<(), Error>,
)
    requires
        done.failure is None,
        between == before.record_all(done.events),
        performs(step, between, after, result),
    ensures
        performs(done.followed_by(step), before, after, result),
{
    lemma_record_concat(before, done.events, step.events);
}

/// Processes a list of instructions in order, up to the first that is fatal.
pub fn process_instructions(
    output: &mut Output,
    instructions: &Vec<CompiledInstruction>,
    trx_hash: &String,
    timestamp: i64,
    meta: &TransactionStatusMeta,
    accounts: &Vec<String>,
    parameters: &TokenParams,
) -> (r: Result<(), Error>)
    ensures
        performs(
            scope_of(trx_hash, timestamp, meta, accounts, parameters).instructions(
                instructions@.map_values(|i: CompiledInstruction| i@),
            ),
            old(output)@,
            final(output)@,
            r,
        ),
{
    let ghost before = output@;
    let ghost scope = scope_of(trx_hash, timestamp, meta, accounts, parameters);
    let ghost views = instructions@.map_values(|i: CompiledInstruction| i@);
    let ghost steps = views.map_values(|i: CompiledInstructionView| scope.instruction(i));
    proof {
        lemma_record_nothing(before);
    }
    let mut i: usize = 0;
    while i < instructions.len()
        invariant
            i <= instructions.len(),
            steps.len() == instructions.len(),
            scope == scope_of(trx_hash, timestamp, meta, accounts, parameters),
            views == instructions@.map_values(|i: CompiledInstruction| i@),
            steps == views.map_values(|i: CompiledInstructionView| scope.instruction(i)),
            before == old(output)@,
            Walk::chain(steps.take(i as int)).failure is None,
            output@ == before.record_all(Walk::chain(steps.take(i as int)).events),
        decreases instructions.len() - i,
    {
        let ghost between = output@;
        let r = process_instruction(
            output,
            &instructions[i],
            trx_hash,
            timestamp,
            meta,
            accounts,
            parameters,
        );
        proof {
            lemma_chain_take(steps, i as int);
            assert(steps[i as int] == scope.instruction(instructions[i as int]@));
            lemma_performs_step(
                Walk::chain(steps.take(i as int)),
                steps[i as int],
                before,
                between,
                output@,
                r,
            );
        }
        match r {
            Err(error) => {
                proof {
                    lemma_chain_stops(steps, i + 1);
                }
                return Err(error);
            },
            Ok(()) => {},
        }
        i = i + 1;
    }
    proof {
        assert(steps.take(i as int) =~= steps);
    }
    Ok(())
}

/// Processes the nested instructions of the top-level instruction at
/// `instruction_index`: every group that originates from it, in order, and
/// within a group every instruction addressed to the token program.
pub fn process_inner_instructions(
    output: &mut Output,
    instruction_index: u32,
    meta: &TransactionStatusMeta,
    accounts: &Vec<String>,
    trx_hash: &String,
    timestamp: i64,
    parameters: &TokenParams,
) -> (r: Result<(), Error>)
    ensures
        performs(
            scope_of(trx_hash, timestamp, meta, accounts, parameters).inner_instructions(
                instruction_index as int,
            ),
            old(output)@,
            final(output)@,
            r,
        ),
{
    let ghost before = output@;
    let ghost scope = scope_of(trx_hash, timestamp, meta, accounts, parameters);
    let ghost steps = scope.inner_groups(instruction_index as int);
    proof {
        lemma_record_nothing(before);
    }
    let mut g: usize = 0;
    while g < meta.inner_instructions.len()
        invariant
            g <= meta.inner_instructions.len(),
            steps.len() == meta.inner_instructions.len(),
            scope == scope_of(trx_hash, timestamp, meta, accounts, parameters),
            steps == scope.inner_groups(instruction_index as int),
            before == old(output)@,
            Walk::chain(steps.take(g as int)).failure is None,
            output@ == before.record_all(Walk::chain(steps.take(g as int)).events),
        decreases meta.inner_instructions.len() - g,
    {
        let ghost between = output@;
        let group = &meta.inner_instructions[g];
        let r = if group.index == instruction_index {
            process_instructions(
                output,
                &group.instructions,
                trx_hash,
                timestamp,
                meta,
                accounts,
                parameters,
            )
        } else {
            proof {
                lemma_record_nothing(between);
            }
            Ok(())
        };
        proof {
            lemma_chain_take(steps, g as int);
            assert(steps[g as int] == scope.inner_group(group@, instruction_index as int));
            lemma_performs_step(
                Walk::chain(steps.take(g as int)),
                steps[g as int],
                before,
                between,
                output@,
                r,
            );
        }
        match r {
            Err(error) => {
                proof {
                    lemma_chain_stops(steps, g + 1);
                }
                return Err(error);
            },
            Ok(()) => {},
        }
        g = g + 1;
    }
    proof {
        assert(steps.take(g as int) =~= steps);
    }
    Ok(())
}

/// Processes the top-level instruction at `inst_index` of a transaction and
/// then its nested instructions.
pub fn process_compiled_instruction(
    output: &mut Output,
    timestamp: i64,
    trx_hash: &String,
    meta: &TransactionStatusMeta,
    inst_index: u32,
    inst: &CompiledInstruction,
    accounts: &Vec<String>,
    parameters: &TokenParams,
) -> (r: Result<(), Error>)
    ensures
        performs(
            scope_of(trx_hash, timestamp, meta, accounts, parameters).compiled_instruction(
                inst@,
                inst_index as int,
            ),
            old(output)@,
            final(output)@,
            r,
        ),
{
    let ghost before = output@;
    let ghost scope = scope_of(trx_hash, timestamp, meta, accounts, parameters);
    match process_instruction(output, inst, trx_hash, timestamp, meta, accounts, parameters) {
        Err(error) => {
            return Err(error);
        },
        Ok(()) => {},
    }
    let ghost between = output@;
    let r = process_inner_instructions(
        output,
        inst_index,
        meta,
        accounts,
        trx_hash,
        timestamp,
        parameters,
    );
    proof {
        lemma_performs_step(
            scope.instruction(inst@),
            scope.inner_instructions(inst_index as int),
            before,
            between,
            output@,
            r,
        );
    }
    r
}

} // verus!
