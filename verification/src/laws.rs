//! What holds of the tracker for every transaction and every block.

use crate::amount::Amount;
use crate::base58::base58;
use crate::block::{
    BlockView, CompiledInstructionView, ConfirmedTransactionView, InnerInstructionsView,
    TokenParamsView, TransactionStatusMetaView,
};
use crate::constants::TOKEN_PROGRAM;
use crate::error::Error;
use crate::events::{
    burns_of, initialized_accounts_of, lemma_kinds_of_concat, lemma_record_concat,
    lemma_record_nothing, mints_of, transfers_of, EventView, InitializedAccountView, OutputView,
    TransferView,
};
use crate::instruction::{unpacked, TokenInstruction};
use crate::walk::{
    block_walk, filter_position, lemma_chain_of_empty, lemma_chain_stops, lemma_chain_take,
    lemma_followed_by_empty, transaction_walk, transaction_walks, Scope, Walk,
};
use vstd::prelude::*;

verus! {

/// The scope in which the instructions of a transaction are processed, given
/// that the transaction has a signature and status metadata.
pub open spec fn transaction_scope(
    transaction: ConfirmedTransactionView,
    timestamp: i64,
    parameters: TokenParamsView,
) -> Scope {
    Scope {
        trx_hash: base58(transaction.transaction.unwrap().signatures[0]),
        timestamp,
        meta: transaction.meta.unwrap(),
        accounts: transaction.accounts,
        parameters,
    }
}

/// That a transaction has exactly one top-level instruction, addressed to the
/// token program, and that nothing nested under it emits an event or fails.
pub open spec fn sole_token_instruction(
    transaction: ConfirmedTransactionView,
    timestamp: i64,
    parameters: TokenParamsView,
) -> bool {
    let scope = transaction_scope(transaction, timestamp, parameters);
    &&& transaction.transaction is Some
    &&& transaction.transaction.unwrap().signatures.len() > 0
    &&& transaction.transaction.unwrap().message is Some
    &&& transaction.meta is Some
    &&& transaction.transaction.unwrap().message.unwrap().instructions.len() == 1
    &&& sole_instruction(transaction).program_id_index < transaction.accounts.len()
    &&& transaction.accounts[sole_instruction(transaction).program_id_index as int]
        == TOKEN_PROGRAM@
    &&& scope.inner_instructions(0) == Walk::empty()
}

/// The first top-level instruction of a transaction.
pub open spec fn sole_instruction(transaction: ConfirmedTransactionView) -> CompiledInstructionView {
    transaction.transaction.unwrap().message.unwrap().instructions[0]
}

/// The walk over a transaction with one top-level instruction is the walk
/// over that instruction and what is nested under it.
proof fn lemma_sole_instruction(
    transaction: ConfirmedTransactionView,
    timestamp: i64,
    parameters: TokenParamsView,
)
    requires
        sole_token_instruction(transaction, timestamp, parameters),
    ensures
        transaction_walk(transaction, timestamp, parameters) == Walk::of(
            transaction_scope(transaction, timestamp, parameters).token_instruction(
                sole_instruction(transaction).data,
                sole_instruction(transaction).accounts,
            ),
        ),
{
    let scope = transaction_scope(transaction, timestamp, parameters);
    let instruction = sole_instruction(transaction);
    let steps = scope.top_level(transaction.transaction.unwrap().message.unwrap().instructions);
    let own = scope.instruction(instruction);
    assert(steps.len() == 1);
    assert(steps[0] == own.followed_by(scope.inner_instructions(0)));
    lemma_followed_by_empty(own);
    assert(steps.drop_last() =~= Seq::<Walk>::empty());
    assert(Walk::chain(steps.drop_last()) == Walk::empty());
    assert(Walk::chain(steps) == Walk::empty().followed_by(own));
    assert(Walk::empty().followed_by(own).events =~= own.events);
}

/// A block with one transaction yields what that transaction yields at the
/// block's time.
pub proof fn law_block_of_one_transaction(block: BlockView, parameters: TokenParamsView)
    requires
        block.block_time is Some,
        block.transactions.len() == 1,
    ensures
        block_walk(block, parameters) == transaction_walk(
            block.transactions[0],
            block.block_time.unwrap(),
            parameters,
        ),
{
    let steps = transaction_walks(block.transactions, block.block_time.unwrap(), parameters);
    assert(steps.drop_last() =~= Seq::<Walk>::empty());
    assert(Walk::chain(steps.drop_last()) == Walk::empty());
    assert(Walk::empty().followed_by(steps[0]).events =~= steps[0].events);
}

/// A transaction whose only top-level instruction is a `TransferChecked` of
/// the tracked mint yields exactly one transfer: from the account at
/// position 0 to the account at position 2, of the decoded amount as a
/// decimal quantity, under the Base58 text of the first signature and the
/// time of the block.
pub proof fn law_sole_transfer_checked(
    transaction: ConfirmedTransactionView,
    timestamp: i64,
    parameters: TokenParamsView,
    amount: u64,
    from: Seq<char>,
    to: Seq<char>,
)
    requires
        sole_token_instruction(transaction, timestamp, parameters),
        unpacked(sole_instruction(transaction).data) == Some(
            TokenInstruction::TransferChecked { amount },
        ),
        transaction_scope(transaction, timestamp, parameters).account(
            sole_instruction(transaction).accounts,
            0,
        ) == Some(from),
        transaction_scope(transaction, timestamp, parameters).account(
            sole_instruction(transaction).accounts,
            1,
        ) == Some(parameters.token_contract),
        transaction_scope(transaction, timestamp, parameters).account(
            sole_instruction(transaction).accounts,
            2,
        ) == Some(to),
    ensures
        transaction_walk(transaction, timestamp, parameters).failure is None,
        transaction_walk(transaction, timestamp, parameters).events == seq![
            EventView::Transfer(
                TransferView {
                    trx_hash: base58(transaction.transaction.unwrap().signatures[0]),
                    timestamp,
                    from,
                    to,
                    amount: Amount { raw: amount, decimals: parameters.token_decimals },
                },
            ),
        ],
        OutputView::empty().record_all(
            transaction_walk(transaction, timestamp, parameters).events,
        ) == (OutputView {
            transfers: seq![
                TransferView {
                    trx_hash: base58(transaction.transaction.unwrap().signatures[0]),
                    timestamp,
                    from,
                    to,
                    amount: Amount { raw: amount, decimals: parameters.token_decimals },
                },
            ],
            mints: Seq::empty(),
            burns: Seq::empty(),
            initialized_account: Seq::empty(),
        }),
{
    lemma_sole_instruction(transaction, timestamp, parameters);
    let events = transaction_walk(transaction, timestamp, parameters).events;
    assert(events.drop_last() =~= Seq::<EventView>::empty());
    reveal_with_fuel(transfers_of, 2);
    reveal_with_fuel(mints_of, 2);
    reveal_with_fuel(burns_of, 2);
    reveal_with_fuel(initialized_accounts_of, 2);
    let recorded = OutputView::empty().record_all(events);
    assert(recorded.transfers =~= seq![events[0]->Transfer_0]);
    assert(recorded.mints =~= Seq::empty());
    assert(recorded.burns =~= Seq::empty());
    assert(recorded.initialized_account =~= Seq::empty());
}

/// A transaction whose only top-level instruction is a `TransferChecked` of
/// another mint than the tracked one yields no event in any of the four
/// lists, and is no error.
pub proof fn law_other_mint_yields_nothing(
    transaction: ConfirmedTransactionView,
    timestamp: i64,
    parameters: TokenParamsView,
    amount: u64,
    mint: Seq<char>,
)
    requires
        sole_token_instruction(transaction, timestamp, parameters),
        unpacked(sole_instruction(transaction).data) == Some(
            TokenInstruction::TransferChecked { amount },
        ),
        transaction_scope(transaction, timestamp, parameters).account(
            sole_instruction(transaction).accounts,
            1,
        ) == Some(mint),
        mint != parameters.token_contract,
    ensures
        transaction_walk(transaction, timestamp, parameters) == Walk::empty(),
        OutputView::empty().record_all(
            transaction_walk(transaction, timestamp, parameters).events,
        ) == OutputView::empty(),
{
    lemma_sole_instruction(transaction, timestamp, parameters);
    lemma_record_nothing(OutputView::empty());
}

/// A group of nested instructions that originates from another top-level
/// instruction than the one being processed contributes nothing, whatever
/// its instructions are.
pub proof fn law_foreign_group_contributes_nothing(
    scope: Scope,
    group: InnerInstructionsView,
    index: int,
)
    requires
        group.index != index,
    ensures
        scope.inner_group(group, index) == Walk::empty(),
{
}

/// Where no group originates from the top-level instruction being processed,
/// its nested instructions yield no event and no error.
pub proof fn law_no_group_in_scope(scope: Scope, index: int)
    requires
        forall|g: int|
            0 <= g < scope.meta.inner_instructions.len()
                ==> (#[trigger] scope.meta.inner_instructions[g]).index != index,
    ensures
        scope.inner_instructions(index) == Walk::empty(),
{
    lemma_chain_of_empty(scope.inner_groups(index));
}

/// A chain with a step that emits nothing and does not fail put in anywhere
/// is the chain without it.
pub proof fn lemma_chain_insert_empty(steps: Seq<Walk>, k: int)
    requires
        0 <= k <= steps.len(),
    ensures
        Walk::chain(steps.insert(k, Walk::empty())) == Walk::chain(steps),
    decreases steps.len() - k,
{
    let longer = steps.insert(k, Walk::empty());
    if k == steps.len() {
        assert(longer.drop_last() =~= steps);
        lemma_followed_by_empty(Walk::chain(steps));
    } else {
        assert(longer.drop_last() =~= steps.drop_last().insert(k, Walk::empty()));
        assert(longer.last() == steps.last());
        lemma_chain_insert_empty(steps.drop_last(), k);
    }
}

/// The scope `scope` with `group` put in at place `k` of the transaction's
/// groups of nested instructions.
pub open spec fn with_group(scope: Scope, k: int, group: InnerInstructionsView) -> Scope {
    Scope {
        meta: TransactionStatusMetaView {
            inner_instructions: scope.meta.inner_instructions.insert(k, group),
            ..scope.meta
        },
        ..scope
    }
}

/// What one instruction yields does not depend on the transaction's groups of
/// nested instructions.
proof fn lemma_instruction_ignores_groups(
    scope: Scope,
    k: int,
    group: InnerInstructionsView,
    instruction: CompiledInstructionView,
)
    ensures
        with_group(scope, k, group).instruction(instruction) == scope.instruction(instruction),
{
    let other = with_group(scope, k, group);
    match unpacked(instruction.data) {
        None => {},
        Some(decoded) => {
            assert(other.event(decoded, instruction.accounts) == scope.event(
                decoded,
                instruction.accounts,
            ));
            assert(other.extract(decoded, instruction.accounts) == scope.extract(
                decoded,
                instruction.accounts,
            ));
        },
    }
}

/// Adding a group that originates from another top-level instruction, at any
/// place among the groups, changes nothing of what the nested instructions
/// of the instruction at `index` yield, even if the added group's
/// instructions are token operations on the tracked mint.
pub proof fn law_foreign_group_changes_nothing(
    scope: Scope,
    k: int,
    group: InnerInstructionsView,
    index: int,
)
    requires
        0 <= k <= scope.meta.inner_instructions.len(),
        group.index != index,
    ensures
        with_group(scope, k, group).inner_instructions(index) == scope.inner_instructions(index),
{
    let other = with_group(scope, k, group);
    let steps = scope.inner_groups(index);
    let more = other.inner_groups(index);
    assert(more =~= steps.insert(k, Walk::empty())) by {
        assert forall|g: int| 0 <= g < more.len() implies more[g] == steps.insert(
            k,
            Walk::empty(),
        )[g] by {
            let at = other.meta.inner_instructions[g];
            if at.index == index {
                let theirs = at.instructions.map_values(
                    |i: CompiledInstructionView| other.instruction(i),
                );
                let ours = at.instructions.map_values(
                    |i: CompiledInstructionView| scope.instruction(i),
                );
                assert(theirs =~= ours) by {
                    assert forall|j: int| 0 <= j < theirs.len() implies theirs[j] == ours[j] by {
                        lemma_instruction_ignores_groups(scope, k, group, at.instructions[j]);
                    }
                }
            }
        }
    }
    lemma_chain_insert_empty(steps, k);
}

/// The mint filter of `MintTo` and `MintToChecked` reads the account at
/// position 0: the instruction yields a mint event exactly where that account
/// is the tracked mint, whatever stands at position 1.
pub proof fn law_mint_to_reads_position_zero(
    scope: Scope,
    instruction: TokenInstruction,
    inst_accounts: Seq<u8>,
)
    requires
        instruction is MintTo || instruction is MintToChecked,
        scope.account(inst_accounts, 0) is Some,
        scope.account(inst_accounts, 1) is Some,
    ensures
        filter_position(instruction) == Some(0int),
        scope.account(inst_accounts, 0) != Some(scope.parameters.token_contract)
            ==> scope.extract(instruction, inst_accounts) == Ok::<_, Error>(
            None::<EventView>,
        ),
        scope.account(inst_accounts, 0) == Some(scope.parameters.token_contract) ==> (
        scope.extract(instruction, inst_accounts) matches Ok(Some(EventView::Mint(mint)))
            && mint.to == scope.account(inst_accounts, 1).unwrap()),
{
}

/// The mint filter of `Burn` and `BurnChecked` reads the account at position
/// 1: the instruction yields a burn event exactly where that account is the
/// tracked mint, whatever stands at position 0.
pub proof fn law_burn_reads_position_one(
    scope: Scope,
    instruction: TokenInstruction,
    inst_accounts: Seq<u8>,
)
    requires
        instruction is Burn || instruction is BurnChecked,
        scope.account(inst_accounts, 0) is Some,
        scope.account(inst_accounts, 1) is Some,
    ensures
        filter_position(instruction) == Some(1int),
        scope.account(inst_accounts, 1) != Some(scope.parameters.token_contract)
            ==> scope.extract(instruction, inst_accounts) == Ok::<_, Error>(
            None::<EventView>,
        ),
        scope.account(inst_accounts, 1) == Some(scope.parameters.token_contract) ==> (
        scope.extract(instruction, inst_accounts) matches Ok(Some(EventView::Burn(burn)))
            && burn.from == scope.account(inst_accounts, 0).unwrap()),
{
}

/// The owner of an account initialised by `InitializeAccount2` or
/// `InitializeAccount3` is the Base58 text of the key in the payload; no
/// address of the account table enters it.
pub proof fn law_owner_comes_from_payload(
    scope: Scope,
    instruction: TokenInstruction,
    owner: [u8; 32],
    inst_accounts: Seq<u8>,
)
    requires
        instruction == (TokenInstruction::InitializeAccount2 { owner }) || instruction == (
        TokenInstruction::InitializeAccount3 { owner }),
        scope.account(inst_accounts, 0) is Some,
        scope.account(inst_accounts, 1) == Some(scope.parameters.token_contract),
    ensures
        scope.extract(instruction, inst_accounts) == Ok::<_, Error>(
            Some(
                EventView::AccountInitialized(
                    InitializedAccountView {
                        trx_hash: scope.trx_hash,
                        account: scope.account(inst_accounts, 0).unwrap(),
                        mint: scope.parameters.token_contract,
                        owner: base58(owner@),
                    },
                ),
            ),
        ),
{
}

/// Walks in a row group as one pleases.
pub proof fn lemma_followed_by_associative(first: Walk, second: Walk, third: Walk)
    ensures
        first.followed_by(second).followed_by(third) == first.followed_by(
            second.followed_by(third),
        ),
{
    let a = first.followed_by(second).followed_by(third);
    let b = first.followed_by(second.followed_by(third));
    assert(a.events =~= b.events);
}

/// A chain is the chain over its first `k` steps followed by the chain over
/// the rest.
pub proof fn lemma_chain_split(steps: Seq<Walk>, k: int)
    requires
        0 <= k <= steps.len(),
    ensures
        Walk::chain(steps) == Walk::chain(steps.take(k)).followed_by(Walk::chain(steps.skip(k))),
    decreases steps.len() - k,
{
    if k == steps.len() {
        assert(steps.take(k) =~= steps);
        assert(steps.skip(k) =~= Seq::<Walk>::empty());
        lemma_followed_by_empty(Walk::chain(steps));
    } else {
        let shorter = steps.drop_last();
        lemma_chain_split(shorter, k);
        assert(shorter.take(k) =~= steps.take(k));
        assert(steps.skip(k).drop_last() =~= shorter.skip(k));
        assert(steps.skip(k).last() == steps.last());
        lemma_followed_by_associative(
            Walk::chain(steps.take(k)),
            Walk::chain(shorter.skip(k)),
            steps.last(),
        );
    }
}

/// The events of a transaction follow the order of its top-level
/// instructions: in a walk that does not fail, what the instruction at `i`
/// and the instructions nested under it emit stands after everything that
/// earlier top-level instructions emitted and before everything that later
/// ones emit; and within it the instruction's own event, if it has one,
/// stands before the events of its nested instructions.
pub proof fn law_events_follow_instruction_order(
    scope: Scope,
    instructions: Seq<CompiledInstructionView>,
    i: int,
)
    requires
        0 <= i < instructions.len(),
        Walk::chain(scope.top_level(instructions)).failure is None,
    ensures
        Walk::chain(scope.top_level(instructions)).events == Walk::chain(
            scope.top_level(instructions).take(i),
        ).events + scope.instruction(instructions[i]).events + scope.inner_instructions(i).events
            + Walk::chain(scope.top_level(instructions).skip(i + 1)).events,
        scope.instruction(instructions[i]).events.len() <= 1,
{
    let steps = scope.top_level(instructions);
    let earlier = Walk::chain(steps.take(i));
    let later = Walk::chain(steps.skip(i + 1));
    let own = scope.instruction(instructions[i]);
    let nested = scope.inner_instructions(i);
    lemma_chain_split(steps, i + 1);
    lemma_chain_take(steps, i);
    assert(steps[i] == own.followed_by(nested));
    if earlier.failure is Some {
        lemma_chain_stops(steps, i);
    }
    let all = Walk::chain(steps);
    assert(all.events =~= earlier.events + own.events + nested.events + later.events);
}

/// The events of a block follow the order of its transactions, and each kind
/// of event keeps that order in its list of the output.
pub proof fn law_lists_keep_order(out: OutputView, earlier: Seq<EventView>, later: Seq<EventView>)
    ensures
        out.record_all(earlier + later) == out.record_all(earlier).record_all(later),
        out.record_all(earlier + later).transfers == out.transfers + transfers_of(
            earlier,
        ) + transfers_of(later),
        out.record_all(earlier + later).mints == out.mints + mints_of(earlier)
            + mints_of(later),
        out.record_all(earlier + later).burns == out.burns + burns_of(earlier)
            + burns_of(later),
        out.record_all(earlier + later).initialized_account == out.initialized_account
            + initialized_accounts_of(earlier)
            + initialized_accounts_of(later),
{
    lemma_record_concat(out, earlier, later);
    lemma_kinds_of_concat(earlier, later);
    let all = out.record_all(earlier + later);
    assert(all.transfers =~= out.transfers + transfers_of(earlier)
        + transfers_of(later));
    assert(all.mints =~= out.mints + mints_of(earlier)
        + mints_of(later));
    assert(all.burns =~= out.burns + burns_of(earlier)
        + burns_of(later));
    assert(all.initialized_account =~= out.initialized_account
        + initialized_accounts_of(earlier)
        + initialized_accounts_of(later));
}

} // verus!
