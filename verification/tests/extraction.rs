use solana_token_tracker::{
    amount_to_decimals, extract_event, fetch_account_to, is_token, is_token_program,
    is_token_transfer, resolve_account, Burn, Error, Event, InitializedAccount, Mint,
    TokenBalance, TokenInstruction, TokenParams, TransactionStatusMeta, Transfer,
};

const MINT: &str = "EPjFWdd5AufqSSqeM2qN1xzybapC8G4wEGGkZwyTDt1v";
const OTHER_MINT: &str = "So11111111111111111111111111111111111111112";

fn table() -> Vec<String> {
    ["alice", "bob", "carol", MINT, OTHER_MINT].iter().map(|a| a.to_string()).collect()
}

fn params() -> TokenParams {
    TokenParams { token_contract: MINT.to_string(), token_decimals: 6 }
}

fn no_meta() -> TransactionStatusMeta {
    TransactionStatusMeta { inner_instructions: vec![], pre_token_balances: vec![] }
}

fn meta_with_holder(owner: &str, mint: &str) -> TransactionStatusMeta {
    TransactionStatusMeta {
        inner_instructions: vec![],
        pre_token_balances: vec![
            TokenBalance { account_index: 9, mint: OTHER_MINT.to_string(), owner: "dave".to_string() },
            TokenBalance { account_index: 0, mint: mint.to_string(), owner: owner.to_string() },
        ],
    }
}

fn extract(
    instruction: TokenInstruction,
    inst_accounts: &[u8],
    meta: &TransactionStatusMeta,
) -> Result<Option<Event>, Error> {
    extract_event(
        &instruction,
        &inst_accounts.to_vec(),
        &"hash".to_string(),
        1700000000,
        meta,
        &table(),
        &params(),
    )
}

#[test]
fn fetch_account_to_gives_the_address_at_a_position() {
    assert_eq!(fetch_account_to(&table(), 0), Ok("alice".to_string()));
    assert_eq!(fetch_account_to(&table(), 4), Ok(OTHER_MINT.to_string()));
}

#[test]
fn fetch_account_to_rejects_a_position_beyond_the_table() {
    assert_eq!(fetch_account_to(&table(), 5), Err(Error::AccountOutOfRange));
    assert_eq!(fetch_account_to(&vec![], 0), Err(Error::AccountOutOfRange));
    assert_eq!(fetch_account_to(&table(), 255), Err(Error::AccountOutOfRange));
}

#[test]
fn resolve_account_follows_the_instruction_argument() {
    let inst_accounts = vec![2u8, 0, 7];
    assert_eq!(resolve_account(&table(), &inst_accounts, 0), Ok("carol".to_string()));
    assert_eq!(resolve_account(&table(), &inst_accounts, 1), Ok("alice".to_string()));
    assert_eq!(resolve_account(&table(), &inst_accounts, 2), Err(Error::AccountOutOfRange));
    assert_eq!(resolve_account(&table(), &inst_accounts, 3), Err(Error::AccountOutOfRange));
}

#[test]
fn is_token_compares_addresses() {
    assert!(is_token(&MINT.to_string(), &MINT.to_string()));
    assert!(!is_token(&OTHER_MINT.to_string(), &MINT.to_string()));
    assert!(!is_token(&"".to_string(), &MINT.to_string()));
}

#[test]
fn is_token_program_knows_the_token_program() {
    assert!(is_token_program(&"TokenkegQfeZyiNwAJbNbGKPFXCWuBvf9Ss623VQ5DA".to_string()));
    assert!(!is_token_program(&"11111111111111111111111111111111".to_string()));
    assert!(!is_token_program(&MINT.to_string()));
}

#[test]
fn is_token_transfer_needs_owner_and_mint_in_one_snapshot() {
    let balances = vec![
        TokenBalance { account_index: 0, mint: OTHER_MINT.to_string(), owner: "alice".to_string() },
        TokenBalance { account_index: 1, mint: MINT.to_string(), owner: "bob".to_string() },
    ];
    assert!(is_token_transfer(&balances, &"bob".to_string(), &MINT.to_string()));
    assert!(is_token_transfer(&balances, &"alice".to_string(), &OTHER_MINT.to_string()));
    assert!(!is_token_transfer(&balances, &"alice".to_string(), &MINT.to_string()));
    assert!(!is_token_transfer(&balances, &"carol".to_string(), &MINT.to_string()));
    assert!(!is_token_transfer(&vec![], &"bob".to_string(), &MINT.to_string()));
}

#[test]
fn transfer_is_filtered_by_the_authority_at_position_two() {
    let meta = meta_with_holder("carol", MINT);
    let event = extract(TokenInstruction::Transfer { amount: 1500000 }, &[0, 1, 2], &meta);
    assert_eq!(
        event,
        Ok(Some(Event::Transfer(Transfer {
            trx_hash: "hash".to_string(),
            timestamp: 1700000000,
            from: "alice".to_string(),
            to: "bob".to_string(),
            amount: amount_to_decimals(1500000, 6),
        })))
    );
}

#[test]
fn transfer_by_an_authority_without_the_mint_yields_nothing() {
    let meta = meta_with_holder("carol", OTHER_MINT);
    assert_eq!(extract(TokenInstruction::Transfer { amount: 1 }, &[0, 1, 2], &meta), Ok(None));
    let meta = meta_with_holder("alice", MINT);
    assert_eq!(extract(TokenInstruction::Transfer { amount: 1 }, &[0, 1, 2], &meta), Ok(None));
    assert_eq!(extract(TokenInstruction::Transfer { amount: 1 }, &[0, 1, 2], &no_meta()), Ok(None));
}

#[test]
fn transfer_without_an_authority_argument_is_malformed() {
    let meta = meta_with_holder("carol", MINT);
    assert_eq!(
        extract(TokenInstruction::Transfer { amount: 1 }, &[0, 1], &meta),
        Err(Error::AccountOutOfRange)
    );
    assert_eq!(
        extract(TokenInstruction::Transfer { amount: 1 }, &[0, 1, 200], &meta),
        Err(Error::AccountOutOfRange)
    );
}

#[test]
fn transfer_that_passes_the_filter_needs_its_roles() {
    let meta = meta_with_holder("carol", MINT);
    assert_eq!(
        extract(TokenInstruction::Transfer { amount: 1 }, &[99, 1, 2], &meta),
        Err(Error::AccountOutOfRange)
    );
    assert_eq!(
        extract(TokenInstruction::Transfer { amount: 1 }, &[0, 99, 2], &meta),
        Err(Error::AccountOutOfRange)
    );
}

#[test]
fn filter_miss_comes_before_unresolved_roles() {
    let meta = meta_with_holder("carol", OTHER_MINT);
    assert_eq!(extract(TokenInstruction::Transfer { amount: 1 }, &[99, 98, 2], &meta), Ok(None));
    assert_eq!(
        extract(TokenInstruction::TransferChecked { amount: 1 }, &[99, 4, 98], &no_meta()),
        Ok(None)
    );
    assert_eq!(extract(TokenInstruction::MintTo { amount: 1 }, &[4], &no_meta()), Ok(None));
    assert_eq!(extract(TokenInstruction::Burn { amount: 1 }, &[99, 4], &no_meta()), Ok(None));
    assert_eq!(extract(TokenInstruction::InitializeAccount, &[99, 4], &no_meta()), Ok(None));
}

#[test]
fn transfer_checked_reads_mint_at_one_and_destination_at_two() {
    let event = extract(TokenInstruction::TransferChecked { amount: 4983184141 }, &[0, 3, 1, 2], &no_meta());
    assert_eq!(
        event,
        Ok(Some(Event::Transfer(Transfer {
            trx_hash: "hash".to_string(),
            timestamp: 1700000000,
            from: "alice".to_string(),
            to: "bob".to_string(),
            amount: amount_to_decimals(4983184141, 6),
        })))
    );
}

#[test]
fn transfer_checked_of_another_mint_yields_nothing() {
    assert_eq!(
        extract(TokenInstruction::TransferChecked { amount: 1 }, &[0, 4, 1, 2], &no_meta()),
        Ok(None)
    );
    // the tracked mint at the destination's position does not count
    assert_eq!(
        extract(TokenInstruction::TransferChecked { amount: 1 }, &[0, 1, 3, 2], &no_meta()),
        Ok(None)
    );
}

#[test]
fn transfer_checked_does_not_ask_the_balance_snapshots() {
    let meta = meta_with_holder("carol", OTHER_MINT);
    let event = extract(TokenInstruction::TransferChecked { amount: 1 }, &[0, 3, 1, 2], &meta);
    assert!(matches!(event, Ok(Some(Event::Transfer(_)))));
}

#[test]
fn mint_to_reads_mint_at_zero_and_destination_at_one() {
    let expected = Ok(Some(Event::Mint(Mint {
        trx_hash: "hash".to_string(),
        timestamp: 1700000000,
        to: "bob".to_string(),
        amount: amount_to_decimals(250, 6),
    })));
    assert_eq!(extract(TokenInstruction::MintTo { amount: 250 }, &[3, 1, 2], &no_meta()), expected);
    assert_eq!(extract(TokenInstruction::MintToChecked { amount: 250 }, &[3, 1, 2], &no_meta()), expected);
}

#[test]
fn mint_to_with_the_mint_at_position_one_yields_nothing() {
    assert_eq!(extract(TokenInstruction::MintTo { amount: 250 }, &[1, 3, 2], &no_meta()), Ok(None));
    assert_eq!(extract(TokenInstruction::MintToChecked { amount: 250 }, &[1, 3, 2], &no_meta()), Ok(None));
}

#[test]
fn burn_reads_source_at_zero_and_mint_at_one() {
    let expected = Ok(Some(Event::Burn(Burn {
        trx_hash: "hash".to_string(),
        timestamp: 1700000000,
        from: "alice".to_string(),
        amount: amount_to_decimals(77, 6),
    })));
    assert_eq!(extract(TokenInstruction::Burn { amount: 77 }, &[0, 3, 2], &no_meta()), expected);
    assert_eq!(extract(TokenInstruction::BurnChecked { amount: 77 }, &[0, 3, 2], &no_meta()), expected);
}

#[test]
fn burn_with_the_mint_at_position_zero_yields_nothing() {
    assert_eq!(extract(TokenInstruction::Burn { amount: 77 }, &[3, 0, 2], &no_meta()), Ok(None));
    assert_eq!(extract(TokenInstruction::BurnChecked { amount: 77 }, &[3, 0, 2], &no_meta()), Ok(None));
}

#[test]
fn mint_and_burn_layouts_are_not_exchanged() {
    // the same arguments: mint at position 0, an account at position 1
    let arguments = [3u8, 1];
    assert!(matches!(
        extract(TokenInstruction::MintTo { amount: 1 }, &arguments, &no_meta()),
        Ok(Some(Event::Mint(_)))
    ));
    assert_eq!(extract(TokenInstruction::Burn { amount: 1 }, &arguments, &no_meta()), Ok(None));
    // and the other way round
    let arguments = [1u8, 3];
    assert_eq!(extract(TokenInstruction::MintTo { amount: 1 }, &arguments, &no_meta()), Ok(None));
    assert!(matches!(
        extract(TokenInstruction::Burn { amount: 1 }, &arguments, &no_meta()),
        Ok(Some(Event::Burn(_)))
    ));
}

#[test]
fn initialize_account_takes_its_owner_from_the_table() {
    assert_eq!(
        extract(TokenInstruction::InitializeAccount, &[0, 3, 2, 1], &no_meta()),
        Ok(Some(Event::AccountInitialized(InitializedAccount {
            trx_hash: "hash".to_string(),
            account: "alice".to_string(),
            mint: MINT.to_string(),
            owner: "carol".to_string(),
        })))
    );
}

#[test]
fn initialize_account_without_owner_argument_is_malformed() {
    assert_eq!(
        extract(TokenInstruction::InitializeAccount, &[0, 3], &no_meta()),
        Err(Error::AccountOutOfRange)
    );
}

#[test]
fn initialize_account2_takes_its_owner_from_the_payload() {
    let expected = Ok(Some(Event::AccountInitialized(InitializedAccount {
        trx_hash: "hash".to_string(),
        account: "alice".to_string(),
        mint: MINT.to_string(),
        owner: "11111111111111111111111111111111".to_string(),
    })));
    // position 2 names carol, who is not the owner
    assert_eq!(
        extract(TokenInstruction::InitializeAccount2 { owner: [0; 32] }, &[0, 3, 2], &no_meta()),
        expected
    );
    assert_eq!(
        extract(TokenInstruction::InitializeAccount3 { owner: [0; 32] }, &[0, 3], &no_meta()),
        expected
    );
}

#[test]
fn initialize_account2_owner_is_base58_of_the_key() {
    let owner = [1u8; 32];
    let event = extract(TokenInstruction::InitializeAccount2 { owner }, &[0, 3, 2], &no_meta());
    match event {
        Ok(Some(Event::AccountInitialized(account))) => {
            assert_eq!(account.owner, "4vJ9JU1bJJE96FWSJKvHsmmFADCg4gpZQff4P3bkLKi");
            assert_eq!(account.owner, bs58::encode(owner).into_string());
        }
        other => panic!("no account initialised: {:?}", other),
    }
}

#[test]
fn initialize_account2_of_another_mint_yields_nothing() {
    assert_eq!(
        extract(TokenInstruction::InitializeAccount2 { owner: [0; 32] }, &[0, 4, 2], &no_meta()),
        Ok(None)
    );
    assert_eq!(
        extract(TokenInstruction::InitializeAccount3 { owner: [0; 32] }, &[3, 0], &no_meta()),
        Ok(None)
    );
}

#[test]
fn other_instructions_yield_nothing() {
    assert_eq!(extract(TokenInstruction::Other, &[0, 3, 2], &no_meta()), Ok(None));
    assert_eq!(extract(TokenInstruction::Other, &[], &no_meta()), Ok(None));
    assert_eq!(extract(TokenInstruction::Other, &[200], &no_meta()), Ok(None));
}

#[test]
fn event_amount_uses_the_configured_decimals() {
    let event = extract(TokenInstruction::MintTo { amount: 4983184141 }, &[3, 1], &no_meta());
    match event {
        Ok(Some(Event::Mint(mint))) => {
            assert_eq!(mint.amount.raw, 4983184141);
            assert_eq!(mint.amount.decimals, 6);
            assert_eq!(mint.amount.whole(), 4983);
            assert_eq!(mint.amount.fraction(), 184141);
        }
        other => panic!("no mint: {:?}", other),
    }
}

#[test]
fn errors_tell_malformed_input_from_decode_failure() {
    assert!(Error::MissingTimestamp.is_malformed_input());
    assert!(Error::MissingSignature.is_malformed_input());
    assert!(Error::MissingMessage.is_malformed_input());
    assert!(Error::MissingMeta.is_malformed_input());
    assert!(Error::AccountOutOfRange.is_malformed_input());
    assert!(!Error::DecodeFailure.is_malformed_input());
    assert_eq!(Error::DecodeFailure.message(), "unpacking token instruction");
    assert_eq!(Error::AccountOutOfRange.message(), "account index out of range");
}
