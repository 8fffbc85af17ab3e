//! Scenario tests for the pipeline's ledger model: the happy path, the
//! underfunded payer, atomicity of mid-pipeline failures, the absent
//! idempotence, the authority check, the step ordering, and one input for
//! each refusal the steps can answer with.

use nft_mint::errors::{ErrorClass, PipelineError};
use nft_mint::ledger::{Account, AccountData, Ledger};
use nft_mint::pipeline::{process_instruction, RoleAccount};
use nft_mint::steps::{
    create_account, create_holding_account, initialize_mint, mint_to, revoke_mint_authority,
    HOLDING_DEPOSIT_LAMPORTS, MINT_ACCOUNT_SIZE, MINT_DEPOSIT_LAMPORTS,
};

const WALLET: u64 = 11;
const MINT: u64 = 22;
const HOLDING: u64 = 33;
const RENT_SYSVAR: u64 = 44;
const SYSTEM_PROGRAM: u64 = 55;
const TOKEN_PROGRAM: u64 = 66;
const ATA_PROGRAM: u64 = 77;

const FUNDED: u64 = 2_000_000_000;

fn wallet_account(lamports: u64) -> Account {
    Account { lamports, owner_program: SYSTEM_PROGRAM, size: 0, data: AccountData::Uninitialized }
}

fn funded_ledger() -> Ledger {
    let mut ledger = Ledger::new();
    ledger.set(WALLET, wallet_account(FUNDED));
    ledger
}

fn role(addr: u64, is_signer: bool, is_writable: bool) -> RoleAccount {
    RoleAccount { addr, is_signer, is_writable }
}

fn standard_accounts() -> Vec<RoleAccount> {
    vec![
        role(MINT, false, true),
        role(HOLDING, false, true),
        role(WALLET, true, true),
        role(RENT_SYSVAR, false, false),
        role(SYSTEM_PROGRAM, false, false),
        role(TOKEN_PROGRAM, false, false),
        role(ATA_PROGRAM, false, false),
    ]
}

#[test]
fn happy_path_mints_exactly_one() {
    let mut ledger = funded_ledger();
    let accounts = standard_accounts();
    let result = process_instruction(&mut ledger, &accounts);
    assert_eq!(result, Ok(()));

    let mint = ledger.get(MINT).expect("mint record exists");
    assert_eq!(mint.owner_program, TOKEN_PROGRAM);
    assert_eq!(mint.size, MINT_ACCOUNT_SIZE);
    assert_eq!(mint.lamports, MINT_DEPOSIT_LAMPORTS);
    assert_eq!(
        mint.data,
        AccountData::Mint {
            decimals: 0,
            supply: 1,
            mint_authority: Some(WALLET),
            freeze_authority: Some(WALLET),
        }
    );

    let holding = ledger.get(HOLDING).expect("holding account exists");
    assert_eq!(holding.owner_program, TOKEN_PROGRAM);
    assert_eq!(
        holding.data,
        AccountData::Holding { mint: MINT, owner_wallet: WALLET, amount: 1 }
    );

    let wallet = ledger.get(WALLET).expect("wallet account remains");
    assert_eq!(wallet.lamports, FUNDED - MINT_DEPOSIT_LAMPORTS - HOLDING_DEPOSIT_LAMPORTS);
}

#[test]
fn underfunded_payer_fails_at_step_one() {
    let mut ledger = Ledger::new();
    ledger.set(WALLET, wallet_account(MINT_DEPOSIT_LAMPORTS - 1));
    let accounts = standard_accounts();
    let result = process_instruction(&mut ledger, &accounts);
    assert_eq!(result, Err(PipelineError::InsufficientFunds));
    assert_eq!(PipelineError::InsufficientFunds.class(), ErrorClass::Allocation);
    // Zero accounts created, and the wallet was not debited.
    assert_eq!(ledger.get(MINT), None);
    assert_eq!(ledger.get(HOLDING), None);
    assert_eq!(ledger.get(WALLET).unwrap().lamports, MINT_DEPOSIT_LAMPORTS - 1);
}

#[test]
fn rerunning_the_pipeline_collides_on_the_mint_address() {
    let mut ledger = funded_ledger();
    // Fund the wallet well enough for two runs' deposits.
    ledger.set(WALLET, wallet_account(4 * FUNDED));
    let accounts = standard_accounts();
    assert_eq!(process_instruction(&mut ledger, &accounts), Ok(()));
    let wallet_after_first = ledger.get(WALLET).unwrap();
    let mint_after_first = ledger.get(MINT).unwrap();
    let holding_after_first = ledger.get(HOLDING).unwrap();

    let second = process_instruction(&mut ledger, &accounts);
    assert_eq!(second, Err(PipelineError::AccountAlreadyExists));
    assert_eq!(PipelineError::AccountAlreadyExists.class(), ErrorClass::Allocation);
    // The failing second run changed nothing.
    assert_eq!(ledger.get(WALLET).unwrap(), wallet_after_first);
    assert_eq!(ledger.get(MINT).unwrap(), mint_after_first);
    assert_eq!(ledger.get(HOLDING).unwrap(), holding_after_first);
}

#[test]
fn failure_at_step_three_rolls_back_steps_one_and_two() {
    let mut ledger = funded_ledger();
    // Occupy the holding address beforehand: steps 1 and 2 succeed, step 3
    // collides, and the whole transaction must leave no trace.
    ledger.set(HOLDING, wallet_account(5));
    let accounts = standard_accounts();
    let result = process_instruction(&mut ledger, &accounts);
    assert_eq!(result, Err(PipelineError::AccountAlreadyExists));
    assert_eq!(ledger.get(MINT), None);
    assert_eq!(ledger.get(WALLET).unwrap().lamports, FUNDED);
    assert_eq!(ledger.get(HOLDING).unwrap(), wallet_account(5));
}

/// Runs steps 1 to 3 directly, leaving a fully provisioned mint and an
/// empty holding account, ready for the supply-minting step.
fn provisioned_ledger() -> Ledger {
    let mut ledger = funded_ledger();
    assert_eq!(
        create_account(
            &mut ledger,
            WALLET,
            true,
            MINT,
            MINT_DEPOSIT_LAMPORTS,
            MINT_ACCOUNT_SIZE,
            TOKEN_PROGRAM,
        ),
        Ok(())
    );
    assert_eq!(
        initialize_mint(&mut ledger, TOKEN_PROGRAM, MINT, WALLET, Some(WALLET), 0),
        Ok(())
    );
    assert_eq!(
        create_holding_account(
            &mut ledger,
            WALLET,
            true,
            WALLET,
            MINT,
            HOLDING,
            HOLDING_DEPOSIT_LAMPORTS,
        ),
        Ok(())
    );
    ledger
}

#[test]
fn minting_without_the_authoritys_signature_fails() {
    let mut ledger = provisioned_ledger();
    let holding_before = ledger.get(HOLDING).unwrap();
    let mint_before = ledger.get(MINT).unwrap();
    // A signer list that excludes the mint authority.
    let signers: Vec<u64> = vec![HOLDING, RENT_SYSVAR];
    let result = mint_to(&mut ledger, TOKEN_PROGRAM, MINT, HOLDING, WALLET, &signers, 1);
    assert_eq!(result, Err(PipelineError::MissingSignature));
    assert_eq!(PipelineError::MissingSignature.class(), ErrorClass::Authorization);
    // The supply stays at zero and the holding account stays empty.
    assert_eq!(ledger.get(MINT).unwrap(), mint_before);
    assert_eq!(ledger.get(HOLDING).unwrap(), holding_before);
}

#[test]
fn minting_with_a_wrong_authority_fails() {
    let mut ledger = provisioned_ledger();
    let signers: Vec<u64> = vec![HOLDING];
    let result = mint_to(&mut ledger, TOKEN_PROGRAM, MINT, HOLDING, HOLDING, &signers, 1);
    assert_eq!(result, Err(PipelineError::InvalidAuthority));
    assert_eq!(PipelineError::InvalidAuthority.class(), ErrorClass::Authorization);
}

#[test]
fn minting_before_the_holding_account_exists_fails() {
    let mut ledger = funded_ledger();
    assert_eq!(
        create_account(
            &mut ledger,
            WALLET,
            true,
            MINT,
            MINT_DEPOSIT_LAMPORTS,
            MINT_ACCOUNT_SIZE,
            TOKEN_PROGRAM,
        ),
        Ok(())
    );
    assert_eq!(
        initialize_mint(&mut ledger, TOKEN_PROGRAM, MINT, WALLET, Some(WALLET), 0),
        Ok(())
    );
    // Step 4 before step 3: the destination account does not exist yet.
    let signers: Vec<u64> = vec![WALLET];
    let result = mint_to(&mut ledger, TOKEN_PROGRAM, MINT, HOLDING, WALLET, &signers, 1);
    assert_eq!(result, Err(PipelineError::AccountNotFound));
    assert_eq!(PipelineError::AccountNotFound.class(), ErrorClass::State);
    // The supply is still zero.
    match ledger.get(MINT).unwrap().data {
        AccountData::Mint { supply, .. } => assert_eq!(supply, 0),
        other => panic!("expected a mint record, found {:?}", other),
    }
}

#[test]
fn six_accounts_are_not_enough() {
    let mut ledger = funded_ledger();
    let mut accounts = standard_accounts();
    accounts.pop();
    let result = process_instruction(&mut ledger, &accounts);
    assert_eq!(result, Err(PipelineError::NotEnoughAccounts));
    assert_eq!(PipelineError::NotEnoughAccounts.class(), ErrorClass::ExternalProtocol);
}

#[test]
fn an_unsigned_wallet_is_refused() {
    let mut ledger = funded_ledger();
    let mut accounts = standard_accounts();
    accounts[2] = role(WALLET, false, true);
    let result = process_instruction(&mut ledger, &accounts);
    assert_eq!(result, Err(PipelineError::MissingSignature));
}

#[test]
fn a_read_only_mint_account_is_refused() {
    let mut ledger = funded_ledger();
    let mut accounts = standard_accounts();
    accounts[0] = role(MINT, false, false);
    let result = process_instruction(&mut ledger, &accounts);
    assert_eq!(result, Err(PipelineError::AccountNotWritable));
}

#[test]
fn a_missing_wallet_account_is_refused() {
    let mut ledger = Ledger::new();
    let accounts = standard_accounts();
    let result = process_instruction(&mut ledger, &accounts);
    assert_eq!(result, Err(PipelineError::AccountNotFound));
}

#[test]
fn initializing_twice_is_refused() {
    let mut ledger = provisioned_ledger();
    let result = initialize_mint(&mut ledger, TOKEN_PROGRAM, MINT, WALLET, Some(WALLET), 0);
    assert_eq!(result, Err(PipelineError::AlreadyInitialized));
}

#[test]
fn initializing_storage_owned_by_another_program_is_refused() {
    let mut ledger = funded_ledger();
    assert_eq!(
        create_account(
            &mut ledger,
            WALLET,
            true,
            MINT,
            MINT_DEPOSIT_LAMPORTS,
            MINT_ACCOUNT_SIZE,
            SYSTEM_PROGRAM,
        ),
        Ok(())
    );
    let result = initialize_mint(&mut ledger, TOKEN_PROGRAM, MINT, WALLET, Some(WALLET), 0);
    assert_eq!(result, Err(PipelineError::InvalidAccountOwner));
}

#[test]
fn initializing_mis_sized_storage_is_refused() {
    let mut ledger = funded_ledger();
    assert_eq!(
        create_account(
            &mut ledger,
            WALLET,
            true,
            MINT,
            MINT_DEPOSIT_LAMPORTS,
            MINT_ACCOUNT_SIZE - 2,
            TOKEN_PROGRAM,
        ),
        Ok(())
    );
    let result = initialize_mint(&mut ledger, TOKEN_PROGRAM, MINT, WALLET, Some(WALLET), 0);
    assert_eq!(result, Err(PipelineError::InvalidAccountSize));
}

#[test]
fn minting_into_a_non_holding_account_is_refused() {
    let mut ledger = provisioned_ledger();
    let signers: Vec<u64> = vec![WALLET];
    // The wallet account exists but holds no initialized holding record.
    let result = mint_to(&mut ledger, TOKEN_PROGRAM, MINT, WALLET, WALLET, &signers, 1);
    assert_eq!(result, Err(PipelineError::UninitializedAccount));
}

#[test]
fn minting_into_a_holding_account_of_another_mint_is_refused() {
    let mut ledger = provisioned_ledger();
    // A second, separate mint whose holding account is the existing one.
    let other_mint: u64 = 88;
    assert_eq!(
        create_account(
            &mut ledger,
            WALLET,
            true,
            other_mint,
            MINT_DEPOSIT_LAMPORTS / 2,
            MINT_ACCOUNT_SIZE,
            TOKEN_PROGRAM,
        ),
        Ok(())
    );
    assert_eq!(
        initialize_mint(&mut ledger, TOKEN_PROGRAM, other_mint, WALLET, None, 0),
        Ok(())
    );
    let signers: Vec<u64> = vec![WALLET];
    let result = mint_to(&mut ledger, TOKEN_PROGRAM, other_mint, HOLDING, WALLET, &signers, 1);
    assert_eq!(result, Err(PipelineError::MintMismatch));
    assert_eq!(PipelineError::MintMismatch.class(), ErrorClass::State);
}

#[test]
fn overflowing_the_supply_is_refused() {
    let mut ledger = provisioned_ledger();
    let signers: Vec<u64> = vec![WALLET];
    assert_eq!(
        mint_to(&mut ledger, TOKEN_PROGRAM, MINT, HOLDING, WALLET, &signers, u64::MAX),
        Ok(())
    );
    let result = mint_to(&mut ledger, TOKEN_PROGRAM, MINT, HOLDING, WALLET, &signers, 1);
    assert_eq!(result, Err(PipelineError::Overflow));
    assert_eq!(PipelineError::Overflow.class(), ErrorClass::State);
}

#[test]
fn a_holding_account_for_an_uninitialized_mint_is_refused() {
    let mut ledger = funded_ledger();
    assert_eq!(
        create_account(
            &mut ledger,
            WALLET,
            true,
            MINT,
            MINT_DEPOSIT_LAMPORTS,
            MINT_ACCOUNT_SIZE,
            TOKEN_PROGRAM,
        ),
        Ok(())
    );
    // Step 3 without step 2: the storage exists but is no mint record yet.
    let result = create_holding_account(
        &mut ledger,
        WALLET,
        true,
        WALLET,
        MINT,
        HOLDING,
        HOLDING_DEPOSIT_LAMPORTS,
    );
    assert_eq!(result, Err(PipelineError::UninitializedAccount));
}

#[test]
fn revoking_the_authority_seals_the_supply_at_one() {
    let mut ledger = funded_ledger();
    let accounts = standard_accounts();
    assert_eq!(process_instruction(&mut ledger, &accounts), Ok(()));
    let signers: Vec<u64> = vec![WALLET];
    assert_eq!(
        revoke_mint_authority(&mut ledger, TOKEN_PROGRAM, MINT, WALLET, &signers),
        Ok(())
    );
    match ledger.get(MINT).unwrap().data {
        AccountData::Mint { supply, mint_authority, .. } => {
            assert_eq!(supply, 1);
            assert_eq!(mint_authority, None);
        },
        other => panic!("expected a mint record, found {:?}", other),
    }
    // Even the former authority, signing for itself, can mint no more.
    let result = mint_to(&mut ledger, TOKEN_PROGRAM, MINT, HOLDING, WALLET, &signers, 1);
    assert_eq!(result, Err(PipelineError::InvalidAuthority));
    match ledger.get(HOLDING).unwrap().data {
        AccountData::Holding { amount, .. } => assert_eq!(amount, 1),
        other => panic!("expected a holding account, found {:?}", other),
    }
}

#[test]
fn revocation_by_anyone_but_the_authority_is_refused() {
    let mut ledger = funded_ledger();
    let accounts = standard_accounts();
    assert_eq!(process_instruction(&mut ledger, &accounts), Ok(()));
    let signers: Vec<u64> = vec![HOLDING];
    assert_eq!(
        revoke_mint_authority(&mut ledger, TOKEN_PROGRAM, MINT, HOLDING, &signers),
        Err(PipelineError::InvalidAuthority)
    );
    // An unsigned revocation request by the true authority is refused too.
    let no_signers: Vec<u64> = vec![];
    assert_eq!(
        revoke_mint_authority(&mut ledger, TOKEN_PROGRAM, MINT, WALLET, &no_signers),
        Err(PipelineError::MissingSignature)
    );
}

#[test]
fn ledger_lookup_returns_the_latest_write() {
    let mut ledger = Ledger::new();
    ledger.set(WALLET, wallet_account(10));
    ledger.set(WALLET, wallet_account(20));
    assert_eq!(ledger.get(WALLET).unwrap().lamports, 20);
    assert!(ledger.contains(WALLET));
    assert!(!ledger.contains(MINT));
    let copy = ledger.snapshot();
    assert_eq!(copy.get(WALLET), ledger.get(WALLET));
}
