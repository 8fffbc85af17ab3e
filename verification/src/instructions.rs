//! The real cross-program instructions, built by the external Solana
//! crates.
//!
//! The pipeline's ledger semantics are modeled and verified in
//! [`crate::steps`] and [`crate::pipeline`]; this module produces the
//! actual instruction values that an on-ledger caller submits, one per
//! step, in pipeline order. Each external builder is called through a
//! trusted wrapper; the instruction values themselves are opaque here and
//! are only carried through to the caller.

use vstd::prelude::*;

use solana_program::instruction::Instruction;
use solana_program::program_error::ProgramError;
use solana_program::pubkey::Pubkey;

use crate::errors::PipelineError;
use crate::steps::{MINT_ACCOUNT_SIZE, MINT_DEPOSIT_LAMPORTS, NFT_DECIMALS, NFT_SUPPLY};

verus! {

#[verifier::external_type_specification]
#[verifier::external_body]
pub struct ExPubkey(Pubkey);

#[verifier::external_type_specification]
#[verifier::external_body]
pub struct ExInstruction(Instruction);

#[verifier::external_type_specification]
#[verifier::external_body]
pub struct ExProgramError(ProgramError);

// Each external builder returns a value that depends on its arguments
// alone; each result is therefore given a name, one name per builder, and
// every wrapper below promises exactly its builder's name. The composer's
// contract then fixes which instructions come back and in what order.
pub uninterp spec fn spec_create_account_ix(
    payer: Pubkey,
    new_account: Pubkey,
    lamports: u64,
    size: u64,
    owner_program: Pubkey,
) -> Instruction;

pub uninterp spec fn spec_initialize_mint_ix(
    token_program: Pubkey,
    mint: Pubkey,
    authority: Pubkey,
    decimals: u8,
) -> Result<Instruction, ProgramError>;

pub uninterp spec fn spec_create_holding_account_ix(
    funder: Pubkey,
    wallet: Pubkey,
    mint: Pubkey,
    token_program: Pubkey,
) -> Instruction;

pub uninterp spec fn spec_mint_to_ix(
    token_program: Pubkey,
    mint: Pubkey,
    destination: Pubkey,
    authority: Pubkey,
    amount: u64,
) -> Result<Instruction, ProgramError>;

/// Relies on `solana_program::system_instruction::create_account`: builds
/// the system-program instruction that debits the signing payer, creates a
/// funded account of `size` bytes at `new_account`, and assigns it to
/// `owner_program`. The builder itself is a pure constructor and cannot
/// fail.
#[verifier::external_body]
fn build_create_account(
    payer: &Pubkey,
    new_account: &Pubkey,
    lamports: u64,
    size: u64,
    owner_program: &Pubkey,
) -> (r: Instruction)
    ensures
        r == spec_create_account_ix(*payer, *new_account, lamports, size, *owner_program),
{
    solana_program::system_instruction::create_account(
        payer,
        new_account,
        lamports,
        size,
        owner_program,
    )
}

/// Relies on `spl_token::instruction::initialize_mint`: builds the
/// token-program instruction that stamps the storage at `mint` as a token
/// class with the given decimals and with `authority` as minting and
/// freezing authority. The builder fails only when `token_program` is not
/// the token program's own id.
#[verifier::external_body]
fn build_initialize_mint(
    token_program: &Pubkey,
    mint: &Pubkey,
    authority: &Pubkey,
    decimals: u8,
) -> (r: Result<Instruction, ProgramError>)
    ensures
        r == spec_initialize_mint_ix(*token_program, *mint, *authority, decimals),
{
    spl_token::instruction::initialize_mint(token_program, mint, authority, Some(authority), decimals)
}

/// Relies on
/// `spl_associated_token_account::instruction::create_associated_token_account`:
/// builds the instruction that creates, at its canonical derived address,
/// the holding account of `wallet` for `mint`, funded by `funder`. The
/// builder derives that address itself, a pure function of wallet, mint
/// and the two programs; it returns no error, and relies on a viable
/// derived address existing for the pair, as every such pair in practice
/// has.
#[verifier::external_body]
fn build_create_holding_account(
    funder: &Pubkey,
    wallet: &Pubkey,
    mint: &Pubkey,
    token_program: &Pubkey,
) -> (r: Instruction)
    ensures
        r == spec_create_holding_account_ix(*funder, *wallet, *mint, *token_program),
{
    spl_associated_token_account::instruction::create_associated_token_account(
        funder,
        wallet,
        mint,
        token_program,
    )
}

/// Relies on `spl_token::instruction::mint_to`: builds the token-program
/// instruction that mints `amount` units of `mint` into `destination`,
/// with `authority` as the sole signing authority — the pipeline's minting
/// step demands the authority's own signature. The builder fails only when
/// `token_program` is not the token program's own id.
#[verifier::external_body]
fn build_mint_to(
    token_program: &Pubkey,
    mint: &Pubkey,
    destination: &Pubkey,
    authority: &Pubkey,
    amount: u64,
) -> (r: Result<Instruction, ProgramError>)
    ensures
        r == spec_mint_to_ix(*token_program, *mint, *destination, *authority, amount),
{
    spl_token::instruction::mint_to(token_program, mint, destination, authority, &[authority], amount)
}

/// Builds the pipeline's four instructions in their strict order: create
/// the mint storage funded with one whole native token, initialize it as a
/// zero-decimal token class with the wallet as both authorities, create
/// the wallet's holding account for the mint, and mint the single unit of
/// supply into it. Succeeds whenever both fallible builders accept their
/// arguments, and then returns exactly those builders' instructions in
/// pipeline order; fails only when a builder rejects its arguments, and
/// then reports the rejection as malformed-instruction data.
pub fn mint_nft_instructions(
    wallet: &Pubkey,
    mint: &Pubkey,
    holding: &Pubkey,
    token_program: &Pubkey,
) -> (r: Result<Vec<Instruction>, PipelineError>)
    ensures
        (spec_initialize_mint_ix(*token_program, *mint, *wallet, NFT_DECIMALS) is Ok
            && spec_mint_to_ix(*token_program, *mint, *holding, *wallet, NFT_SUPPLY) is Ok
            ==> r is Ok),
        (r matches Ok(v) ==> v@ == seq![
            spec_create_account_ix(
                *wallet,
                *mint,
                MINT_DEPOSIT_LAMPORTS,
                MINT_ACCOUNT_SIZE,
                *token_program,
            ),
            spec_initialize_mint_ix(*token_program, *mint, *wallet, NFT_DECIMALS)->Ok_0,
            spec_create_holding_account_ix(*wallet, *wallet, *mint, *token_program),
            spec_mint_to_ix(*token_program, *mint, *holding, *wallet, NFT_SUPPLY)->Ok_0,
        ]),
        (r is Err ==> spec_initialize_mint_ix(*token_program, *mint, *wallet, NFT_DECIMALS) is Err
            || spec_mint_to_ix(*token_program, *mint, *holding, *wallet, NFT_SUPPLY) is Err),
        (r matches Err(e) ==> e == PipelineError::MalformedInstruction),
{
    let provision = build_create_account(
        wallet,
        mint,
        MINT_DEPOSIT_LAMPORTS,
        MINT_ACCOUNT_SIZE,
        token_program,
    );
    let initialize = match build_initialize_mint(token_program, mint, wallet, NFT_DECIMALS) {
        Ok(instruction) => instruction,
        Err(_) => {
            return Err(PipelineError::MalformedInstruction);
        },
    };
    let provision_holding = build_create_holding_account(wallet, wallet, mint, token_program);
    let mint_one = match build_mint_to(token_program, mint, holding, wallet, NFT_SUPPLY) {
        Ok(instruction) => instruction,
        Err(_) => {
            return Err(PipelineError::MalformedInstruction);
        },
    };
    let mut ordered: Vec<Instruction> = Vec::new();
    ordered.push(provision);
    ordered.push(initialize);
    ordered.push(provision_holding);
    ordered.push(mint_one);
    proof {
        assert(ordered@ =~= seq![provision, initialize, provision_holding, mint_one]);
    }
    Ok(ordered)
}

} // verus!
