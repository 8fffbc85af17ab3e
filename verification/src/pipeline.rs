//! The five-step ordered composition, run atomically.
//!
//! The pipeline receives its resources as an externally supplied, ordered
//! list of seven account roles. An [`ExecutionContext`] is built from that
//! list, with the required signer and writability flags validated, and the
//! four implemented steps then run in strict order; the disabled fifth
//! step, authority revocation, is deliberately absent. The whole run is
//! all-or-nothing: a failure at any step leaves the ledger exactly as it
//! was before the run.

use vstd::prelude::*;

use crate::errors::PipelineError;
use crate::ledger::{Account, Ledger};
use crate::steps::{
    create_account, create_holding_account, initialize_mint, mint_to, spec_create_account,
    spec_create_holding_account, spec_initialize_mint, spec_mint_to, HOLDING_DEPOSIT_LAMPORTS,
    MINT_ACCOUNT_SIZE, MINT_DEPOSIT_LAMPORTS, NFT_DECIMALS, NFT_SUPPLY,
};

verus! {

/// One supplied account role: an address with the flags the enclosing
/// transaction granted it.
#[derive(Clone, Copy, Debug, PartialEq, Eq)]
pub struct RoleAccount {
    /// The account's address.
    pub addr: u64,
    /// Whether this account signed the enclosing transaction.
    pub is_signer: bool,
    /// Whether the enclosing transaction marked this account writable.
    pub is_writable: bool,
}

/// The seven account roles the pipeline requires, in their fixed order:
/// the new mint address, the destination holding account, the minting and
/// funding wallet, the rent sysvar, the account-creation program, the
/// token-class program, and the associated-holding-account program.
#[derive(Clone, Copy, Debug, PartialEq, Eq)]
pub struct ExecutionContext {
    /// Role 1: address of the mint record to create; must be writable.
    pub mint: RoleAccount,
    /// Role 2: address of the destination holding account; must be
    /// writable.
    pub holding: RoleAccount,
    /// Role 3: the minting, funding and owning wallet; must have signed
    /// and be writable.
    pub wallet: RoleAccount,
    /// Role 4: the rent/storage sysvar.
    pub rent_sysvar: RoleAccount,
    /// Role 5: the account-creation program.
    pub system_program: RoleAccount,
    /// Role 6: the token-class program.
    pub token_program: RoleAccount,
    /// Role 7: the associated-holding-account program.
    pub associated_token_program: RoleAccount,
}

/// How a supplied account list becomes an execution context. Refusals, in
/// the order checked: fewer than seven accounts were supplied; the wallet
/// did not sign; the mint, holding account or wallet is not writable.
pub open spec fn spec_build_context(s: Seq<RoleAccount>) -> Result<
    ExecutionContext,
    PipelineError,
> {
    if s.len() < 7 {
        Err(PipelineError::NotEnoughAccounts)
    } else {
        let ctx = ExecutionContext {
            mint: s[0],
            holding: s[1],
            wallet: s[2],
            rent_sysvar: s[3],
            system_program: s[4],
            token_program: s[5],
            associated_token_program: s[6],
        };
        if !ctx.wallet.is_signer {
            Err(PipelineError::MissingSignature)
        } else if !ctx.mint.is_writable || !ctx.holding.is_writable || !ctx.wallet.is_writable {
            Err(PipelineError::AccountNotWritable)
        } else {
            Ok(ctx)
        }
    }
}

/// Builds the execution context from the supplied account list, exactly as
/// [`spec_build_context`] says.
pub fn build_context(accounts: &Vec<RoleAccount>) -> (r: Result<ExecutionContext, PipelineError>)
    ensures
        r == spec_build_context(accounts@),
{
    if accounts.len() < 7 {
        return Err(PipelineError::NotEnoughAccounts);
    }
    let ctx = ExecutionContext {
        mint: accounts[0],
        holding: accounts[1],
        wallet: accounts[2],
        rent_sysvar: accounts[3],
        system_program: accounts[4],
        token_program: accounts[5],
        associated_token_program: accounts[6],
    };
    if !ctx.wallet.is_signer {
        return Err(PipelineError::MissingSignature);
    }
    if !ctx.mint.is_writable || !ctx.holding.is_writable || !ctx.wallet.is_writable {
        return Err(PipelineError::AccountNotWritable);
    }
    Ok(ctx)
}

/// The whole pipeline as one ledger-state transition: step 1 provisions
/// the mint storage, step 2 stamps it as a zero-decimal token class with
/// the wallet as both authorities, step 3 provisions the wallet's holding
/// account for the mint, and step 4 mints the single unit of supply into
/// it. The first failing step decides the result and nothing later runs.
pub open spec fn spec_run_pipeline(m: Map<u64, Account>, ctx: ExecutionContext) -> Result<
    Map<u64, Account>,
    PipelineError,
> {
    match spec_create_account(
        m,
        ctx.wallet.addr,
        ctx.wallet.is_signer,
        ctx.mint.addr,
        MINT_DEPOSIT_LAMPORTS,
        MINT_ACCOUNT_SIZE,
        ctx.token_program.addr,
    ) {
        Err(e) => Err(e),
        Ok(m1) => match spec_initialize_mint(
            m1,
            ctx.token_program.addr,
            ctx.mint.addr,
            ctx.wallet.addr,
            Some(ctx.wallet.addr),
            NFT_DECIMALS,
        ) {
            Err(e) => Err(e),
            Ok(m2) => match spec_create_holding_account(
                m2,
                ctx.wallet.addr,
                ctx.wallet.is_signer,
                ctx.wallet.addr,
                ctx.mint.addr,
                ctx.holding.addr,
                HOLDING_DEPOSIT_LAMPORTS,
            ) {
                Err(e) => Err(e),
                Ok(m3) => spec_mint_to(
                    m3,
                    ctx.token_program.addr,
                    ctx.mint.addr,
                    ctx.holding.addr,
                    ctx.wallet.addr,
                    seq![ctx.wallet.addr],
                    NFT_SUPPLY,
                ),
            },
        },
    }
}

/// The pipeline and its context validation together, as one transition on
/// the ledger from the supplied account list.
pub open spec fn spec_process(m: Map<u64, Account>, s: Seq<RoleAccount>) -> Result<
    Map<u64, Account>,
    PipelineError,
> {
    match spec_build_context(s) {
        Err(e) => Err(e),
        Ok(ctx) => spec_run_pipeline(m, ctx),
    }
}

/// Runs the four implemented steps in strict order against the ledger,
/// atomically: on success the ledger becomes exactly what
/// [`spec_run_pipeline`] says; on the first failure the run aborts, the
/// failing step's error is propagated verbatim, and no state change from
/// any earlier step persists.
pub fn run_pipeline(ledger: &mut Ledger, ctx: &ExecutionContext) -> (r: Result<
    (),
    PipelineError,
>)
    ensures
        (match spec_run_pipeline(old(ledger)@, *ctx) {
            Ok(m) => r is Ok && final(ledger)@ == m,
            Err(e) => r == Err::<(), PipelineError>(e) && final(ledger)@ == old(ledger)@,
        }),
{
    let mut work = ledger.snapshot();
    match create_account(
        &mut work,
        ctx.wallet.addr,
        ctx.wallet.is_signer,
        ctx.mint.addr,
        MINT_DEPOSIT_LAMPORTS,
        MINT_ACCOUNT_SIZE,
        ctx.token_program.addr,
    ) {
        Ok(()) => {},
        Err(e) => {
            return Err(e);
        },
    }
    match initialize_mint(
        &mut work,
        ctx.token_program.addr,
        ctx.mint.addr,
        ctx.wallet.addr,
        Some(ctx.wallet.addr),
        NFT_DECIMALS,
    ) {
        Ok(()) => {},
        Err(e) => {
            return Err(e);
        },
    }
    match create_holding_account(
        &mut work,
        ctx.wallet.addr,
        ctx.wallet.is_signer,
        ctx.wallet.addr,
        ctx.mint.addr,
        ctx.holding.addr,
        HOLDING_DEPOSIT_LAMPORTS,
    ) {
        Ok(()) => {},
        Err(e) => {
            return Err(e);
        },
    }
    let mut signers: Vec<u64> = Vec::new();
    signers.push(ctx.wallet.addr);
    proof {
        assert(signers@ =~= seq![ctx.wallet.addr]);
    }
    match mint_to(
        &mut work,
        ctx.token_program.addr,
        ctx.mint.addr,
        ctx.holding.addr,
        ctx.wallet.addr,
        &signers,
        NFT_SUPPLY,
    ) {
        Ok(()) => {},
        Err(e) => {
            return Err(e);
        },
    }
    *ledger = work;
    Ok(())
}

/// The pipeline's entry point: validates the supplied account list, then
/// runs the pipeline atomically. The ledger becomes exactly what
/// [`spec_process`] says; on any failure it is left untouched.
pub fn process_instruction(ledger: &mut Ledger, accounts: &Vec<RoleAccount>) -> (r: Result<
    (),
    PipelineError,
>)
    ensures
        (match spec_process(old(ledger)@, accounts@) {
            Ok(m) => r is Ok && final(ledger)@ == m,
            Err(e) => r == Err::<(), PipelineError>(e) && final(ledger)@ == old(ledger)@,
        }),
{
    let ctx = match build_context(accounts) {
        Ok(c) => c,
        Err(e) => {
            return Err(e);
        },
    };
    run_pipeline(ledger, &ctx)
}

} // verus!
