//! The laws the pipeline obeys, stated over the specification transitions
//! and proved once for all ledgers and inputs.
//!
//! Atomicity itself — a failing run changes nothing — is part of the
//! contracts of [`crate::pipeline::run_pipeline`] and of every step, which
//! leave the ledger untouched on every failure.

use vstd::prelude::*;

use crate::errors::{ErrorClass, PipelineError};
use crate::ledger::{Account, AccountData};
use crate::pipeline::{
    spec_build_context, spec_process, spec_run_pipeline, ExecutionContext, RoleAccount,
};
use crate::steps::{
    spec_create_account, spec_create_holding_account, spec_initialize_mint, spec_mint_to,
    spec_revoke_mint_authority, HOLDING_DEPOSIT_LAMPORTS, MINT_ACCOUNT_SIZE,
    MINT_DEPOSIT_LAMPORTS, NFT_DECIMALS, NFT_SUPPLY,
};

verus! {

/// The circulating supply of the mint record at `addr`, if an initialized
/// mint record stands there.
pub open spec fn mint_supply(m: Map<u64, Account>, addr: u64) -> Option<u64> {
    if m.contains_key(addr) {
        match m[addr].data {
            AccountData::Mint { supply, .. } => Some(supply),
            _ => None,
        }
    } else {
        None
    }
}

/// The decimals of the mint record at `addr`, if an initialized mint
/// record stands there.
pub open spec fn mint_decimals(m: Map<u64, Account>, addr: u64) -> Option<u8> {
    if m.contains_key(addr) {
        match m[addr].data {
            AccountData::Mint { decimals, .. } => Some(decimals),
            _ => None,
        }
    } else {
        None
    }
}

/// The minting authority of the mint record at `addr`, if an initialized
/// mint record stands there and its authority was not revoked.
pub open spec fn mint_authority_of(m: Map<u64, Account>, addr: u64) -> Option<u64> {
    if m.contains_key(addr) {
        match m[addr].data {
            AccountData::Mint { mint_authority, .. } => mint_authority,
            _ => None,
        }
    } else {
        None
    }
}

/// The balance of the holding account at `addr`, if one stands there.
pub open spec fn holding_amount(m: Map<u64, Account>, addr: u64) -> Option<u64> {
    if m.contains_key(addr) {
        match m[addr].data {
            AccountData::Holding { amount, .. } => Some(amount),
            _ => None,
        }
    } else {
        None
    }
}

/// The mint that the holding account at `addr` references, if a holding
/// account stands there.
pub open spec fn holding_mint(m: Map<u64, Account>, addr: u64) -> Option<u64> {
    if m.contains_key(addr) {
        match m[addr].data {
            AccountData::Holding { mint, .. } => Some(mint),
            _ => None,
        }
    } else {
        None
    }
}

/// For every successful run: the final mint supply is exactly one, the
/// final holding-account balance is exactly one, the mint's decimals are
/// zero, the holding account references the mint and is owned by the
/// wallet, the wallet keeps both authorities, the mint record is owned by
/// the token-class program at its standard size, the wallet paid exactly
/// the two storage deposits, and no account at any other address changed.
pub proof fn lemma_success_mints_exactly_one(
    m: Map<u64, Account>,
    ctx: ExecutionContext,
    m_final: Map<u64, Account>,
)
    requires
        spec_run_pipeline(m, ctx) == Ok::<Map<u64, Account>, PipelineError>(m_final),
    ensures
        mint_supply(m_final, ctx.mint.addr) == Some(NFT_SUPPLY),
        mint_decimals(m_final, ctx.mint.addr) == Some(NFT_DECIMALS),
        mint_authority_of(m_final, ctx.mint.addr) == Some(ctx.wallet.addr),
        holding_amount(m_final, ctx.holding.addr) == Some(NFT_SUPPLY),
        holding_mint(m_final, ctx.holding.addr) == Some(ctx.mint.addr),
        m_final.contains_key(ctx.mint.addr),
        m_final[ctx.mint.addr].owner_program == ctx.token_program.addr,
        m_final[ctx.mint.addr].size == MINT_ACCOUNT_SIZE,
        mint_supply(m, ctx.mint.addr) is None,
        m_final.contains_key(ctx.wallet.addr),
        m.contains_key(ctx.wallet.addr),
        m_final[ctx.wallet.addr].lamports == m[ctx.wallet.addr].lamports
            - MINT_DEPOSIT_LAMPORTS - HOLDING_DEPOSIT_LAMPORTS,
        forall|a: u64|
            a != ctx.wallet.addr && a != ctx.mint.addr && a != ctx.holding.addr ==> (
            m_final.contains_key(a) == m.contains_key(a) && (m.contains_key(a)
                ==> m_final[a] == m[a])),
{
    let wallet = ctx.wallet.addr;
    let mint_addr = ctx.mint.addr;
    let holding_addr = ctx.holding.addr;
    let r1 = spec_create_account(
        m,
        wallet,
        ctx.wallet.is_signer,
        mint_addr,
        MINT_DEPOSIT_LAMPORTS,
        MINT_ACCOUNT_SIZE,
        ctx.token_program.addr,
    );
    assert(r1 is Ok);
    let m1 = r1->Ok_0;
    assert(m.contains_key(wallet));
    assert(!m.contains_key(mint_addr));
    assert(wallet != mint_addr);
    let r2 = spec_initialize_mint(
        m1,
        ctx.token_program.addr,
        mint_addr,
        wallet,
        Some(wallet),
        NFT_DECIMALS,
    );
    assert(r2 is Ok);
    let m2 = r2->Ok_0;
    let r3 = spec_create_holding_account(
        m2,
        wallet,
        ctx.wallet.is_signer,
        wallet,
        mint_addr,
        holding_addr,
        HOLDING_DEPOSIT_LAMPORTS,
    );
    assert(r3 is Ok);
    let m3 = r3->Ok_0;
    assert(!m2.contains_key(holding_addr));
    assert(m2.contains_key(wallet));
    assert(m2.contains_key(mint_addr));
    assert(holding_addr != wallet);
    assert(holding_addr != mint_addr);
    let r4 = spec_mint_to(
        m3,
        ctx.token_program.addr,
        mint_addr,
        holding_addr,
        wallet,
        seq![wallet],
        NFT_SUPPLY,
    );
    assert(r4 is Ok);
    assert(m_final == r4->Ok_0);
    assert(m3[mint_addr].data matches AccountData::Mint { supply, .. } && supply == 0);
    assert(m3[holding_addr].data matches AccountData::Holding { amount, .. } && amount == 0);
    assert(m_final[mint_addr].data matches AccountData::Mint { supply, .. } && supply
        == NFT_SUPPLY);
    assert(m_final[holding_addr].data matches AccountData::Holding { amount, mint, .. } && amount
        == NFT_SUPPLY && mint == mint_addr);
    assert(m_final[wallet] == m3[wallet]);
    assert(m3[wallet].lamports == m2[wallet].lamports - HOLDING_DEPOSIT_LAMPORTS);
    assert(m2[wallet] == m1[wallet]);
    assert(m1[wallet].lamports == m[wallet].lamports - MINT_DEPOSIT_LAMPORTS);
}

/// Idempotence is absent by design: running the full pipeline a second
/// time against the same mint address fails at step 1 with an address
/// collision, an allocation-class failure, and (by the pipeline's
/// contract) changes nothing.
pub proof fn lemma_rerun_same_mint_collides(
    m: Map<u64, Account>,
    ctx: ExecutionContext,
    m_final: Map<u64, Account>,
)
    requires
        spec_run_pipeline(m, ctx) == Ok::<Map<u64, Account>, PipelineError>(m_final),
    ensures
        spec_run_pipeline(m_final, ctx) == Err::<Map<u64, Account>, PipelineError>(
            PipelineError::AccountAlreadyExists,
        ),
        PipelineError::AccountAlreadyExists.spec_class() == ErrorClass::Allocation,
{
    lemma_success_mints_exactly_one(m, ctx, m_final);
    let r1 = spec_create_account(
        m,
        ctx.wallet.addr,
        ctx.wallet.is_signer,
        ctx.mint.addr,
        MINT_DEPOSIT_LAMPORTS,
        MINT_ACCOUNT_SIZE,
        ctx.token_program.addr,
    );
    assert(r1 is Ok);
    assert(ctx.wallet.is_signer);
    assert(m_final.contains_key(ctx.wallet.addr));
    assert(m_final.contains_key(ctx.mint.addr));
}

/// Supplying a signer list for the supply-minting step that excludes the
/// mint authority fails with an authorization-class error; since the step
/// fails, its contract leaves the ledger — and so the supply — unchanged.
pub proof fn lemma_mint_to_unauthorized_fails(
    m: Map<u64, Account>,
    token_program: u64,
    mint_addr: u64,
    dest_addr: u64,
    authority: u64,
    signers: Seq<u64>,
    amount: u64,
)
    requires
        m.contains_key(mint_addr),
        m[mint_addr].owner_program == token_program,
        m[mint_addr].data is Mint,
        !signers.contains(authority),
    ensures
        spec_mint_to(m, token_program, mint_addr, dest_addr, authority, signers, amount) is Err,
        spec_mint_to(
            m,
            token_program,
            mint_addr,
            dest_addr,
            authority,
            signers,
            amount,
        )->Err_0.spec_class() == ErrorClass::Authorization,
{
}

/// Reordering steps 3 and 4 — minting before the holding account exists —
/// fails with a state-class error: the destination account is not found.
pub proof fn lemma_mint_to_before_holding_account_fails(
    m: Map<u64, Account>,
    token_program: u64,
    mint_addr: u64,
    dest_addr: u64,
    authority: u64,
    signers: Seq<u64>,
    amount: u64,
)
    requires
        m.contains_key(mint_addr),
        m[mint_addr].owner_program == token_program,
        m[mint_addr].data matches AccountData::Mint { mint_authority, .. } && mint_authority
            == Some(authority),
        signers.contains(authority),
        !m.contains_key(dest_addr),
    ensures
        spec_mint_to(m, token_program, mint_addr, dest_addr, authority, signers, amount)
            == Err::<Map<u64, Account>, PipelineError>(PipelineError::AccountNotFound),
        PipelineError::AccountNotFound.spec_class() == ErrorClass::State,
{
}

/// The pipeline with its two mutating tail steps swapped: the supply
/// minting issued before the holding account is provisioned. The
/// implemented entry point fixes the order of the steps; this transition
/// exists only to state what the reordering would do.
pub open spec fn spec_run_pipeline_steps_swapped(
    m: Map<u64, Account>,
    ctx: ExecutionContext,
) -> Result<Map<u64, Account>, PipelineError> {
    match spec_create_account(
        m,
        ctx.wallet.addr,
        ctx.wallet.is_signer,
        ctx.mint.addr,
        MINT_DEPOSIT_LAMPORTS,
        MINT_ACCOUNT_SIZE,
        ctx.token_program.addr,
    ) {
        Err(e) => Err(e),
        Ok(m1) => match spec_initialize_mint(
            m1,
            ctx.token_program.addr,
            ctx.mint.addr,
            ctx.wallet.addr,
            Some(ctx.wallet.addr),
            NFT_DECIMALS,
        ) {
            Err(e) => Err(e),
            Ok(m2) => match spec_mint_to(
                m2,
                ctx.token_program.addr,
                ctx.mint.addr,
                ctx.holding.addr,
                ctx.wallet.addr,
                seq![ctx.wallet.addr],
                NFT_SUPPLY,
            ) {
                Err(e) => Err(e),
                Ok(m3) => spec_create_holding_account(
                    m3,
                    ctx.wallet.addr,
                    ctx.wallet.is_signer,
                    ctx.wallet.addr,
                    ctx.mint.addr,
                    ctx.holding.addr,
                    HOLDING_DEPOSIT_LAMPORTS,
                ),
            },
        },
    }
}

/// Reordering steps 3 and 4 never mints: on every ledger in which the
/// holding address does not already carry a holding account of this very
/// mint, the swapped composition fails at one of its steps, whichever
/// step it is.
pub proof fn lemma_reordering_never_mints(m: Map<u64, Account>, ctx: ExecutionContext)
    requires
        holding_mint(m, ctx.holding.addr) != Some(ctx.mint.addr),
    ensures
        spec_run_pipeline_steps_swapped(m, ctx) is Err,
{
    let wallet = ctx.wallet.addr;
    let mint_addr = ctx.mint.addr;
    let holding_addr = ctx.holding.addr;
    let r1 = spec_create_account(
        m,
        wallet,
        ctx.wallet.is_signer,
        mint_addr,
        MINT_DEPOSIT_LAMPORTS,
        MINT_ACCOUNT_SIZE,
        ctx.token_program.addr,
    );
    if r1 is Ok {
        let m1 = r1->Ok_0;
        let r2 = spec_initialize_mint(
            m1,
            ctx.token_program.addr,
            mint_addr,
            wallet,
            Some(wallet),
            NFT_DECIMALS,
        );
        if r2 is Ok {
            let m2 = r2->Ok_0;
            assert(m2[mint_addr].data is Mint);
            if holding_addr == mint_addr {
                assert(!(m2[holding_addr].data is Holding));
            } else if holding_addr == wallet {
                assert(m2[holding_addr].data == m[wallet].data);
            } else {
                assert(m2.contains_key(holding_addr) == m.contains_key(holding_addr));
                if m.contains_key(holding_addr) {
                    assert(m2[holding_addr] == m[holding_addr]);
                }
            }
            assert(spec_mint_to(
                m2,
                ctx.token_program.addr,
                mint_addr,
                holding_addr,
                wallet,
                seq![wallet],
                NFT_SUPPLY,
            ) is Err);
        }
    }
}

/// The scenario form of the reordering law: after steps 1 and 2 succeed
/// and with a fresh holding address, the swapped composition fails exactly
/// with the account-not-found state error — the holding account it must
/// credit does not exist yet.
pub proof fn lemma_reordered_steps_fail(m: Map<u64, Account>, ctx: ExecutionContext)
    requires
        spec_create_account(
            m,
            ctx.wallet.addr,
            ctx.wallet.is_signer,
            ctx.mint.addr,
            MINT_DEPOSIT_LAMPORTS,
            MINT_ACCOUNT_SIZE,
            ctx.token_program.addr,
        ) is Ok,
        spec_initialize_mint(
            spec_create_account(
                m,
                ctx.wallet.addr,
                ctx.wallet.is_signer,
                ctx.mint.addr,
                MINT_DEPOSIT_LAMPORTS,
                MINT_ACCOUNT_SIZE,
                ctx.token_program.addr,
            )->Ok_0,
            ctx.token_program.addr,
            ctx.mint.addr,
            ctx.wallet.addr,
            Some(ctx.wallet.addr),
            NFT_DECIMALS,
        ) is Ok,
        !m.contains_key(ctx.holding.addr),
        ctx.holding.addr != ctx.wallet.addr,
        ctx.holding.addr != ctx.mint.addr,
    ensures
        spec_run_pipeline_steps_swapped(m, ctx) == Err::<Map<u64, Account>, PipelineError>(
            PipelineError::AccountNotFound,
        ),
        PipelineError::AccountNotFound.spec_class() == ErrorClass::State,
{
    let m1 = spec_create_account(
        m,
        ctx.wallet.addr,
        ctx.wallet.is_signer,
        ctx.mint.addr,
        MINT_DEPOSIT_LAMPORTS,
        MINT_ACCOUNT_SIZE,
        ctx.token_program.addr,
    )->Ok_0;
    let m2 = spec_initialize_mint(
        m1,
        ctx.token_program.addr,
        ctx.mint.addr,
        ctx.wallet.addr,
        Some(ctx.wallet.addr),
        NFT_DECIMALS,
    )->Ok_0;
    assert(!m2.contains_key(ctx.holding.addr));
    assert(seq![ctx.wallet.addr][0] == ctx.wallet.addr);
    assert(seq![ctx.wallet.addr].contains(ctx.wallet.addr));
    lemma_mint_to_before_holding_account_fails(
        m2,
        ctx.token_program.addr,
        ctx.mint.addr,
        ctx.holding.addr,
        ctx.wallet.addr,
        seq![ctx.wallet.addr],
        NFT_SUPPLY,
    );
}

/// The happy path: success is owed. With the wallet a signer, its account
/// existing and funded with at least both storage deposits together — the
/// mint record's whole-native-token deposit and the holding account's —
/// and with fresh, distinct mint and holding addresses, the pipeline
/// succeeds. A wallet holding only the mint deposit is not enough: step 3
/// draws the holding-account deposit from the same wallet.
pub proof fn lemma_happy_path_succeeds(m: Map<u64, Account>, ctx: ExecutionContext)
    requires
        ctx.wallet.is_signer,
        m.contains_key(ctx.wallet.addr),
        m[ctx.wallet.addr].lamports >= MINT_DEPOSIT_LAMPORTS + HOLDING_DEPOSIT_LAMPORTS,
        !m.contains_key(ctx.mint.addr),
        !m.contains_key(ctx.holding.addr),
        ctx.mint.addr != ctx.holding.addr,
    ensures
        spec_run_pipeline(m, ctx) is Ok,
{
    let wallet = ctx.wallet.addr;
    let mint_addr = ctx.mint.addr;
    let holding_addr = ctx.holding.addr;
    let r1 = spec_create_account(
        m,
        wallet,
        ctx.wallet.is_signer,
        mint_addr,
        MINT_DEPOSIT_LAMPORTS,
        MINT_ACCOUNT_SIZE,
        ctx.token_program.addr,
    );
    assert(r1 is Ok);
    let m1 = r1->Ok_0;
    assert(wallet != mint_addr);
    assert(holding_addr != wallet);
    let r2 = spec_initialize_mint(
        m1,
        ctx.token_program.addr,
        mint_addr,
        wallet,
        Some(wallet),
        NFT_DECIMALS,
    );
    assert(m1[mint_addr].data is Uninitialized);
    assert(r2 is Ok);
    let m2 = r2->Ok_0;
    assert(!m2.contains_key(holding_addr));
    assert(m2[wallet].lamports >= HOLDING_DEPOSIT_LAMPORTS);
    let r3 = spec_create_holding_account(
        m2,
        wallet,
        ctx.wallet.is_signer,
        wallet,
        mint_addr,
        holding_addr,
        HOLDING_DEPOSIT_LAMPORTS,
    );
    assert(r3 is Ok);
    let m3 = r3->Ok_0;
    assert(seq![wallet][0] == wallet);
    assert(seq![wallet].contains(wallet));
    assert(m3[mint_addr].data matches AccountData::Mint { supply, mint_authority, .. } && supply
        == 0 && mint_authority == Some(wallet));
    assert(m3[holding_addr].data matches AccountData::Holding { mint, amount, .. } && mint
        == mint_addr && amount == 0);
    let r4 = spec_mint_to(
        m3,
        ctx.token_program.addr,
        mint_addr,
        holding_addr,
        wallet,
        seq![wallet],
        NFT_SUPPLY,
    );
    assert(r4 is Ok);
}

/// The happy path at the entry point itself: a seven-account list with the
/// required flags — mint, holding account and wallet writable, the wallet
/// a signer — a funded wallet account, and fresh, distinct mint and
/// holding addresses make the whole run succeed.
pub proof fn lemma_happy_path_process_succeeds(m: Map<u64, Account>, s: Seq<RoleAccount>)
    requires
        s.len() == 7,
        s[2].is_signer,
        s[0].is_writable,
        s[1].is_writable,
        s[2].is_writable,
        m.contains_key(s[2].addr),
        m[s[2].addr].lamports >= MINT_DEPOSIT_LAMPORTS + HOLDING_DEPOSIT_LAMPORTS,
        !m.contains_key(s[0].addr),
        !m.contains_key(s[1].addr),
        s[0].addr != s[1].addr,
    ensures
        spec_process(m, s) is Ok,
{
    let built = spec_build_context(s);
    assert(built is Ok);
    let ctx = built->Ok_0;
    lemma_happy_path_succeeds(m, ctx);
}

/// Once the minting authority is revoked, no supply-minting attempt
/// against the mint can ever succeed again, whoever asks and whoever
/// signs: the supply is permanently fixed.
pub proof fn lemma_revoked_authority_fixes_supply(
    m: Map<u64, Account>,
    token_program: u64,
    mint_addr: u64,
    authority: u64,
    signers: Seq<u64>,
    m_sealed: Map<u64, Account>,
)
    requires
        spec_revoke_mint_authority(m, token_program, mint_addr, authority, signers)
            == Ok::<Map<u64, Account>, PipelineError>(m_sealed),
    ensures
        forall|program2: u64, dest: u64, authority2: u64, signers2: Seq<u64>, amount: u64|
            spec_mint_to(m_sealed, program2, mint_addr, dest, authority2, signers2, amount)
                is Err,
        mint_supply(m_sealed, mint_addr) == mint_supply(m, mint_addr),
{
    assert forall|program2: u64, dest: u64, authority2: u64, signers2: Seq<u64>, amount: u64|
        spec_mint_to(m_sealed, program2, mint_addr, dest, authority2, signers2, amount)
            is Err by {
        assert(m_sealed[mint_addr].data matches AccountData::Mint { mint_authority, .. }
            && mint_authority is None);
    }
}

/// A payer whose balance is below the mint-record deposit makes the whole
/// pipeline fail at step 1 with the insufficient-funds allocation error;
/// by the pipeline's contract, no account is created.
pub proof fn lemma_underfunded_payer_fails_at_step_one(
    m: Map<u64, Account>,
    ctx: ExecutionContext,
)
    requires
        ctx.wallet.is_signer,
        m.contains_key(ctx.wallet.addr),
        !m.contains_key(ctx.mint.addr),
        m[ctx.wallet.addr].lamports < MINT_DEPOSIT_LAMPORTS,
    ensures
        spec_run_pipeline(m, ctx) == Err::<Map<u64, Account>, PipelineError>(
            PipelineError::InsufficientFunds,
        ),
        PipelineError::InsufficientFunds.spec_class() == ErrorClass::Allocation,
{
}

} // verus!
