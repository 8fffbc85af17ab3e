//! The four ordered steps of the minting pipeline, each as a ledger-state
//! transition.
//!
//! Each step has a specification function that says, for every ledger and
//! every input, exactly which result the step returns and what the ledger
//! becomes, and an executable function proved to match it. A step that
//! fails leaves the ledger exactly as it was.

use vstd::prelude::*;

use crate::errors::PipelineError;
use crate::ledger::{Account, AccountData, Ledger};

verus! {

/// Standard byte size of a mint record.
pub const MINT_ACCOUNT_SIZE: u64 = 82;

/// Standard byte size of a holding-account record.
pub const HOLDING_ACCOUNT_SIZE: u64 = 165;

/// Storage-exemption deposit for the mint record: one whole native token.
pub const MINT_DEPOSIT_LAMPORTS: u64 = 1_000_000_000;

/// Storage-exemption deposit for the holding-account record.
pub const HOLDING_DEPOSIT_LAMPORTS: u64 = 2_039_280;

/// Decimals of a non-fungible token class: whole units only.
pub const NFT_DECIMALS: u8 = 0;

/// The entire intended supply of a non-fungible token class.
pub const NFT_SUPPLY: u64 = 1;

/// Step 1, account provisioning: debit the signing payer by `deposit` and
/// create a fresh account of `size` bytes at `new_addr`, owned by
/// `owner_program`. Refusals, in the order checked: the payer did not sign;
/// no account exists for the payer; an account already exists at
/// `new_addr`; the payer's balance is below the deposit.
pub open spec fn spec_create_account(
    m: Map<u64, Account>,
    payer: u64,
    payer_signed: bool,
    new_addr: u64,
    deposit: u64,
    size: u64,
    owner_program: u64,
) -> Result<Map<u64, Account>, PipelineError> {
    if !payer_signed {
        Err(PipelineError::MissingSignature)
    } else if !m.contains_key(payer) {
        Err(PipelineError::AccountNotFound)
    } else if m.contains_key(new_addr) {
        Err(PipelineError::AccountAlreadyExists)
    } else if m[payer].lamports < deposit {
        Err(PipelineError::InsufficientFunds)
    } else {
        let debited = Account {
            lamports: (m[payer].lamports - deposit) as u64,
            owner_program: m[payer].owner_program,
            size: m[payer].size,
            data: m[payer].data,
        };
        let fresh = Account {
            lamports: deposit,
            owner_program,
            size,
            data: AccountData::Uninitialized,
        };
        Ok(m.insert(payer, debited).insert(new_addr, fresh))
    }
}

/// Step 2, token-class initialization: stamp the freshly allocated storage
/// at `mint_addr` as a mint record with the given decimals and with
/// `mint_authority` as both minting and (optionally) freezing authority.
/// Refusals, in the order checked: no account exists at `mint_addr`; the
/// account is not owned by `token_program`; the storage does not have the
/// standard mint size; the storage was already initialized.
pub open spec fn spec_initialize_mint(
    m: Map<u64, Account>,
    token_program: u64,
    mint_addr: u64,
    mint_authority: u64,
    freeze_authority: Option<u64>,
    decimals: u8,
) -> Result<Map<u64, Account>, PipelineError> {
    if !m.contains_key(mint_addr) {
        Err(PipelineError::AccountNotFound)
    } else if m[mint_addr].owner_program != token_program {
        Err(PipelineError::InvalidAccountOwner)
    } else if m[mint_addr].size != MINT_ACCOUNT_SIZE {
        Err(PipelineError::InvalidAccountSize)
    } else if !(m[mint_addr].data is Uninitialized) {
        Err(PipelineError::AlreadyInitialized)
    } else {
        let stamped = Account {
            lamports: m[mint_addr].lamports,
            owner_program: m[mint_addr].owner_program,
            size: m[mint_addr].size,
            data: AccountData::Mint {
                decimals,
                supply: 0,
                mint_authority: Some(mint_authority),
                freeze_authority,
            },
        };
        Ok(m.insert(mint_addr, stamped))
    }
}

/// Step 3, holding-account provisioning: debit the signing funder by
/// `deposit` and create the holding account for (`owner_wallet`,
/// `mint_addr`) at `holding_addr`, with balance zero, owned by the same
/// program that owns the mint. Refusals, in the order checked: the funder
/// did not sign; an account already exists at `holding_addr`; no account
/// exists at `mint_addr`; the account at `mint_addr` is not a mint record;
/// no account exists for the funder; the funder's balance is below the
/// deposit.
pub open spec fn spec_create_holding_account(
    m: Map<u64, Account>,
    funder: u64,
    funder_signed: bool,
    owner_wallet: u64,
    mint_addr: u64,
    holding_addr: u64,
    deposit: u64,
) -> Result<Map<u64, Account>, PipelineError> {
    if !funder_signed {
        Err(PipelineError::MissingSignature)
    } else if m.contains_key(holding_addr) {
        Err(PipelineError::AccountAlreadyExists)
    } else if !m.contains_key(mint_addr) {
        Err(PipelineError::AccountNotFound)
    } else if !(m[mint_addr].data is Mint) {
        Err(PipelineError::UninitializedAccount)
    } else if !m.contains_key(funder) {
        Err(PipelineError::AccountNotFound)
    } else if m[funder].lamports < deposit {
        Err(PipelineError::InsufficientFunds)
    } else {
        let debited = Account {
            lamports: (m[funder].lamports - deposit) as u64,
            owner_program: m[funder].owner_program,
            size: m[funder].size,
            data: m[funder].data,
        };
        let holding = Account {
            lamports: deposit,
            owner_program: m[mint_addr].owner_program,
            size: HOLDING_ACCOUNT_SIZE,
            data: AccountData::Holding { mint: mint_addr, owner_wallet, amount: 0 },
        };
        Ok(m.insert(funder, debited).insert(holding_addr, holding))
    }
}

/// Step 4, supply minting: increase the supply of the mint at `mint_addr`
/// by `amount` and credit the holding account at `dest_addr` by the same
/// amount. Refusals, in the order checked: no account exists at
/// `mint_addr`; the mint is not owned by `token_program`; the account at
/// `mint_addr` is not an initialized mint record; the supplied authority
/// is not the mint's minting authority; the authority is not among the
/// signers; no account exists at `dest_addr`; the account at `dest_addr`
/// is not a holding account; the holding account references a different
/// mint; the supply or the destination balance would overflow.
pub open spec fn spec_mint_to(
    m: Map<u64, Account>,
    token_program: u64,
    mint_addr: u64,
    dest_addr: u64,
    authority: u64,
    signers: Seq<u64>,
    amount: u64,
) -> Result<Map<u64, Account>, PipelineError> {
    if !m.contains_key(mint_addr) {
        Err(PipelineError::AccountNotFound)
    } else if m[mint_addr].owner_program != token_program {
        Err(PipelineError::InvalidAccountOwner)
    } else if !(m[mint_addr].data is Mint) {
        Err(PipelineError::UninitializedAccount)
    } else {
        let mint_account = m[mint_addr];
        match mint_account.data {
            AccountData::Mint { decimals, supply, mint_authority, freeze_authority } => {
                if mint_authority != Some(authority) {
                    Err(PipelineError::InvalidAuthority)
                } else if !signers.contains(authority) {
                    Err(PipelineError::MissingSignature)
                } else if !m.contains_key(dest_addr) {
                    Err(PipelineError::AccountNotFound)
                } else if !(m[dest_addr].data is Holding) {
                    Err(PipelineError::UninitializedAccount)
                } else {
                    let dest_account = m[dest_addr];
                    match dest_account.data {
                        AccountData::Holding { mint, owner_wallet, amount: held } => {
                            if mint != mint_addr {
                                Err(PipelineError::MintMismatch)
                            } else if supply + amount > u64::MAX {
                                Err(PipelineError::Overflow)
                            } else if held + amount > u64::MAX {
                                Err(PipelineError::Overflow)
                            } else {
                                let minted = Account {
                                    lamports: mint_account.lamports,
                                    owner_program: mint_account.owner_program,
                                    size: mint_account.size,
                                    data: AccountData::Mint {
                                        decimals,
                                        supply: (supply + amount) as u64,
                                        mint_authority,
                                        freeze_authority,
                                    },
                                };
                                let credited = Account {
                                    lamports: dest_account.lamports,
                                    owner_program: dest_account.owner_program,
                                    size: dest_account.size,
                                    data: AccountData::Holding {
                                        mint,
                                        owner_wallet,
                                        amount: (held + amount) as u64,
                                    },
                                };
                                Ok(m.insert(mint_addr, minted).insert(dest_addr, credited))
                            }
                        },
                        _ => Err(PipelineError::UninitializedAccount),
                    }
                }
            },
            _ => Err(PipelineError::UninitializedAccount),
        }
    }
}

/// Account provisioning, the executable step: behaves exactly as
/// [`spec_create_account`] says, and leaves the ledger untouched when it
/// fails.
pub fn create_account(
    ledger: &mut Ledger,
    payer: u64,
    payer_signed: bool,
    new_addr: u64,
    deposit: u64,
    size: u64,
    owner_program: u64,
) -> (r: Result<(), PipelineError>)
    ensures
        (match spec_create_account(
            old(ledger)@,
            payer,
            payer_signed,
            new_addr,
            deposit,
            size,
            owner_program,
        ) {
            Ok(m) => r is Ok && final(ledger)@ == m,
            Err(e) => r == Err::<(), PipelineError>(e) && final(ledger)@ == old(ledger)@,
        }),
{
    if !payer_signed {
        return Err(PipelineError::MissingSignature);
    }
    let payer_account = match ledger.get(payer) {
        Some(a) => a,
        None => {
            return Err(PipelineError::AccountNotFound);
        },
    };
    if ledger.contains(new_addr) {
        return Err(PipelineError::AccountAlreadyExists);
    }
    if payer_account.lamports < deposit {
        return Err(PipelineError::InsufficientFunds);
    }
    let debited = Account {
        lamports: payer_account.lamports - deposit,
        owner_program: payer_account.owner_program,
        size: payer_account.size,
        data: payer_account.data,
    };
    let fresh = Account { lamports: deposit, owner_program, size, data: AccountData::Uninitialized };
    ledger.set(payer, debited);
    ledger.set(new_addr, fresh);
    Ok(())
}

/// Token-class initialization, the executable step: behaves exactly as
/// [`spec_initialize_mint`] says, and leaves the ledger untouched when it
/// fails.
pub fn initialize_mint(
    ledger: &mut Ledger,
    token_program: u64,
    mint_addr: u64,
    mint_authority: u64,
    freeze_authority: Option<u64>,
    decimals: u8,
) -> (r: Result<(), PipelineError>)
    ensures
        (match spec_initialize_mint(
            old(ledger)@,
            token_program,
            mint_addr,
            mint_authority,
            freeze_authority,
            decimals,
        ) {
            Ok(m) => r is Ok && final(ledger)@ == m,
            Err(e) => r == Err::<(), PipelineError>(e) && final(ledger)@ == old(ledger)@,
        }),
{
    let mint_account = match ledger.get(mint_addr) {
        Some(a) => a,
        None => {
            return Err(PipelineError::AccountNotFound);
        },
    };
    if mint_account.owner_program != token_program {
        return Err(PipelineError::InvalidAccountOwner);
    }
    if mint_account.size != MINT_ACCOUNT_SIZE {
        return Err(PipelineError::InvalidAccountSize);
    }
    match mint_account.data {
        AccountData::Uninitialized => {},
        _ => {
            return Err(PipelineError::AlreadyInitialized);
        },
    }
    let stamped = Account {
        lamports: mint_account.lamports,
        owner_program: mint_account.owner_program,
        size: mint_account.size,
        data: AccountData::Mint {
            decimals,
            supply: 0,
            mint_authority: Some(mint_authority),
            freeze_authority,
        },
    };
    ledger.set(mint_addr, stamped);
    Ok(())
}

/// Holding-account provisioning, the executable step: behaves exactly as
/// [`spec_create_holding_account`] says, and leaves the ledger untouched
/// when it fails.
pub fn create_holding_account(
    ledger: &mut Ledger,
    funder: u64,
    funder_signed: bool,
    owner_wallet: u64,
    mint_addr: u64,
    holding_addr: u64,
    deposit: u64,
) -> (r: Result<(), PipelineError>)
    ensures
        (match spec_create_holding_account(
            old(ledger)@,
            funder,
            funder_signed,
            owner_wallet,
            mint_addr,
            holding_addr,
            deposit,
        ) {
            Ok(m) => r is Ok && final(ledger)@ == m,
            Err(e) => r == Err::<(), PipelineError>(e) && final(ledger)@ == old(ledger)@,
        }),
{
    if !funder_signed {
        return Err(PipelineError::MissingSignature);
    }
    if ledger.contains(holding_addr) {
        return Err(PipelineError::AccountAlreadyExists);
    }
    let mint_account = match ledger.get(mint_addr) {
        Some(a) => a,
        None => {
            return Err(PipelineError::AccountNotFound);
        },
    };
    match mint_account.data {
        AccountData::Mint { .. } => {},
        _ => {
            return Err(PipelineError::UninitializedAccount);
        },
    }
    let funder_account = match ledger.get(funder) {
        Some(a) => a,
        None => {
            return Err(PipelineError::AccountNotFound);
        },
    };
    if funder_account.lamports < deposit {
        return Err(PipelineError::InsufficientFunds);
    }
    let debited = Account {
        lamports: funder_account.lamports - deposit,
        owner_program: funder_account.owner_program,
        size: funder_account.size,
        data: funder_account.data,
    };
    let holding = Account {
        lamports: deposit,
        owner_program: mint_account.owner_program,
        size: HOLDING_ACCOUNT_SIZE,
        data: AccountData::Holding { mint: mint_addr, owner_wallet, amount: 0 },
    };
    ledger.set(funder, debited);
    ledger.set(holding_addr, holding);
    Ok(())
}

/// Supply minting, the executable step: behaves exactly as
/// [`spec_mint_to`] says, and leaves the ledger untouched when it fails.
pub fn mint_to(
    ledger: &mut Ledger,
    token_program: u64,
    mint_addr: u64,
    dest_addr: u64,
    authority: u64,
    signers: &Vec<u64>,
    amount: u64,
) -> (r: Result<(), PipelineError>)
    ensures
        (match spec_mint_to(
            old(ledger)@,
            token_program,
            mint_addr,
            dest_addr,
            authority,
            signers@,
            amount,
        ) {
            Ok(m) => r is Ok && final(ledger)@ == m,
            Err(e) => r == Err::<(), PipelineError>(e) && final(ledger)@ == old(ledger)@,
        }),
{
    let mint_account = match ledger.get(mint_addr) {
        Some(a) => a,
        None => {
            return Err(PipelineError::AccountNotFound);
        },
    };
    if mint_account.owner_program != token_program {
        return Err(PipelineError::InvalidAccountOwner);
    }
    let (decimals, supply, mint_authority, freeze_authority) = match mint_account.data {
        AccountData::Mint { decimals, supply, mint_authority, freeze_authority } => (
            decimals,
            supply,
            mint_authority,
            freeze_authority,
        ),
        _ => {
            return Err(PipelineError::UninitializedAccount);
        },
    };
    let authority_matches = match mint_authority {
        Some(a) => a == authority,
        None => false,
    };
    if !authority_matches {
        return Err(PipelineError::InvalidAuthority);
    }
    if !contains_address(signers, authority) {
        return Err(PipelineError::MissingSignature);
    }
    let dest_account = match ledger.get(dest_addr) {
        Some(a) => a,
        None => {
            return Err(PipelineError::AccountNotFound);
        },
    };
    let (mint, owner_wallet, held) = match dest_account.data {
        AccountData::Holding { mint, owner_wallet, amount: held } => (mint, owner_wallet, held),
        _ => {
            return Err(PipelineError::UninitializedAccount);
        },
    };
    if mint != mint_addr {
        return Err(PipelineError::MintMismatch);
    }
    if amount > u64::MAX - supply {
        return Err(PipelineError::Overflow);
    }
    if amount > u64::MAX - held {
        return Err(PipelineError::Overflow);
    }
    let minted = Account {
        lamports: mint_account.lamports,
        owner_program: mint_account.owner_program,
        size: mint_account.size,
        data: AccountData::Mint {
            decimals,
            supply: supply + amount,
            mint_authority,
            freeze_authority,
        },
    };
    let credited = Account {
        lamports: dest_account.lamports,
        owner_program: dest_account.owner_program,
        size: dest_account.size,
        data: AccountData::Holding { mint, owner_wallet, amount: held + amount },
    };
    ledger.set(mint_addr, minted);
    ledger.set(dest_addr, credited);
    Ok(())
}

/// Step 5, authority revocation: null out the mint's minting authority,
/// making its supply permanently fixed. The pipeline never runs this step;
/// it is the documented terminal transition for a caller that wants the
/// one-unit supply sealed. Refusals, in the order checked: no account
/// exists at `mint_addr`; the mint is not owned by `token_program`; the
/// account at `mint_addr` is not an initialized mint record; the supplied
/// authority is not the mint's minting authority; the authority is not
/// among the signers.
pub open spec fn spec_revoke_mint_authority(
    m: Map<u64, Account>,
    token_program: u64,
    mint_addr: u64,
    authority: u64,
    signers: Seq<u64>,
) -> Result<Map<u64, Account>, PipelineError> {
    if !m.contains_key(mint_addr) {
        Err(PipelineError::AccountNotFound)
    } else if m[mint_addr].owner_program != token_program {
        Err(PipelineError::InvalidAccountOwner)
    } else if !(m[mint_addr].data is Mint) {
        Err(PipelineError::UninitializedAccount)
    } else {
        let mint_account = m[mint_addr];
        match mint_account.data {
            AccountData::Mint { decimals, supply, mint_authority, freeze_authority } => {
                if mint_authority != Some(authority) {
                    Err(PipelineError::InvalidAuthority)
                } else if !signers.contains(authority) {
                    Err(PipelineError::MissingSignature)
                } else {
                    let sealed = Account {
                        lamports: mint_account.lamports,
                        owner_program: mint_account.owner_program,
                        size: mint_account.size,
                        data: AccountData::Mint {
                            decimals,
                            supply,
                            mint_authority: None,
                            freeze_authority,
                        },
                    };
                    Ok(m.insert(mint_addr, sealed))
                }
            },
            _ => Err(PipelineError::UninitializedAccount),
        }
    }
}

/// Authority revocation, the executable step: behaves exactly as
/// [`spec_revoke_mint_authority`] says, and leaves the ledger untouched
/// when it fails. The pipeline never calls it; it is a separate entry
/// point.
pub fn revoke_mint_authority(
    ledger: &mut Ledger,
    token_program: u64,
    mint_addr: u64,
    authority: u64,
    signers: &Vec<u64>,
) -> (r: Result<(), PipelineError>)
    ensures
        (match spec_revoke_mint_authority(
            old(ledger)@,
            token_program,
            mint_addr,
            authority,
            signers@,
        ) {
            Ok(m) => r is Ok && final(ledger)@ == m,
            Err(e) => r == Err::<(), PipelineError>(e) && final(ledger)@ == old(ledger)@,
        }),
{
    let mint_account = match ledger.get(mint_addr) {
        Some(a) => a,
        None => {
            return Err(PipelineError::AccountNotFound);
        },
    };
    if mint_account.owner_program != token_program {
        return Err(PipelineError::InvalidAccountOwner);
    }
    let (decimals, supply, mint_authority, freeze_authority) = match mint_account.data {
        AccountData::Mint { decimals, supply, mint_authority, freeze_authority } => (
            decimals,
            supply,
            mint_authority,
            freeze_authority,
        ),
        _ => {
            return Err(PipelineError::UninitializedAccount);
        },
    };
    let authority_matches = match mint_authority {
        Some(a) => a == authority,
        None => false,
    };
    if !authority_matches {
        return Err(PipelineError::InvalidAuthority);
    }
    if !contains_address(signers, authority) {
        return Err(PipelineError::MissingSignature);
    }
    let sealed = Account {
        lamports: mint_account.lamports,
        owner_program: mint_account.owner_program,
        size: mint_account.size,
        data: AccountData::Mint { decimals, supply, mint_authority: None, freeze_authority },
    };
    ledger.set(mint_addr, sealed);
    Ok(())
}

/// Returns whether `addr` occurs in `addresses`.
pub fn contains_address(addresses: &Vec<u64>, addr: u64) -> (r: bool)
    ensures
        r == addresses@.contains(addr),
{
    let n = addresses.len();
    let mut i: usize = 0;
    while i < n
        invariant
            i <= n,
            n == addresses.len(),
            forall|k: int| 0 <= k < i ==> addresses@[k] != addr,
        decreases n - i,
    {
        if addresses[i] == addr {
            return true;
        }
        i = i + 1;
    }
    false
}

} // verus!
