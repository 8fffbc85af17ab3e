//! A model of the ledger's account records.
//!
//! The pipeline's observable world is a set of ledger accounts, each at an
//! address, each holding a native-token balance, an owning program, a byte
//! size, and typed contents. Addresses and program identities are plain
//! integers here; the pipeline's logic never looks inside a real address,
//! it only compares addresses for equality.
//!
//! The ledger is stored as a record of writes, later writes shadowing
//! earlier ones; its view is the map from each address to the account most
//! recently written there.

use vstd::prelude::*;

verus! {

/// The typed contents of one ledger account.
#[derive(Clone, Copy, Debug, PartialEq, Eq)]
pub enum AccountData {
    /// Freshly allocated storage, not yet stamped by any program.
    Uninitialized,
    /// A mint record: one token class and its global supply, decimals and
    /// authorities.
    Mint {
        /// Number of fractional subunits; zero encodes a whole-unit token.
        decimals: u8,
        /// Units of this token class in circulation.
        supply: u64,
        /// Wallet permitted to mint new units, if any.
        mint_authority: Option<u64>,
        /// Wallet permitted to freeze holding accounts, if any.
        freeze_authority: Option<u64>,
    },
    /// A holding account: one owner's balance of one mint.
    Holding {
        /// Address of the mint this account holds.
        mint: u64,
        /// Wallet that owns this balance.
        owner_wallet: u64,
        /// Units of the mint held.
        amount: u64,
    },
}

/// One ledger account record.
#[derive(Clone, Copy, Debug, PartialEq, Eq)]
pub struct Account {
    /// Native-token balance, which also funds storage exemption.
    pub lamports: u64,
    /// The program that may write into this account.
    pub owner_program: u64,
    /// Allocated storage size in bytes.
    pub size: u64,
    /// Typed contents.
    pub data: AccountData,
}

/// One recorded write: `account` stored at `addr`.
#[derive(Clone, Copy, Debug, PartialEq, Eq)]
pub struct Entry {
    /// The address written to.
    pub addr: u64,
    /// The account stored there by this write.
    pub account: Account,
}

/// The map that a record of writes denotes: each address maps to the
/// account most recently written there.
pub open spec fn entries_map(s: Seq<Entry>) -> Map<u64, Account>
    decreases s.len(),
{
    if s.len() == 0 {
        Map::empty()
    } else {
        entries_map(s.drop_last()).insert(s.last().addr, s.last().account)
    }
}

/// The ledger: account records addressed by integer, viewed as a map from
/// address to account.
pub struct Ledger {
    entries: Vec<Entry>,
}

impl View for Ledger {
    type V = Map<u64, Account>;

    closed spec fn view(&self) -> Map<u64, Account> {
        entries_map(self.entries@)
    }
}

/// If no write at or after position `i` touches `addr`, the writes before
/// `i` alone decide what the whole record says about `addr`.
proof fn lemma_entries_map_suffix_free(s: Seq<Entry>, i: int, addr: u64)
    requires
        0 <= i <= s.len(),
        forall|k: int| i <= k < s.len() ==> s[k].addr != addr,
    ensures
        entries_map(s).contains_key(addr) == entries_map(s.take(i)).contains_key(addr),
        entries_map(s).contains_key(addr) ==> entries_map(s)[addr] == entries_map(s.take(i))[addr],
    decreases s.len() - i,
{
    if i == s.len() {
        assert(s.take(i) =~= s);
    } else {
        let s1 = s.drop_last();
        assert(s[s.len() - 1].addr != addr);
        assert forall|k: int| i <= k < s1.len() implies s1[k].addr != addr by {
            assert(s1[k] == s[k]);
        }
        lemma_entries_map_suffix_free(s1, i, addr);
        assert(s1.take(i) =~= s.take(i));
    }
}

impl Ledger {
    /// An empty ledger: no account exists at any address.
    pub fn new() -> (l: Ledger)
        ensures
            l@ == Map::<u64, Account>::empty(),
    {
        Ledger { entries: Vec::new() }
    }

    /// Stores `account` at `addr`, creating the account there or replacing
    /// what the address held.
    pub fn set(&mut self, addr: u64, account: Account)
        ensures
            final(self)@ == old(self)@.insert(addr, account),
    {
        let entry = Entry { addr, account };
        self.entries.push(entry);
        proof {
            let s0 = old(self).entries@;
            let s1 = self.entries@;
            assert(s1.drop_last() =~= s0);
            assert(s1.last() == entry);
        }
    }

    /// Returns the account stored at `addr`, if one exists.
    pub fn get(&self, addr: u64) -> (r: Option<Account>)
        ensures
            self@.contains_key(addr) ==> r == Some(self@[addr]),
            !self@.contains_key(addr) ==> r is None,
    {
        let n = self.entries.len();
        let mut i: usize = n;
        while i > 0
            invariant
                i <= n,
                n == self.entries.len(),
                forall|k: int| i <= k < n ==> self.entries@[k].addr != addr,
            decreases i,
        {
            i = i - 1;
            if self.entries[i].addr == addr {
                proof {
                    let s = self.entries@;
                    lemma_entries_map_suffix_free(s, i + 1, addr);
                    let t = s.take(i + 1);
                    assert(t.drop_last() =~= s.take(i as int));
                    assert(t.last() == s[i as int]);
                }
                return Some(self.entries[i].account);
            }
        }
        proof {
            lemma_entries_map_suffix_free(self.entries@, 0, addr);
            assert(self.entries@.take(0) =~= Seq::<Entry>::empty());
        }
        None
    }

    /// Returns whether any account exists at `addr`.
    pub fn contains(&self, addr: u64) -> (r: bool)
        ensures
            r == self@.contains_key(addr),
    {
        self.get(addr).is_some()
    }

    /// An independent copy of the ledger, used as scratch state so that a
    /// failing transaction can be discarded whole.
    pub fn snapshot(&self) -> (r: Ledger)
        ensures
            r@ == self@,
    {
        let n = self.entries.len();
        let mut copied: Vec<Entry> = Vec::new();
        let mut i: usize = 0;
        while i < n
            invariant
                i <= n,
                n == self.entries.len(),
                copied@ =~= self.entries@.take(i as int),
            decreases n - i,
        {
            copied.push(self.entries[i]);
            proof {
                assert(self.entries@.take(i + 1) =~= self.entries@.take(i as int).push(
                    self.entries@[i as int],
                ));
            }
            i = i + 1;
        }
        proof {
            assert(self.entries@.take(n as int) =~= self.entries@);
        }
        Ledger { entries: copied }
    }
}

} // verus!
