use vstd::prelude::*;

use crate::pubkey::{is_wildcard, Pubkey};

verus! {

/// Why an instruction was rejected. Every rejection leaves the records as
/// they were.
#[derive(Clone, Copy, Debug, PartialEq, Eq, Structural)]
pub enum ErrorCode {
    /// A record already exists under the derived key.
    AlreadyExists,
    /// The supplied bump does not reproduce the canonical derived address, or
    /// no address can be derived.
    DerivationMismatch,
    /// The signer is not the governor's smart wallet.
    Unauthorized,
    /// The program to whitelist is not an executable account.
    NotExecutable,
    /// The supplied program id differs from the one recorded on the entry.
    IdentityMismatch,
    /// The record acted upon does not exist (never created, or closed).
    AccountNotInitialized,
}

/// The parent configuration of escrows and whitelist entries, as read here.
#[derive(Clone, Copy, Debug)]
pub struct Locker {
    /// The locker's own address.
    pub key: Pubkey,
    /// Mint of the token that is locked.
    pub token_mint: Pubkey,
}

/// The governor of a locker, as read here.
#[derive(Clone, Copy, Debug)]
pub struct Governor {
    /// The single signer whose authorization every whitelist change needs.
    pub smart_wallet: Pubkey,
}

/// An account passed to an instruction, with its `executable` flag.
#[derive(Clone, Copy, Debug)]
pub struct AccountInfo {
    pub key: Pubkey,
    pub executable: bool,
}

/// A locked-token position of one owner under one locker.
#[derive(Clone, Copy, Debug)]
pub struct Escrow {
    pub locker: Pubkey,
    pub owner: Pubkey,
    /// Bump seed of the escrow's derived address.
    pub bump: u8,
    /// The escrow's token vault: its associated token account for the mint.
    pub tokens: Pubkey,
    pub amount: u64,
    pub escrow_started_at: i64,
    pub escrow_ends_at: i64,
    pub vote_delegate: Pubkey,
}

/// Permission for `program_id` to act through nested calls on the escrow of
/// `owner` under `locker`; on every escrow of the locker where `owner` is
/// the wildcard.
#[derive(Clone, Copy, Debug)]
pub struct LockerWhitelistEntry {
    pub bump: u8,
    pub locker: Pubkey,
    pub program_id: Pubkey,
    pub owner: Pubkey,
}

pub open spec fn has_escrow(escrows: Seq<Escrow>, locker: Pubkey, owner: Pubkey) -> bool {
    exists|i: int| 0 <= i < escrows.len() && escrows[i].locker == locker && escrows[i].owner == owner
}

/// At most one escrow per `(locker, owner)`.
pub open spec fn escrow_keys_unique(escrows: Seq<Escrow>) -> bool {
    forall|i: int, j: int|
        0 <= i < escrows.len() && 0 <= j < escrows.len() && escrows[i].locker == escrows[j].locker
            && escrows[i].owner == escrows[j].owner ==> i == j
}

pub open spec fn entry_has_key(e: LockerWhitelistEntry, locker: Pubkey, program_id: Pubkey, owner: Pubkey) -> bool {
    e.locker == locker && e.program_id == program_id && e.owner == owner
}

pub open spec fn has_entry(entries: Seq<LockerWhitelistEntry>, locker: Pubkey, program_id: Pubkey, owner: Pubkey) -> bool {
    exists|i: int| 0 <= i < entries.len() && entry_has_key(entries[i], locker, program_id, owner)
}

/// At most one whitelist entry per `(locker, program_id, owner)`.
pub open spec fn entry_keys_unique(entries: Seq<LockerWhitelistEntry>) -> bool {
    forall|i: int, j: int|
        0 <= i < entries.len() && 0 <= j < entries.len() && entry_has_key(
            entries[i],
            entries[j].locker,
            entries[j].program_id,
            entries[j].owner,
        ) ==> i == j
}

/// `program_id` may act on the escrow of `owner` under `locker`: an entry
/// names that owner, or the wildcard.
pub open spec fn authorized(entries: Seq<LockerWhitelistEntry>, locker: Pubkey, program_id: Pubkey, owner: Pubkey) -> bool {
    exists|i: int|
        0 <= i < entries.len() && entries[i].locker == locker && entries[i].program_id == program_id
            && (entries[i].owner == owner || is_wildcard(entries[i].owner))
}

/// The records of the program: escrows and whitelist entries, each kept
/// unique by its key.
pub struct Ledger {
    /// Address of this program, under which record addresses are derived.
    pub program_id: Pubkey,
    pub escrows: Vec<Escrow>,
    pub whitelist: Vec<LockerWhitelistEntry>,
}

impl Ledger {
    pub open spec fn wf(&self) -> bool {
        escrow_keys_unique(self.escrows@) && entry_keys_unique(self.whitelist@)
    }

    /// A ledger with no records.
    pub fn new(program_id: Pubkey) -> (r: Ledger)
        ensures
            r.wf(),
            r.program_id == program_id,
            r.escrows@ == Seq::<Escrow>::empty(),
            r.whitelist@ == Seq::<LockerWhitelistEntry>::empty(),
    {
        Ledger { program_id, escrows: Vec::new(), whitelist: Vec::new() }
    }

    /// Whether every escrow and every whitelist entry has a key of its own.
    pub fn is_well_formed(&self) -> (r: bool)
        ensures
            r == self.wf(),
    {
        let mut i: usize = 0;
        while i < self.escrows.len()
            invariant
                0 <= i <= self.escrows@.len(),
                forall|a: int, b: int|
                    0 <= a < i && 0 <= b < self.escrows@.len() && self.escrows@[a].locker
                        == self.escrows@[b].locker && self.escrows@[a].owner == self.escrows@[b].owner
                        ==> a == b,
            decreases self.escrows@.len() - i,
        {
            let mut j: usize = 0;
            while j < self.escrows.len()
                invariant
                    0 <= i < self.escrows@.len(),
                    0 <= j <= self.escrows@.len(),
                    forall|a: int, b: int|
                        0 <= a < i && 0 <= b < self.escrows@.len() && self.escrows@[a].locker
                            == self.escrows@[b].locker && self.escrows@[a].owner
                            == self.escrows@[b].owner ==> a == b,
                    forall|b: int|
                        0 <= b < j && self.escrows@[i as int].locker == self.escrows@[b].locker
                            && self.escrows@[i as int].owner == self.escrows@[b].owner ==> b == i,
                decreases self.escrows@.len() - j,
            {
                if j != i && self.escrows[i].locker.equals(&self.escrows[j].locker)
                    && self.escrows[i].owner.equals(&self.escrows[j].owner) {
                    return false;
                }
                j = j + 1;
            }
            i = i + 1;
        }
        let mut i: usize = 0;
        while i < self.whitelist.len()
            invariant
                escrow_keys_unique(self.escrows@),
                0 <= i <= self.whitelist@.len(),
                forall|a: int, b: int|
                    0 <= a < i && 0 <= b < self.whitelist@.len() && entry_has_key(
                        self.whitelist@[a],
                        self.whitelist@[b].locker,
                        self.whitelist@[b].program_id,
                        self.whitelist@[b].owner,
                    ) ==> a == b,
            decreases self.whitelist@.len() - i,
        {
            let e = &self.whitelist[i];
            let mut j: usize = 0;
            while j < self.whitelist.len()
                invariant
                    0 <= i < self.whitelist@.len(),
                    0 <= j <= self.whitelist@.len(),
                    *e == self.whitelist@[i as int],
                    forall|a: int, b: int|
                        0 <= a < i && 0 <= b < self.whitelist@.len() && entry_has_key(
                            self.whitelist@[a],
                            self.whitelist@[b].locker,
                            self.whitelist@[b].program_id,
                            self.whitelist@[b].owner,
                        ) ==> a == b,
                    forall|b: int|
                        0 <= b < j && entry_has_key(
                            *e,
                            self.whitelist@[b].locker,
                            self.whitelist@[b].program_id,
                            self.whitelist@[b].owner,
                        ) ==> b == i,
                decreases self.whitelist@.len() - j,
            {
                let f = &self.whitelist[j];
                if j != i && e.locker.equals(&f.locker) && e.program_id.equals(&f.program_id)
                    && e.owner.equals(&f.owner) {
                    assert(entry_has_key(
                        self.whitelist@[i as int],
                        self.whitelist@[j as int].locker,
                        self.whitelist@[j as int].program_id,
                        self.whitelist@[j as int].owner,
                    ));
                    return false;
                }
                j = j + 1;
            }
            i = i + 1;
        }
        true
    }

    /// Position of the escrow of `(locker, owner)`.
    pub fn find_escrow(&self, locker: &Pubkey, owner: &Pubkey) -> (r: Option<usize>)
        ensures
            match r {
                Some(i) => i < self.escrows@.len() && self.escrows@[i as int].locker == *locker
                    && self.escrows@[i as int].owner == *owner,
                None => !has_escrow(self.escrows@, *locker, *owner),
            },
    {
        let mut i: usize = 0;
        while i < self.escrows.len()
            invariant
                0 <= i <= self.escrows@.len(),
                forall|j: int|
                    0 <= j < i ==> !(self.escrows@[j].locker == *locker && self.escrows@[j].owner
                        == *owner),
            decreases self.escrows@.len() - i,
        {
            if self.escrows[i].locker.equals(locker) && self.escrows[i].owner.equals(owner) {
                return Some(i);
            }
            i = i + 1;
        }
        None
    }

    /// The escrow of `(locker, owner)`, if it was created.
    pub fn escrow(&self, locker: &Pubkey, owner: &Pubkey) -> (r: Option<Escrow>)
        ensures
            match r {
                Some(e) => self.escrows@.contains(e) && e.locker == *locker && e.owner == *owner,
                None => !has_escrow(self.escrows@, *locker, *owner),
            },
    {
        match self.find_escrow(locker, owner) {
            Some(i) => Some(self.escrows[i]),
            None => None,
        }
    }

    /// Position of the whitelist entry of `(locker, program_id, owner)`.
    pub fn find_whitelist_entry(&self, locker: &Pubkey, program_id: &Pubkey, owner: &Pubkey) -> (r: Option<usize>)
        ensures
            match r {
                Some(i) => i < self.whitelist@.len() && entry_has_key(
                    self.whitelist@[i as int],
                    *locker,
                    *program_id,
                    *owner,
                ),
                None => !has_entry(self.whitelist@, *locker, *program_id, *owner),
            },
    {
        let mut i: usize = 0;
        while i < self.whitelist.len()
            invariant
                0 <= i <= self.whitelist@.len(),
                forall|j: int|
                    0 <= j < i ==> !entry_has_key(self.whitelist@[j], *locker, *program_id, *owner),
            decreases self.whitelist@.len() - i,
        {
            let e = &self.whitelist[i];
            if e.locker.equals(locker) && e.program_id.equals(program_id) && e.owner.equals(owner) {
                return Some(i);
            }
            i = i + 1;
        }
        None
    }

    /// Whether `calling_program` may act on the escrow of `owner` under
    /// `locker` through a nested call.
    pub fn is_authorized(&self, locker: &Pubkey, calling_program: &Pubkey, owner: &Pubkey) -> (r: bool)
        ensures
            r == authorized(self.whitelist@, *locker, *calling_program, *owner),
    {
        let wildcard = Pubkey::wildcard();
        let exact = self.find_whitelist_entry(locker, calling_program, owner);
        let any = self.find_whitelist_entry(locker, calling_program, &wildcard);
        proof {
            if exact is None && any is None {
                assert forall|i: int|
                    0 <= i < self.whitelist@.len() && self.whitelist@[i].locker == *locker
                        && self.whitelist@[i].program_id == *calling_program implies !(
                    self.whitelist@[i].owner == *owner || is_wildcard(self.whitelist@[i].owner)) by {
                    if is_wildcard(self.whitelist@[i].owner) {
                        crate::pubkey::lemma_wildcard_unique(self.whitelist@[i].owner, wildcard);
                        assert(entry_has_key(self.whitelist@[i], *locker, *calling_program, wildcard));
                    }
                    if self.whitelist@[i].owner == *owner {
                        assert(entry_has_key(self.whitelist@[i], *locker, *calling_program, *owner));
                    }
                }
            }
        }
        exact.is_some() || any.is_some()
    }
}

} // verus!
