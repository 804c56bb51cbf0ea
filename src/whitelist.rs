use vstd::prelude::*;

use crate::pubkey::{is_wildcard, Pubkey};
use crate::state::{
    authorized, entry_has_key, entry_keys_unique, has_entry, AccountInfo, ErrorCode, Governor, Ledger,
    Locker, LockerWhitelistEntry,
};

verus! {

/// Inputs of a whitelist approval, signed by `smart_wallet`.
#[derive(Clone, Copy, Debug)]
pub struct ApproveProgramLockPrivilege {
    pub locker: Locker,
    pub governor: Governor,
    /// The signer; must be the governor's smart wallet.
    pub smart_wallet: Pubkey,
    /// The program to whitelist; must be executable.
    pub executable_id: AccountInfo,
    /// The owner whitelisted; the wildcard whitelists every owner.
    pub whitelisted_owner: Pubkey,
    /// Payer of the creation deposit.
    pub payer: Pubkey,
}

/// Inputs of a whitelist revocation, signed by `smart_wallet`.
#[derive(Clone, Copy, Debug)]
pub struct RevokeProgramLockPrivilege {
    pub locker: Locker,
    /// The entry to close.
    pub whitelist_entry: LockerWhitelistEntry,
    pub governor: Governor,
    /// The signer; must be the governor's smart wallet.
    pub smart_wallet: Pubkey,
    /// Program id of the entry, as the caller states it.
    pub executable_id: Pubkey,
    /// Receives the entry's deposit.
    pub payer: Pubkey,
}

/// Emitted when a program is whitelisted.
#[derive(Clone, Copy, Debug)]
pub struct ApproveLockPrivilegeEvent {
    pub locker: Pubkey,
    pub program_id: Pubkey,
    pub owner: Pubkey,
    pub timestamp: i64,
}

/// Emitted when a whitelist entry is closed.
#[derive(Clone, Copy, Debug)]
pub struct RevokeLockPrivilegeEvent {
    pub locker: Pubkey,
    pub program_id: Pubkey,
    pub timestamp: i64,
}

/// Position of the entry with the key `(locker, program_id, owner)` of `e`.
pub open spec fn entry_index(entries: Seq<LockerWhitelistEntry>, e: LockerWhitelistEntry) -> int {
    choose|i: int| 0 <= i < entries.len() && entry_has_key(entries[i], e.locker, e.program_id, e.owner)
}

impl ApproveProgramLockPrivilege {
    /// The entry that approval writes.
    pub open spec fn entry(&self, bump: u8) -> LockerWhitelistEntry {
        LockerWhitelistEntry {
            bump,
            locker: self.locker.key,
            program_id: self.executable_id.key,
            owner: self.whitelisted_owner,
        }
    }

    /// Why approval is rejected on `entries`, if it is.
    pub open spec fn approval_error(&self, entries: Seq<LockerWhitelistEntry>) -> Option<ErrorCode> {
        if !self.executable_id.executable {
            Some(ErrorCode::NotExecutable)
        } else if self.smart_wallet != self.governor.smart_wallet {
            Some(ErrorCode::Unauthorized)
        } else if has_entry(entries, self.locker.key, self.executable_id.key, self.whitelisted_owner) {
            Some(ErrorCode::AlreadyExists)
        } else {
            None
        }
    }

    /// Checks the program and the signer.
    pub fn validate(&self) -> (r: Result<(), ErrorCode>)
        ensures
            r == (if !self.executable_id.executable {
                Err(ErrorCode::NotExecutable)
            } else if self.smart_wallet != self.governor.smart_wallet {
                Err(ErrorCode::Unauthorized)
            } else {
                Ok(())
            }),
    {
        if !self.executable_id.executable {
            return Err(ErrorCode::NotExecutable);
        }
        if !self.smart_wallet.equals(&self.governor.smart_wallet) {
            return Err(ErrorCode::Unauthorized);
        }
        Ok(())
    }

    /// Whitelists `executable_id` for `whitelisted_owner` under the locker.
    pub fn approve_program_lock_privilege(&self, ledger: &mut Ledger, bump: u8, timestamp: i64) -> (r: Result<ApproveLockPrivilegeEvent, ErrorCode>)
        requires
            old(ledger).wf(),
        ensures
            final(ledger).wf(),
            match self.approval_error(old(ledger).whitelist@) {
                Some(e) => r == Err::<ApproveLockPrivilegeEvent, ErrorCode>(e) && *final(ledger)
                    == *old(ledger),
                None => {
                    &&& final(ledger).whitelist@ == old(ledger).whitelist@.push(self.entry(bump))
                    &&& final(ledger).escrows@ == old(ledger).escrows@
                    &&& final(ledger).program_id == old(ledger).program_id
                    &&& r == Ok::<ApproveLockPrivilegeEvent, ErrorCode>(
                        (ApproveLockPrivilegeEvent {
                            locker: self.locker.key,
                            program_id: self.executable_id.key,
                            owner: self.whitelisted_owner,
                            timestamp,
                        }),
                    )
                },
            },
    {
        match self.validate() {
            Err(e) => return Err(e),
            Ok(()) => {},
        }
        if ledger.find_whitelist_entry(&self.locker.key, &self.executable_id.key, &self.whitelisted_owner).is_some() {
            return Err(ErrorCode::AlreadyExists);
        }
        let entry = LockerWhitelistEntry {
            bump,
            locker: self.locker.key,
            program_id: self.executable_id.key,
            owner: self.whitelisted_owner,
        };
        ledger.whitelist.push(entry);
        proof {
            let ws = final(ledger).whitelist@;
            let old_ws = old(ledger).whitelist@;
            assert forall|i: int, j: int|
                0 <= i < ws.len() && 0 <= j < ws.len() && entry_has_key(
                    ws[i],
                    ws[j].locker,
                    ws[j].program_id,
                    ws[j].owner,
                ) implies i == j by {
                if i == ws.len() - 1 && j < ws.len() - 1 {
                    assert(old_ws[j] == ws[j]);
                    assert(entry_has_key(old_ws[j], self.locker.key, self.executable_id.key, self.whitelisted_owner));
                }
                if j == ws.len() - 1 && i < ws.len() - 1 {
                    assert(old_ws[i] == ws[i]);
                    assert(entry_has_key(old_ws[i], self.locker.key, self.executable_id.key, self.whitelisted_owner));
                }
            }
        }
        Ok(ApproveLockPrivilegeEvent {
            locker: self.locker.key,
            program_id: self.executable_id.key,
            owner: self.whitelisted_owner,
            timestamp,
        })
    }
}

impl RevokeProgramLockPrivilege {
    /// Why revocation is rejected on `entries`, if it is.
    pub open spec fn revocation_error(&self, entries: Seq<LockerWhitelistEntry>) -> Option<ErrorCode> {
        let e = self.whitelist_entry;
        if e.program_id != self.executable_id {
            Some(ErrorCode::IdentityMismatch)
        } else if self.smart_wallet != self.governor.smart_wallet {
            Some(ErrorCode::Unauthorized)
        } else if !has_entry(entries, e.locker, e.program_id, e.owner) {
            Some(ErrorCode::AccountNotInitialized)
        } else {
            None
        }
    }

    /// The entries left once the entry is closed.
    pub open spec fn remaining(&self, entries: Seq<LockerWhitelistEntry>) -> Seq<LockerWhitelistEntry> {
        entries.remove(entry_index(entries, self.whitelist_entry))
    }

    /// Checks the signer and the stated program id.
    pub fn validate(&self) -> (r: Result<(), ErrorCode>)
        ensures
            r == (if self.whitelist_entry.program_id != self.executable_id {
                Err(ErrorCode::IdentityMismatch)
            } else if self.smart_wallet != self.governor.smart_wallet {
                Err(ErrorCode::Unauthorized)
            } else {
                Ok(())
            }),
    {
        if !self.whitelist_entry.program_id.equals(&self.executable_id) {
            return Err(ErrorCode::IdentityMismatch);
        }
        if !self.smart_wallet.equals(&self.governor.smart_wallet) {
            return Err(ErrorCode::Unauthorized);
        }
        Ok(())
    }

    /// Closes the whitelist entry.
    pub fn revoke_program_lock_privilege(&self, ledger: &mut Ledger, timestamp: i64) -> (r: Result<RevokeLockPrivilegeEvent, ErrorCode>)
        requires
            old(ledger).wf(),
        ensures
            final(ledger).wf(),
            match self.revocation_error(old(ledger).whitelist@) {
                Some(e) => r == Err::<RevokeLockPrivilegeEvent, ErrorCode>(e) && *final(ledger)
                    == *old(ledger),
                None => {
                    &&& final(ledger).whitelist@ == self.remaining(old(ledger).whitelist@)
                    &&& final(ledger).escrows@ == old(ledger).escrows@
                    &&& final(ledger).program_id == old(ledger).program_id
                    &&& r == Ok::<RevokeLockPrivilegeEvent, ErrorCode>(
                        (RevokeLockPrivilegeEvent {
                            locker: self.whitelist_entry.locker,
                            program_id: self.whitelist_entry.program_id,
                            timestamp,
                        }),
                    )
                },
            },
    {
        match self.validate() {
            Err(e) => return Err(e),
            Ok(()) => {},
        }
        let e = &self.whitelist_entry;
        let i = match ledger.find_whitelist_entry(&e.locker, &e.program_id, &e.owner) {
            Some(i) => i,
            None => return Err(ErrorCode::AccountNotInitialized),
        };
        proof {
            let ws = old(ledger).whitelist@;
            let k = entry_index(ws, self.whitelist_entry);
            assert(entry_has_key(ws[i as int], e.locker, e.program_id, e.owner));
            assert(entry_has_key(ws[k], ws[i as int].locker, ws[i as int].program_id, ws[i as int].owner));
        }
        ledger.whitelist.remove(i);
        proof {
            let ws = final(ledger).whitelist@;
            let old_ws = old(ledger).whitelist@;
            assert forall|a: int, b: int|
                0 <= a < ws.len() && 0 <= b < ws.len() && entry_has_key(
                    ws[a],
                    ws[b].locker,
                    ws[b].program_id,
                    ws[b].owner,
                ) implies a == b by {
                let oa = if a < i { a } else { a + 1 };
                let ob = if b < i { b } else { b + 1 };
                assert(ws[a] == old_ws[oa]);
                assert(ws[b] == old_ws[ob]);
            }
        }
        Ok(RevokeLockPrivilegeEvent {
            locker: self.whitelist_entry.locker,
            program_id: self.whitelist_entry.program_id,
            timestamp,
        })
    }
}

/// Approval fails with `NotExecutable` whenever the program is not
/// executable, whatever the other inputs.
pub proof fn lemma_not_executable_rejected(approve: ApproveProgramLockPrivilege, entries: Seq<LockerWhitelistEntry>)
    requires
        !approve.executable_id.executable,
    ensures
        approve.approval_error(entries) == Some(ErrorCode::NotExecutable),
{
}

/// Approval of an executable program fails with `Unauthorized` whenever the
/// signer is not the governor's smart wallet.
pub proof fn lemma_unauthorized_approval_rejected(approve: ApproveProgramLockPrivilege, entries: Seq<LockerWhitelistEntry>)
    requires
        approve.executable_id.executable,
        approve.smart_wallet != approve.governor.smart_wallet,
    ensures
        approve.approval_error(entries) == Some(ErrorCode::Unauthorized),
{
}

/// Revocation fails with `IdentityMismatch` whenever the stated program id
/// differs from the entry's.
pub proof fn lemma_identity_mismatch_rejected(revoke: RevokeProgramLockPrivilege, entries: Seq<LockerWhitelistEntry>)
    requires
        revoke.whitelist_entry.program_id != revoke.executable_id,
    ensures
        revoke.revocation_error(entries) == Some(ErrorCode::IdentityMismatch),
{
}

/// A wildcard entry for a program authorizes it for every owner under the
/// locker, with or without an entry for that owner.
pub proof fn lemma_wildcard_authorizes_every_owner(
    entries: Seq<LockerWhitelistEntry>,
    locker: Pubkey,
    program_id: Pubkey,
    wildcard: Pubkey,
    owner: Pubkey,
)
    requires
        is_wildcard(wildcard),
        has_entry(entries, locker, program_id, wildcard),
    ensures
        authorized(entries, locker, program_id, owner),
{
    let i = choose|i: int| 0 <= i < entries.len() && entry_has_key(entries[i], locker, program_id, wildcard);
    assert(entries[i].locker == locker && entries[i].program_id == program_id && is_wildcard(entries[i].owner));
}

/// Once approval of a program for an owner succeeds, the program is
/// authorized for that owner; once that same entry is revoked, it no longer
/// is, unless it was already authorized before the approval (through the
/// wildcard).
pub proof fn lemma_approve_then_revoke(
    approve: ApproveProgramLockPrivilege,
    bump: u8,
    revoke: RevokeProgramLockPrivilege,
    entries: Seq<LockerWhitelistEntry>,
)
    requires
        entry_keys_unique(entries),
        approve.approval_error(entries) is None,
        revoke.whitelist_entry == approve.entry(bump),
        revoke.revocation_error(entries.push(approve.entry(bump))) is None,
        !authorized(entries, approve.locker.key, approve.executable_id.key, approve.whitelisted_owner),
    ensures
        authorized(
            entries.push(approve.entry(bump)),
            approve.locker.key,
            approve.executable_id.key,
            approve.whitelisted_owner,
        ),
        !authorized(
            revoke.remaining(entries.push(approve.entry(bump))),
            approve.locker.key,
            approve.executable_id.key,
            approve.whitelisted_owner,
        ),
{
    let e = approve.entry(bump);
    let ws = entries.push(e);
    let n = entries.len() as int;
    let (l, p, o) = (approve.locker.key, approve.executable_id.key, approve.whitelisted_owner);
    assert(ws[n] == e);
    assert(entry_has_key(ws[n], l, p, o));
    let k = entry_index(ws, revoke.whitelist_entry);
    assert(entry_has_key(ws[k], l, p, o));
    if k < n {
        assert(ws[k] == entries[k]);
        assert(has_entry(entries, l, p, o));
    }
    assert(k == n);
    let rest = revoke.remaining(ws);
    assert(rest =~= entries);
}

} // verus!
