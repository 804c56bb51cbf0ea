use locked_voter::pubkey::Pubkey;
use locked_voter::state::{AccountInfo, ErrorCode, Governor, Ledger, Locker, LockerWhitelistEntry};
use locked_voter::whitelist::{ApproveProgramLockPrivilege, RevokeProgramLockPrivilege};

fn key(n: u8) -> Pubkey {
    Pubkey::new_from_array([n; 32])
}

fn locker() -> Locker {
    Locker { key: key(1), token_mint: key(2) }
}

fn governor() -> Governor {
    Governor { smart_wallet: key(50) }
}

fn approval(program: Pubkey, owner: Pubkey) -> ApproveProgramLockPrivilege {
    ApproveProgramLockPrivilege {
        locker: locker(),
        governor: governor(),
        smart_wallet: key(50),
        executable_id: AccountInfo { key: program, executable: true },
        whitelisted_owner: owner,
        payer: key(60),
    }
}

fn revocation(entry: LockerWhitelistEntry) -> RevokeProgramLockPrivilege {
    RevokeProgramLockPrivilege {
        locker: locker(),
        whitelist_entry: entry,
        governor: governor(),
        smart_wallet: key(50),
        executable_id: entry.program_id,
        payer: key(60),
    }
}

fn entry(program: Pubkey, owner: Pubkey, bump: u8) -> LockerWhitelistEntry {
    LockerWhitelistEntry { bump, locker: locker().key, program_id: program, owner }
}

#[test]
fn approve_for_one_owner() {
    let mut ledger = Ledger::new(key(200));
    let (prog, user, other) = (key(30), key(10), key(11));
    let ev = approval(prog, user).approve_program_lock_privilege(&mut ledger, 254, 77).unwrap();
    assert_eq!(ev.locker, locker().key);
    assert_eq!(ev.program_id, prog);
    assert_eq!(ev.owner, user);
    assert_eq!(ev.timestamp, 77);
    assert!(ledger.is_authorized(&locker().key, &prog, &user));
    assert!(!ledger.is_authorized(&locker().key, &prog, &other));
    assert!(!ledger.is_authorized(&locker().key, &key(31), &user));
    assert!(!ledger.is_authorized(&key(5), &prog, &user));
}

#[test]
fn approve_wildcard_owner() {
    let mut ledger = Ledger::new(key(200));
    let prog = key(30);
    approval(prog, Pubkey::wildcard()).approve_program_lock_privilege(&mut ledger, 255, 1).unwrap();
    for n in [0u8, 10, 11, 99, 255] {
        assert!(ledger.is_authorized(&locker().key, &prog, &key(n)));
    }
    assert!(!ledger.is_authorized(&locker().key, &key(31), &key(10)));
}

#[test]
fn wildcard_without_exact_entry() {
    let mut ledger = Ledger::new(key(200));
    let prog = key(30);
    approval(prog, key(10)).approve_program_lock_privilege(&mut ledger, 1, 1).unwrap();
    assert!(!ledger.is_authorized(&locker().key, &prog, &key(12)));
    approval(prog, Pubkey::wildcard()).approve_program_lock_privilege(&mut ledger, 2, 1).unwrap();
    assert!(ledger.is_authorized(&locker().key, &prog, &key(12)));
    assert_eq!(ledger.whitelist.len(), 2);
}

#[test]
fn revoke_then_not_authorized() {
    let mut ledger = Ledger::new(key(200));
    let (prog, user) = (key(30), key(10));
    approval(prog, user).approve_program_lock_privilege(&mut ledger, 9, 1).unwrap();
    let rev = revocation(entry(prog, user, 9));
    let ev = rev.revoke_program_lock_privilege(&mut ledger, 2).unwrap();
    assert_eq!(ev.locker, locker().key);
    assert_eq!(ev.program_id, prog);
    assert_eq!(ev.timestamp, 2);
    assert!(!ledger.is_authorized(&locker().key, &prog, &user));
    assert!(ledger.whitelist.is_empty());
    let err = rev.revoke_program_lock_privilege(&mut ledger, 3).unwrap_err();
    assert_eq!(err, ErrorCode::AccountNotInitialized);
}

#[test]
fn revoke_keeps_other_entries() {
    let mut ledger = Ledger::new(key(200));
    let prog = key(30);
    approval(prog, key(10)).approve_program_lock_privilege(&mut ledger, 1, 1).unwrap();
    approval(prog, key(11)).approve_program_lock_privilege(&mut ledger, 1, 1).unwrap();
    revocation(entry(prog, key(10), 1)).revoke_program_lock_privilege(&mut ledger, 2).unwrap();
    assert!(!ledger.is_authorized(&locker().key, &prog, &key(10)));
    assert!(ledger.is_authorized(&locker().key, &prog, &key(11)));
}

#[test]
fn approve_by_wrong_signer_is_unauthorized() {
    let mut ledger = Ledger::new(key(200));
    let mut ctx = approval(key(30), key(10));
    ctx.smart_wallet = key(51);
    let err = ctx.approve_program_lock_privilege(&mut ledger, 1, 1).unwrap_err();
    assert_eq!(err, ErrorCode::Unauthorized);
    assert!(ledger.whitelist.is_empty());
}

#[test]
fn approve_non_executable_fails() {
    let mut ledger = Ledger::new(key(200));
    let mut ctx = approval(key(30), key(10));
    ctx.executable_id.executable = false;
    assert_eq!(ctx.approve_program_lock_privilege(&mut ledger, 1, 1).unwrap_err(), ErrorCode::NotExecutable);
    ctx.smart_wallet = key(51);
    assert_eq!(ctx.approve_program_lock_privilege(&mut ledger, 1, 1).unwrap_err(), ErrorCode::NotExecutable);
    assert!(!ledger.is_authorized(&locker().key, &key(30), &key(10)));
}

#[test]
fn approve_twice_already_exists() {
    let mut ledger = Ledger::new(key(200));
    let ctx = approval(key(30), key(10));
    ctx.approve_program_lock_privilege(&mut ledger, 1, 1).unwrap();
    assert_eq!(ctx.approve_program_lock_privilege(&mut ledger, 1, 2).unwrap_err(), ErrorCode::AlreadyExists);
    assert_eq!(ledger.whitelist.len(), 1);
}

#[test]
fn revoke_with_mismatched_program_id() {
    let mut ledger = Ledger::new(key(200));
    approval(key(30), key(10)).approve_program_lock_privilege(&mut ledger, 1, 1).unwrap();
    let mut rev = revocation(entry(key(30), key(10), 1));
    rev.executable_id = key(31);
    assert_eq!(rev.revoke_program_lock_privilege(&mut ledger, 2).unwrap_err(), ErrorCode::IdentityMismatch);
    assert!(ledger.is_authorized(&locker().key, &key(30), &key(10)));
}

#[test]
fn revoke_by_wrong_signer_is_unauthorized() {
    let mut ledger = Ledger::new(key(200));
    approval(key(30), key(10)).approve_program_lock_privilege(&mut ledger, 1, 1).unwrap();
    let mut rev = revocation(entry(key(30), key(10), 1));
    rev.smart_wallet = key(52);
    assert_eq!(rev.revoke_program_lock_privilege(&mut ledger, 2).unwrap_err(), ErrorCode::Unauthorized);
    assert_eq!(ledger.whitelist.len(), 1);
}

#[test]
fn wildcard_key_is_system_program() {
    assert_eq!(Pubkey::wildcard().to_bytes(), [0u8; 32]);
    assert_ne!(Pubkey::wildcard(), key(1));
}

#[test]
fn revoking_exact_entry_under_wildcard_keeps_authorization() {
    let mut ledger = Ledger::new(key(200));
    let (prog, user) = (key(30), key(10));
    approval(prog, Pubkey::wildcard()).approve_program_lock_privilege(&mut ledger, 3, 1).unwrap();
    approval(prog, user).approve_program_lock_privilege(&mut ledger, 4, 1).unwrap();
    revocation(entry(prog, user, 4)).revoke_program_lock_privilege(&mut ledger, 2).unwrap();
    assert!(ledger.is_authorized(&locker().key, &prog, &user));
    revocation(entry(prog, Pubkey::wildcard(), 3)).revoke_program_lock_privilege(&mut ledger, 3).unwrap();
    assert!(!ledger.is_authorized(&locker().key, &prog, &user));
}

#[test]
fn ledger_well_formedness() {
    let mut ledger = Ledger::new(key(200));
    assert!(ledger.is_well_formed());
    approval(key(30), key(10)).approve_program_lock_privilege(&mut ledger, 1, 1).unwrap();
    approval(key(30), key(11)).approve_program_lock_privilege(&mut ledger, 1, 1).unwrap();
    assert!(ledger.is_well_formed());
    ledger.whitelist.push(entry(key(30), key(10), 7));
    assert!(!ledger.is_well_formed());
}
