use vstd::prelude::*;

use crate::derivation::{
    escrow_address_of, find_escrow_address, find_vault_address, vault_address_of,
};
use crate::pubkey::Pubkey;
use crate::state::{has_escrow, ErrorCode, Escrow, Ledger, Locker};

verus! {

/// Inputs of escrow creation. Anyone may pay to create the escrow of any
/// owner; the owner does not sign.
#[derive(Clone, Copy, Debug)]
pub struct NewEscrow {
    pub locker: Locker,
    /// The owner of the escrow to be created.
    pub escrow_owner: Pubkey,
    /// Payer of the creation deposit.
    pub payer: Pubkey,
}

/// Emitted when an escrow is created.
#[derive(Clone, Copy, Debug)]
pub struct NewEscrowEvent {
    /// Address of the new escrow.
    pub escrow: Pubkey,
    pub escrow_owner: Pubkey,
    pub locker: Pubkey,
    pub timestamp: i64,
}

/// `e` is the record that creation writes for `owner` under `locker`, at
/// address `escrow` with bump `bump`: no tokens, no lock period, votes
/// delegated to the owner, and the vault at the escrow's associated token
/// account for the locker's mint.
pub open spec fn is_fresh_escrow(e: Escrow, locker: Locker, owner: Pubkey, bump: u8, escrow: Pubkey) -> bool {
    &&& e.locker == locker.key
    &&& e.owner == owner
    &&& e.bump == bump
    &&& vault_address_of(escrow@, locker.token_mint@) == Some(e.tokens@)
    &&& e.amount == 0
    &&& e.escrow_started_at == 0
    &&& e.escrow_ends_at == 0
    &&& e.vote_delegate == owner
}

impl NewEscrow {
    /// Why creation with `bump` is rejected on `escrows`, if it is.
    pub open spec fn creation_error(&self, escrows: Seq<Escrow>, program_id: Pubkey, bump: u8) -> Option<ErrorCode> {
        if has_escrow(escrows, self.locker.key, self.escrow_owner) {
            Some(ErrorCode::AlreadyExists)
        } else {
            match escrow_address_of(self.locker.key, self.escrow_owner, program_id) {
                Some(d) => if d.1 != bump || vault_address_of(d.0, self.locker.token_mint@) is None {
                    Some(ErrorCode::DerivationMismatch)
                } else {
                    None
                },
                None => Some(ErrorCode::DerivationMismatch),
            }
        }
    }

    /// A successful creation took `before` to `after` and emitted `ev`.
    pub open spec fn created(
        &self,
        before: Seq<Escrow>,
        after: Seq<Escrow>,
        program_id: Pubkey,
        bump: u8,
        timestamp: i64,
        ev: NewEscrowEvent,
    ) -> bool {
        &&& escrow_address_of(self.locker.key, self.escrow_owner, program_id) == Some((ev.escrow@, bump))
        &&& after.len() == before.len() + 1
        &&& after.drop_last() == before
        &&& is_fresh_escrow(after.last(), self.locker, self.escrow_owner, bump, ev.escrow)
        &&& ev.escrow_owner == self.escrow_owner
        &&& ev.locker == self.locker.key
        &&& ev.timestamp == timestamp
    }

    /// Creates the escrow of `escrow_owner` under the locker.
    pub fn new_escrow(&self, ledger: &mut Ledger, bump: u8, timestamp: i64) -> (r: Result<NewEscrowEvent, ErrorCode>)
        requires
            old(ledger).wf(),
        ensures
            final(ledger).wf(),
            match self.creation_error(old(ledger).escrows@, old(ledger).program_id, bump) {
                Some(e) => r == Err::<NewEscrowEvent, ErrorCode>(e) && *final(ledger) == *old(ledger),
                None => r is Ok && self.created(
                    old(ledger).escrows@,
                    final(ledger).escrows@,
                    old(ledger).program_id,
                    bump,
                    timestamp,
                    r->Ok_0,
                ) && final(ledger).whitelist@ == old(ledger).whitelist@ && final(ledger).program_id
                    == old(ledger).program_id,
            },
    {
        if ledger.find_escrow(&self.locker.key, &self.escrow_owner).is_some() {
            return Err(ErrorCode::AlreadyExists);
        }
        match find_escrow_address(&self.locker.key, &self.escrow_owner, &ledger.program_id) {
            Some((escrow, canonical)) => {
                if canonical != bump {
                    return Err(ErrorCode::DerivationMismatch);
                }
                let tokens = match find_vault_address(&escrow, &self.locker.token_mint) {
                    Some(tokens) => tokens,
                    None => return Err(ErrorCode::DerivationMismatch),
                };
                let ev = self.init_escrow(ledger, escrow, bump, tokens, timestamp);
                assert(ledger.escrows@.drop_last() =~= old(ledger).escrows@);
                Ok(ev)
            },
            None => Err(ErrorCode::DerivationMismatch),
        }
    }

    /// Writes the escrow record at the derived address `escrow` with vault
    /// `tokens`, and returns the creation event.
    pub fn init_escrow(&self, ledger: &mut Ledger, escrow: Pubkey, bump: u8, tokens: Pubkey, timestamp: i64) -> (r: NewEscrowEvent)
        requires
            old(ledger).wf(),
            !has_escrow(old(ledger).escrows@, self.locker.key, self.escrow_owner),
        ensures
            final(ledger).wf(),
            final(ledger).escrows@ == old(ledger).escrows@.push(
                (Escrow {
                    locker: self.locker.key,
                    owner: self.escrow_owner,
                    bump,
                    tokens,
                    amount: 0,
                    escrow_started_at: 0,
                    escrow_ends_at: 0,
                    vote_delegate: self.escrow_owner,
                }),
            ),
            final(ledger).whitelist@ == old(ledger).whitelist@,
            final(ledger).program_id == old(ledger).program_id,
            r == (NewEscrowEvent {
                escrow,
                escrow_owner: self.escrow_owner,
                locker: self.locker.key,
                timestamp,
            }),
    {
        let record = Escrow {
            locker: self.locker.key,
            owner: self.escrow_owner,
            bump,
            tokens,
            amount: 0,
            escrow_started_at: 0,
            escrow_ends_at: 0,
            vote_delegate: self.escrow_owner,
        };
        ledger.escrows.push(record);
        proof {
            let es = final(ledger).escrows@;
            assert forall|i: int, j: int|
                0 <= i < es.len() && 0 <= j < es.len() && es[i].locker == es[j].locker
                    && es[i].owner == es[j].owner implies i == j by {
                if i == es.len() - 1 && j < es.len() - 1 {
                    assert(old(ledger).escrows@[j] == es[j]);
                }
                if j == es.len() - 1 && i < es.len() - 1 {
                    assert(old(ledger).escrows@[i] == es[i]);
                }
            }
        }
        NewEscrowEvent { escrow, escrow_owner: self.escrow_owner, locker: self.locker.key, timestamp }
    }
}

/// The vault of the escrow of `owner` under `locker`: the associated token
/// account of the escrow's derived address for the locker's mint.
pub open spec fn vault_of(locker: Locker, owner: Pubkey, program_id: Pubkey) -> Option<Seq<u8>> {
    match escrow_address_of(locker.key, owner, program_id) {
        Some(d) => vault_address_of(d.0, locker.token_mint@),
        None => None,
    }
}

/// Computes, from the keys alone, the vault that the escrow of `owner`
/// under `locker` holds its tokens in.
pub fn escrow_vault(locker: &Locker, owner: &Pubkey, program_id: &Pubkey) -> (r: Option<Pubkey>)
    ensures
        match r {
            Some(k) => vault_of(*locker, *owner, *program_id) == Some(k@),
            None => vault_of(*locker, *owner, *program_id) is None,
        },
{
    match find_escrow_address(&locker.key, owner, program_id) {
        Some((escrow, _)) => find_vault_address(&escrow, &locker.token_mint),
        None => None,
    }
}

/// After an escrow is created for `(locker, owner)`, every further creation
/// for the same pair fails with `AlreadyExists`, whatever its bump.
pub proof fn lemma_escrow_created_once(
    first: NewEscrow,
    before: Seq<Escrow>,
    after: Seq<Escrow>,
    program_id: Pubkey,
    bump: u8,
    timestamp: i64,
    ev: NewEscrowEvent,
    second: NewEscrow,
    second_bump: u8,
)
    requires
        first.created(before, after, program_id, bump, timestamp, ev),
        second.locker.key == first.locker.key,
        second.escrow_owner == first.escrow_owner,
    ensures
        second.creation_error(after, program_id, second_bump) == Some(ErrorCode::AlreadyExists),
{
    let n = after.len() - 1;
    assert(after[n].locker == second.locker.key && after[n].owner == second.escrow_owner);
}

/// The vault stored in a freshly created escrow is the one recomputed from
/// the locker, the owner and the program alone.
pub proof fn lemma_vault_is_canonical(
    ctx: NewEscrow,
    before: Seq<Escrow>,
    after: Seq<Escrow>,
    program_id: Pubkey,
    bump: u8,
    timestamp: i64,
    ev: NewEscrowEvent,
)
    requires
        ctx.created(before, after, program_id, bump, timestamp, ev),
    ensures
        vault_of(ctx.locker, ctx.escrow_owner, program_id) == Some(after.last().tokens@),
{
}

} // verus!
