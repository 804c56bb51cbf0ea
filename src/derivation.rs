use vstd::prelude::*;

use crate::pubkey::Pubkey;

verus! {

/// The canonical program-derived address and bump seed for `seeds` under
/// `program_id`, or `None` where no bump seed gives one.
pub uninterp spec fn program_address_of(seeds: Seq<Seq<u8>>, program_id: Seq<u8>) -> Option<(Seq<u8>, u8)>;

pub open spec fn derived_view(r: Option<(Pubkey, u8)>) -> Option<(Seq<u8>, u8)> {
    match r {
        Some((k, b)) => Some((k@, b)),
        None => None,
    }
}

pub open spec fn seeds_view(seeds: Seq<Vec<u8>>) -> Seq<Seq<u8>> {
    seeds.map_values(|s: Vec<u8>| s@)
}

/// Relies on `Pubkey::try_find_program_address` (solana-address): the
/// canonical bump search over the seeds, a pure function of the seeds and the
/// program id.
#[verifier::external_body]
fn try_find_program_address(seeds: &Vec<Vec<u8>>, program_id: &Pubkey) -> (r: Option<(Pubkey, u8)>)
    ensures
        derived_view(r) == program_address_of(seeds_view(seeds@), program_id@),
{
    let seeds: Vec<&[u8]> = seeds.iter().map(|s| s.as_slice()).collect();
    let program_id = anchor_lang::prelude::Pubkey::new_from_array(program_id.bytes);
    match anchor_lang::prelude::Pubkey::try_find_program_address(&seeds, &program_id) {
        Some((k, b)) => Some((Pubkey { bytes: k.to_bytes() }, b)),
        None => None,
    }
}

/// The token program's id, `TokenkegQfeZyiNwAJbNbGKPFXCWuBvf9Ss623VQ5DA`.
pub open spec fn token_program_id() -> Seq<u8> {
    seq![
        6u8, 221u8, 246u8, 225u8, 215u8, 101u8, 161u8, 147u8, 217u8, 203u8, 225u8, 70u8, 206u8, 235u8, 121u8, 172u8,
        28u8, 180u8, 133u8, 237u8, 95u8, 91u8, 55u8, 145u8, 58u8, 140u8, 245u8, 133u8, 126u8, 255u8, 0u8, 169u8,
    ]
}

/// The associated token account program's id,
/// `ATokenGPvbdGVxr1b2hvZbsiqW5xWH25efTNsLJA8knL`.
pub open spec fn associated_token_program_id() -> Seq<u8> {
    seq![
        140u8, 151u8, 37u8, 143u8, 78u8, 36u8, 137u8, 241u8, 187u8, 61u8, 16u8, 41u8, 20u8, 142u8, 13u8, 131u8,
        11u8, 90u8, 19u8, 153u8, 218u8, 255u8, 16u8, 132u8, 4u8, 142u8, 123u8, 216u8, 219u8, 233u8, 248u8, 89u8,
    ]
}

/// Seeds of the associated token account of `wallet` for `mint`.
pub open spec fn vault_seeds(wallet: Seq<u8>, mint: Seq<u8>) -> Seq<Seq<u8>> {
    seq![wallet, token_program_id(), mint]
}

/// The associated token account of `wallet` for `mint`, where one exists:
/// the address derived from `vault_seeds` under the associated token account
/// program.
pub open spec fn vault_address_of(wallet: Seq<u8>, mint: Seq<u8>) -> Option<Seq<u8>> {
    match program_address_of(vault_seeds(wallet, mint), associated_token_program_id()) {
        Some(d) => Some(d.0),
        None => None,
    }
}

/// Relies on `anchor_spl::associated_token::get_associated_token_address`:
/// it returns the address that `find_program_address` derives from
/// `[wallet, token program id, mint]` under the associated token account
/// program, and panics where no bump seed gives one, which `requires` leaves
/// out.
#[verifier::external_body]
fn get_associated_token_address(wallet: &Pubkey, mint: &Pubkey) -> (r: Pubkey)
    requires
        vault_address_of(wallet@, mint@) is Some,
    ensures
        vault_address_of(wallet@, mint@) == Some(r@),
{
    let wallet = anchor_lang::prelude::Pubkey::new_from_array(wallet.bytes);
    let mint = anchor_lang::prelude::Pubkey::new_from_array(mint.bytes);
    let r = anchor_spl::associated_token::get_associated_token_address(&wallet, &mint);
    Pubkey { bytes: r.to_bytes() }
}

/// The associated token account program's address.
pub fn associated_token_program() -> (r: Pubkey)
    ensures
        r@ == associated_token_program_id(),
{
    let r = Pubkey {
        bytes: [
            140u8, 151u8, 37u8, 143u8, 78u8, 36u8, 137u8, 241u8, 187u8, 61u8, 16u8, 41u8, 20u8, 142u8, 13u8, 131u8,
            11u8, 90u8, 19u8, 153u8, 218u8, 255u8, 16u8, 132u8, 4u8, 142u8, 123u8, 216u8, 219u8, 233u8, 248u8, 89u8,
        ],
    };
    assert(r@ =~= associated_token_program_id());
    r
}

/// The bytes of the tag "Escrow".
pub open spec fn escrow_tag() -> Seq<u8> {
    seq![69u8, 115u8, 99u8, 114u8, 111u8, 119u8]
}

/// The bytes of the tag "LockerWhitelistEntry".
pub open spec fn whitelist_entry_tag() -> Seq<u8> {
    seq![
        76u8, 111u8, 99u8, 107u8, 101u8, 114u8, 87u8, 104u8, 105u8, 116u8,
        101u8, 108u8, 105u8, 115u8, 116u8, 69u8, 110u8, 116u8, 114u8, 121u8,
    ]
}

pub open spec fn escrow_seeds(locker: Pubkey, owner: Pubkey) -> Seq<Seq<u8>> {
    seq![escrow_tag(), locker@, owner@]
}

pub open spec fn whitelist_entry_seeds(locker: Pubkey, program_id: Pubkey, owner: Pubkey) -> Seq<Seq<u8>> {
    seq![whitelist_entry_tag(), locker@, program_id@, owner@]
}

/// The escrow address and bump for `(locker, owner)`, if one exists.
pub open spec fn escrow_address_of(locker: Pubkey, owner: Pubkey, program_id: Pubkey) -> Option<(Seq<u8>, u8)> {
    program_address_of(escrow_seeds(locker, owner), program_id@)
}

fn key_bytes(k: &Pubkey) -> (r: Vec<u8>)
    ensures
        r@ == k@,
{
    let mut r: Vec<u8> = Vec::new();
    let mut i: usize = 0;
    while i < 32
        invariant
            0 <= i <= 32,
            r@ == k@.subrange(0, i as int),
        decreases 32 - i,
    {
        r.push(k.bytes[i]);
        i = i + 1;
        assert(r@ =~= k@.subrange(0, i as int));
    }
    assert(r@ =~= k@);
    r
}

/// Derives the escrow address of `owner` under `locker`.
pub fn find_escrow_address(locker: &Pubkey, owner: &Pubkey, program_id: &Pubkey) -> (r: Option<(Pubkey, u8)>)
    ensures
        derived_view(r) == escrow_address_of(*locker, *owner, *program_id),
{
    let tag: Vec<u8> = vec![69u8, 115u8, 99u8, 114u8, 111u8, 119u8];
    assert(tag@ =~= escrow_tag());
    let seeds: Vec<Vec<u8>> = vec![tag, key_bytes(locker), key_bytes(owner)];
    assert(seeds_view(seeds@) =~= escrow_seeds(*locker, *owner));
    try_find_program_address(&seeds, program_id)
}

/// Derives the address of the whitelist entry of `(locker, program_id, owner)`.
pub fn find_whitelist_entry_address(locker: &Pubkey, program_id: &Pubkey, owner: &Pubkey, this_program: &Pubkey) -> (r: Option<(Pubkey, u8)>)
    ensures
        derived_view(r) == program_address_of(whitelist_entry_seeds(*locker, *program_id, *owner), this_program@),
{
    let tag: Vec<u8> = vec![
        76u8, 111u8, 99u8, 107u8, 101u8, 114u8, 87u8, 104u8, 105u8, 116u8,
        101u8, 108u8, 105u8, 115u8, 116u8, 69u8, 110u8, 116u8, 114u8, 121u8,
    ];
    assert(tag@ =~= whitelist_entry_tag());
    let seeds: Vec<Vec<u8>> = vec![tag, key_bytes(locker), key_bytes(program_id), key_bytes(owner)];
    assert(seeds_view(seeds@) =~= whitelist_entry_seeds(*locker, *program_id, *owner));
    try_find_program_address(&seeds, this_program)
}

/// Derives the associated token account of `wallet` for `mint`, or `None`
/// where no bump seed gives one.
pub fn find_vault_address(wallet: &Pubkey, mint: &Pubkey) -> (r: Option<Pubkey>)
    ensures
        match r {
            Some(k) => vault_address_of(wallet@, mint@) == Some(k@),
            None => vault_address_of(wallet@, mint@) is None,
        },
{
    let token_program: Vec<u8> = vec![
        6u8, 221u8, 246u8, 225u8, 215u8, 101u8, 161u8, 147u8, 217u8, 203u8, 225u8, 70u8, 206u8, 235u8, 121u8, 172u8,
        28u8, 180u8, 133u8, 237u8, 95u8, 91u8, 55u8, 145u8, 58u8, 140u8, 245u8, 133u8, 126u8, 255u8, 0u8, 169u8,
    ];
    assert(token_program@ =~= token_program_id());
    let seeds: Vec<Vec<u8>> = vec![key_bytes(wallet), token_program, key_bytes(mint)];
    assert(seeds_view(seeds@) =~= vault_seeds(wallet@, mint@));
    match try_find_program_address(&seeds, &associated_token_program()) {
        Some(_) => Some(get_associated_token_address(wallet, mint)),
        None => None,
    }
}

} // verus!
