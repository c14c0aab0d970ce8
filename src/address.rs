use vstd::prelude::*;
use anchor_lang::prelude::Pubkey;

verus! {

/// A 32-byte account address (an on-chain public key).
#[derive(Clone, Copy, Debug)]
pub struct Address {
    pub bytes: [u8; 32],
}

/// What `Pubkey::create_program_address` yields for the given seeds and
/// program id: the derived address, or `None` where the seeds are rejected
/// (too many or too long) or the hash lies on the ed25519 curve.
pub uninterp spec fn program_address(seeds: Seq<Seq<u8>>, program_id: Seq<u8>) -> Option<Seq<u8>>;

/// Relies on `Pubkey::create_program_address`: the result is the derived
/// address for exactly these seeds and program id, or an error.
#[verifier::external_body]
fn create_program_address(seeds: &Vec<Vec<u8>>, program_id: &Address) -> (r: Option<Address>)
    ensures
        match r {
            Some(a) => program_address(seeds.deep_view(), program_id.bytes@) == Some(a.bytes@),
            None => program_address(seeds.deep_view(), program_id.bytes@) is None,
        },
{
    let slices: Vec<&[u8]> = seeds.iter().map(|s| s.as_slice()).collect();
    match Pubkey::create_program_address(&slices, &Pubkey::new_from_array(program_id.bytes)) {
        Ok(key) => Some(Address { bytes: key.to_bytes() }),
        Err(_) => None,
    }
}

/// The seeds followed by the one-byte seed `bump`.
pub open spec fn with_bump(seeds: Seq<Seq<u8>>, bump: u8) -> Seq<Seq<u8>> {
    seeds.push(seq![bump])
}

/// `bump` is the canonical bump of `seeds`: the largest non-zero bump whose
/// seeds derive an address.
pub open spec fn is_canonical_bump(seeds: Seq<Seq<u8>>, program_id: Seq<u8>, bump: u8) -> bool {
    &&& 1 <= bump
    &&& program_address(with_bump(seeds, bump), program_id) is Some
    &&& forall|c: u8|
        bump < c ==> (#[trigger] program_address(with_bump(seeds, c), program_id)) is None
}

/// Relies on `Pubkey::try_find_program_address`: it tries the bumps from 255
/// down to 1, returns the first that derives an address, and returns `None`
/// where none of them does.
#[verifier::external_body]
fn try_find_program_address(seeds: &Vec<Vec<u8>>, program_id: &Address) -> (r: Option<(Address, u8)>)
    ensures
        match r {
            Some((a, b)) => {
                &&& is_canonical_bump(seeds.deep_view(), program_id.bytes@, b)
                &&& program_address(with_bump(seeds.deep_view(), b), program_id.bytes@) == Some(a.bytes@)
            },
            None => forall|b: u8|
                1 <= b ==> (#[trigger] program_address(with_bump(seeds.deep_view(), b), program_id.bytes@)) is None,
        },
{
    let slices: Vec<&[u8]> = seeds.iter().map(|s| s.as_slice()).collect();
    match Pubkey::try_find_program_address(&slices, &Pubkey::new_from_array(program_id.bytes)) {
        Some((key, bump)) => Some((Address { bytes: key.to_bytes() }, bump)),
        None => None,
    }
}

/// Seed tag of the global vault ledger record: the ASCII bytes of `vault_state`.
pub open spec fn vault_state_tag() -> Seq<u8> {
    seq![118u8, 97, 117, 108, 116, 95, 115, 116, 97, 116, 101]
}

fn vault_state_tag_bytes() -> (r: Vec<u8>)
    ensures
        r@ == vault_state_tag(),
{
    vec![118u8, 97, 117, 108, 116, 95, 115, 116, 97, 116, 101]
}

/// Seed tag of the custody address: the ASCII bytes of `vault`.
pub open spec fn vault_tag() -> Seq<u8> {
    seq![118u8, 97, 117, 108, 116]
}

fn vault_tag_bytes() -> (r: Vec<u8>)
    ensures
        r@ == vault_tag(),
{
    vec![118u8, 97, 117, 108, 116]
}

/// Seed tag of a depositor's ledger record: the ASCII bytes of `user_state`.
pub open spec fn user_state_tag() -> Seq<u8> {
    seq![117u8, 115, 101, 114, 95, 115, 116, 97, 116, 101]
}

fn user_state_tag_bytes() -> (r: Vec<u8>)
    ensures
        r@ == user_state_tag(),
{
    vec![117u8, 115, 101, 114, 95, 115, 116, 97, 116, 101]
}

/// Seeds of the global vault ledger record.
pub open spec fn vault_state_seeds() -> Seq<Seq<u8>> {
    seq![vault_state_tag()]
}

/// Seeds of the custody address.
pub open spec fn vault_seeds() -> Seq<Seq<u8>> {
    seq![vault_tag()]
}

/// Seeds of the ledger record of the depositor `user`.
pub open spec fn user_state_seeds(user: Seq<u8>) -> Seq<Seq<u8>> {
    seq![user_state_tag(), user]
}

/// The seeds with the bump `bump` derive exactly the address `expected`.
pub open spec fn derives(seeds: Seq<Seq<u8>>, bump: u8, program_id: Seq<u8>, expected: Seq<u8>) -> bool {
    program_address(with_bump(seeds, bump), program_id) == Some(expected)
}

/// The canonical bump of `seeds`, where one exists.
pub open spec fn canonical_bump(seeds: Seq<Seq<u8>>, program_id: Seq<u8>) -> Option<u8> {
    if exists|b: u8| is_canonical_bump(seeds, program_id, b) {
        Some(choose|b: u8| is_canonical_bump(seeds, program_id, b))
    } else {
        None
    }
}

/// At most one bump is canonical.
pub proof fn lemma_canonical_bump_unique(seeds: Seq<Seq<u8>>, program_id: Seq<u8>, b1: u8, b2: u8)
    requires
        is_canonical_bump(seeds, program_id, b1),
        is_canonical_bump(seeds, program_id, b2),
    ensures
        b1 == b2,
{
    if b1 < b2 {
        assert(program_address(with_bump(seeds, b2), program_id) is None);
    } else if b2 < b1 {
        assert(program_address(with_bump(seeds, b1), program_id) is None);
    }
}

proof fn lemma_bytes_deep_view(v: Vec<u8>)
    ensures
        v.deep_view() == v@,
{
    assert(v.deep_view() =~= v@);
}

fn seeds_of(tag: Vec<u8>) -> (r: Vec<Vec<u8>>)
    ensures
        r.deep_view() == seq![tag@],
{
    proof {
        lemma_bytes_deep_view(tag);
    }
    let r = vec![tag];
    assert(r.deep_view() =~= seq![tag@]);
    r
}

fn vault_state_seed_vec() -> (r: Vec<Vec<u8>>)
    ensures
        r.deep_view() == vault_state_seeds(),
{
    seeds_of(vault_state_tag_bytes())
}

fn vault_seed_vec() -> (r: Vec<Vec<u8>>)
    ensures
        r.deep_view() == vault_seeds(),
{
    seeds_of(vault_tag_bytes())
}

/// The bytes of an address as a vector.
fn address_bytes(a: &Address) -> (r: Vec<u8>)
    ensures
        r@ == a.bytes@,
{
    let mut r: Vec<u8> = Vec::new();
    let mut i: usize = 0;
    while i < 32
        invariant
            0 <= i <= 32,
            a.bytes@.len() == 32,
            r@ == a.bytes@.subrange(0, i as int),
        decreases 32 - i,
    {
        r.push(a.bytes[i]);
        i = i + 1;
        assert(r@ =~= a.bytes@.subrange(0, i as int));
    }
    assert(a.bytes@.subrange(0, 32) =~= a.bytes@);
    r
}

fn user_state_seed_vec(user: &Address) -> (r: Vec<Vec<u8>>)
    ensures
        r.deep_view() == user_state_seeds(user.bytes@),
{
    let key = address_bytes(user);
    let tag = user_state_tag_bytes();
    proof {
        lemma_bytes_deep_view(tag);
        lemma_bytes_deep_view(key);
    }
    let r = vec![tag, key];
    assert(r.deep_view() =~= user_state_seeds(user.bytes@));
    r
}

/// Whether two addresses hold the same bytes.
pub fn same_address(a: &Address, b: &Address) -> (r: bool)
    ensures
        r == (a.bytes@ == b.bytes@),
{
    let mut i: usize = 0;
    while i < 32
        invariant
            0 <= i <= 32,
            a.bytes@.len() == 32,
            b.bytes@.len() == 32,
            forall|j: int| 0 <= j < i ==> a.bytes@[j] == b.bytes@[j],
        decreases 32 - i,
    {
        if a.bytes[i] != b.bytes[i] {
            return false;
        }
        i = i + 1;
    }
    assert(a.bytes@ =~= b.bytes@);
    true
}

/// The seeds followed by the one-byte seed `bump`.
fn push_bump(seeds: Vec<Vec<u8>>, bump: u8) -> (r: Vec<Vec<u8>>)
    ensures
        r.deep_view() == with_bump(seeds.deep_view(), bump),
{
    let mut full = seeds;
    let last: Vec<u8> = vec![bump];
    proof {
        lemma_bytes_deep_view(last);
        assert(last@ =~= seq![bump]);
    }
    full.push(last);
    assert(full@.len() == seeds@.len() + 1);
    assert(full.deep_view().last() == seq![bump]);
    assert(full.deep_view() =~= with_bump(seeds.deep_view(), bump));
    full
}

/// Re-validates a stored bump: the seeds with `bump` derive `expected`.
fn check_derivation(seeds: Vec<Vec<u8>>, bump: u8, program_id: &Address, expected: &Address) -> (r: bool)
    ensures
        r == derives(seeds.deep_view(), bump, program_id.bytes@, expected.bytes@),
{
    let full = push_bump(seeds, bump);
    match create_program_address(&full, program_id) {
        Some(a) => same_address(&a, expected),
        None => false,
    }
}

/// The seeds that sign for the custody address `vault`: its tag and the
/// stored bump. Given only where they derive `vault`.
pub fn custody_signer_seeds(program_id: &Address, vault_bump: u8, vault: &Address) -> (r: Option<Vec<Vec<u8>>>)
    ensures
        match r {
            Some(seeds) => {
                &&& seeds.deep_view() == with_bump(vault_seeds(), vault_bump)
                &&& derives(vault_seeds(), vault_bump, program_id.bytes@, vault.bytes@)
            },
            None => !derives(vault_seeds(), vault_bump, program_id.bytes@, vault.bytes@),
        },
{
    let full = push_bump(vault_seed_vec(), vault_bump);
    match create_program_address(&full, program_id) {
        Some(a) => {
            if same_address(&a, vault) {
                Some(full)
            } else {
                None
            }
        },
        None => None,
    }
}

/// The vault ledger record of the program is at `expected` with bump `bump`.
pub fn check_vault_state_address(program_id: &Address, bump: u8, expected: &Address) -> (r: bool)
    ensures
        r == derives(vault_state_seeds(), bump, program_id.bytes@, expected.bytes@),
{
    check_derivation(vault_state_seed_vec(), bump, program_id, expected)
}

/// The custody address of the program is `expected` with bump `bump`.
pub fn check_vault_address(program_id: &Address, bump: u8, expected: &Address) -> (r: bool)
    ensures
        r == derives(vault_seeds(), bump, program_id.bytes@, expected.bytes@),
{
    check_derivation(vault_seed_vec(), bump, program_id, expected)
}

/// The ledger record of `user` is at `expected` with bump `bump`.
pub fn check_user_state_address(program_id: &Address, user: &Address, bump: u8, expected: &Address) -> (r: bool)
    ensures
        r == derives(user_state_seeds(user.bytes@), bump, program_id.bytes@, expected.bytes@),
{
    check_derivation(user_state_seed_vec(user), bump, program_id, expected)
}

/// Searches the canonical bump of `seeds` and the address it derives.
fn find_derivation(seeds: Vec<Vec<u8>>, program_id: &Address) -> (r: Option<(Address, u8)>)
    ensures
        match r {
            Some((a, b)) => {
                &&& canonical_bump(seeds.deep_view(), program_id.bytes@) == Some(b)
                &&& derives(seeds.deep_view(), b, program_id.bytes@, a.bytes@)
            },
            None => canonical_bump(seeds.deep_view(), program_id.bytes@) is None,
        },
{
    let r = try_find_program_address(&seeds, program_id);
    match r {
        Some((a, b)) => {
            proof {
                let c = choose|c: u8| is_canonical_bump(seeds.deep_view(), program_id.bytes@, c);
                lemma_canonical_bump_unique(seeds.deep_view(), program_id.bytes@, b, c);
            }
            Some((a, b))
        },
        None => {
            assert forall|b: u8| !is_canonical_bump(seeds.deep_view(), program_id.bytes@, b) by {
                if 1 <= b {
                    assert(program_address(with_bump(seeds.deep_view(), b), program_id.bytes@) is None);
                }
            }
            None
        },
    }
}

/// The vault ledger record's address and canonical bump for the program.
pub fn find_vault_state_address(program_id: &Address) -> (r: Option<(Address, u8)>)
    ensures
        match r {
            Some((a, b)) => {
                &&& canonical_bump(vault_state_seeds(), program_id.bytes@) == Some(b)
                &&& derives(vault_state_seeds(), b, program_id.bytes@, a.bytes@)
            },
            None => canonical_bump(vault_state_seeds(), program_id.bytes@) is None,
        },
{
    find_derivation(vault_state_seed_vec(), program_id)
}

/// The custody address and its canonical bump for the program.
pub fn find_vault_address(program_id: &Address) -> (r: Option<(Address, u8)>)
    ensures
        match r {
            Some((a, b)) => {
                &&& canonical_bump(vault_seeds(), program_id.bytes@) == Some(b)
                &&& derives(vault_seeds(), b, program_id.bytes@, a.bytes@)
            },
            None => canonical_bump(vault_seeds(), program_id.bytes@) is None,
        },
{
    find_derivation(vault_seed_vec(), program_id)
}

/// The address and canonical bump of the ledger record of `user`.
pub fn find_user_state_address(program_id: &Address, user: &Address) -> (r: Option<(Address, u8)>)
    ensures
        match r {
            Some((a, b)) => {
                &&& canonical_bump(user_state_seeds(user.bytes@), program_id.bytes@) == Some(b)
                &&& derives(user_state_seeds(user.bytes@), b, program_id.bytes@, a.bytes@)
            },
            None => canonical_bump(user_state_seeds(user.bytes@), program_id.bytes@) is None,
        },
{
    find_derivation(user_state_seed_vec(user), program_id)
}

} // verus!
