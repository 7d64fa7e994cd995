//! Custody derivation: addresses of the escrow's records and holding accounts
//! are program-derived from a role tag, a party's identity and a one-byte
//! derivation proof (the bump seed).
use vstd::prelude::*;
use anchor_lang::prelude::Pubkey;

verus! {

/// The address that the program `program` derives from the seeds
/// `tag`, `identity` and the one-byte bump `bump`, or `None` where no
/// address exists for these seeds.
pub uninterp spec fn program_address(tag: Seq<u8>, identity: Seq<u8>, bump: u8, program: Seq<u8>) -> Option<Seq<u8>>;

/// Relies on `Pubkey::create_program_address` over the seeds `[tag, identity, [bump]]`:
/// the address is a function of the seeds and the program alone.
#[verifier::external_body]
fn create_address(tag: &[u8], identity: &[u8; 32], bump: u8, program: &[u8; 32]) -> (r: Option<[u8; 32]>)
    ensures
        match r {
            Some(a) => program_address(tag@, identity@, bump, program@) == Some(a@),
            None => program_address(tag@, identity@, bump, program@) is None,
        },
{
    let bump_seed = [bump];
    let seeds: [&[u8]; 3] = [tag, identity, &bump_seed];
    Pubkey::create_program_address(&seeds, &Pubkey::new_from_array(*program)).ok().map(|k| k.to_bytes())
}

/// Relies on `Pubkey::try_find_program_address` over the seeds `[tag, identity]`:
/// it tries the bumps from 255 down to 1 with `create_program_address` over
/// the seeds `[tag, identity, [bump]]` and returns the first address found
/// with its bump, or `None` where every bump fails.
#[verifier::external_body]
fn find_address(tag: &[u8], identity: &[u8; 32], program: &[u8; 32]) -> (r: Option<([u8; 32], u8)>)
    ensures
        r matches Some((a, bump)) ==> 1 <= bump && program_address(tag@, identity@, bump, program@) == Some(a@),
        r matches Some((a, bump)) ==> forall|c: u8| c > bump ==> (#[trigger] program_address(tag@, identity@, c, program@)) is None,
        r is None ==> forall|c: u8| 1 <= c ==> (#[trigger] program_address(tag@, identity@, c, program@)) is None,
{
    let seeds: [&[u8]; 2] = [tag, identity];
    Pubkey::try_find_program_address(&seeds, &Pubkey::new_from_array(*program)).map(|(k, b)| (k.to_bytes(), b))
}

/// What a derived account is for; each role has its own seed tag.
#[derive(Clone, Copy, Debug, PartialEq, Eq, Structural)]
pub enum Role {
    /// The deal record, tagged `deal`.
    Deal,
    /// The shared controller that has authority over both holding accounts, tagged `controller`.
    Controller,
    /// A party's custody holding account, tagged `token`.
    Holding,
    /// A party's obligation record, tagged `user_details`.
    Obligation,
    /// A single-party vault's state record, tagged `state`.
    VaultState,
    /// A single-party vault's lamport account, tagged `vault`.
    Vault,
}

/// The seed tag of a role, as ASCII bytes.
pub open spec fn role_tag(role: Role) -> Seq<u8> {
    match role {
        Role::Deal => seq![100u8, 101, 97, 108],
        Role::Controller => seq![99u8, 111, 110, 116, 114, 111, 108, 108, 101, 114],
        Role::Holding => seq![116u8, 111, 107, 101, 110],
        Role::Obligation => seq![117u8, 115, 101, 114, 95, 100, 101, 116, 97, 105, 108, 115],
        Role::VaultState => seq![115u8, 116, 97, 116, 101],
        Role::Vault => seq![118u8, 97, 117, 108, 116],
    }
}

/// `proof` reproduces `address` for `role` and `identity` under `program`.
pub open spec fn derives(role: Role, identity: Seq<u8>, proof: u8, program: Seq<u8>, address: Seq<u8>) -> bool {
    program_address(role_tag(role), identity, proof, program) == Some(address)
}

/// Some proof from 1 to 255 reproduces an address for `role` and `identity`.
pub open spec fn derivable(role: Role, identity: Seq<u8>, program: Seq<u8>) -> bool {
    exists|b: u8| 1 <= b && (#[trigger] program_address(role_tag(role), identity, b, program)) is Some
}

/// `proof` is the canonical proof of `address`: it reproduces it, lies in
/// 1 to 255, and no higher proof reproduces any address.
pub open spec fn canonical(role: Role, identity: Seq<u8>, proof: u8, program: Seq<u8>, address: Seq<u8>) -> bool {
    &&& 1 <= proof
    &&& derives(role, identity, proof, program, address)
    &&& forall|c: u8| c > proof ==> (#[trigger] program_address(role_tag(role), identity, c, program)) is None
}

impl Role {
    /// The seed tag of this role.
    pub fn tag(&self) -> (r: Vec<u8>)
        ensures
            r@ == role_tag(*self),
    {
        let r = match self {
            Role::Deal => vec![100u8, 101, 97, 108],
            Role::Controller => vec![99u8, 111, 110, 116, 114, 111, 108, 108, 101, 114],
            Role::Holding => vec![116u8, 111, 107, 101, 110],
            Role::Obligation => vec![117u8, 115, 101, 114, 95, 100, 101, 116, 97, 105, 108, 115],
            Role::VaultState => vec![115u8, 116, 97, 116, 101],
            Role::Vault => vec![118u8, 97, 117, 108, 116],
        };
        assert(r@ =~= role_tag(*self));
        r
    }
}

/// Derives the address of the account that `identity` holds in `role`, with
/// its canonical derivation proof; `None` exactly where no proof exists.
pub fn derive_address(role: Role, identity: &[u8; 32], program: &[u8; 32]) -> (r: Option<([u8; 32], u8)>)
    ensures
        r matches Some((a, proof)) ==> canonical(role, identity@, proof, program@, a@),
        r is None <==> !derivable(role, identity@, program@),
{
    let tag = role.tag();
    find_address(tag.as_slice(), identity, program)
}

/// Whether `proof` reproduces `claimed` as the address that `identity` holds in `role`.
pub fn verify_address(role: Role, identity: &[u8; 32], proof: u8, program: &[u8; 32], claimed: &[u8; 32]) -> (r: bool)
    ensures
        r == derives(role, identity@, proof, program@, claimed@),
{
    let tag = role.tag();
    match create_address(tag.as_slice(), identity, proof, program) {
        Some(a) => same_address(&a, claimed),
        None => false,
    }
}

/// Whether two addresses hold the same bytes.
pub fn same_address(a: &[u8; 32], b: &[u8; 32]) -> (r: bool)
    ensures
        r == (a@ == b@),
{
    let mut i: usize = 0;
    while i < 32
        invariant
            0 <= i <= 32,
            a@.len() == 32,
            b@.len() == 32,
            forall|j: int| 0 <= j < i ==> a@[j] == b@[j],
        decreases 32 - i,
    {
        if a[i] != b[i] {
            return false;
        }
        i = i + 1;
    }
    assert(a@ =~= b@);
    true
}

/// A role and an identity have one canonical proof and one canonical address.
pub proof fn canonical_unique(role: Role, identity: Seq<u8>, program: Seq<u8>, p1: u8, a1: Seq<u8>, p2: u8, a2: Seq<u8>)
    requires
        canonical(role, identity, p1, program, a1),
        canonical(role, identity, p2, program, a2),
    ensures
        p1 == p2,
        a1 == a2,
{
    if p1 < p2 {
        assert(program_address(role_tag(role), identity, p2, program) is None);
    } else if p2 < p1 {
        assert(program_address(role_tag(role), identity, p1, program) is None);
    }
}

/// What `derive_address` hands out is accepted by `verify_address`: a derived address and its
/// proof always verify, and a proof reproduces one address only, so `verify_address`
/// refuses every other address with that proof.
pub proof fn derive_then_verify(role: Role, identity: Seq<u8>, proof: u8, program: Seq<u8>, address: Seq<u8>, other: Seq<u8>)
    requires
        canonical(role, identity, proof, program, address),
    ensures
        derives(role, identity, proof, program, address),
        other != address ==> !derives(role, identity, proof, program, other),
{
}

} // verus!
