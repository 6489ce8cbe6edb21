use vstd::prelude::*;
use crate::states::Address;
use crate::transfer::CustodyCapability;

verus! {

/// The seed bytes marking an entity record address: the string "lockbox".
pub open spec fn lockbox_seed_spec() -> Seq<u8> {
    seq![108u8, 111u8, 99u8, 107u8, 98u8, 111u8, 120u8]
}

/// The seed bytes marking a custody sub-address: the string "vault".
pub open spec fn vault_seed_spec() -> Seq<u8> {
    seq![118u8, 97u8, 117u8, 108u8, 116u8]
}

/// The entity record seed as a byte vector.
pub fn lockbox_seed() -> (r: Vec<u8>)
    ensures
        r@ == lockbox_seed_spec(),
{
    let mut v: Vec<u8> = Vec::new();
    v.push(108);
    v.push(111);
    v.push(99);
    v.push(107);
    v.push(98);
    v.push(111);
    v.push(120);
    proof {
        assert(v@ =~= lockbox_seed_spec());
    }
    v
}

/// The custody sub-address seed as a byte vector.
pub fn vault_seed() -> (r: Vec<u8>)
    ensures
        r@ == vault_seed_spec(),
{
    let mut v: Vec<u8> = Vec::new();
    v.push(118);
    v.push(97);
    v.push(117);
    v.push(108);
    v.push(116);
    proof {
        assert(v@ =~= vault_seed_spec());
    }
    v
}

/// What the host ledger's seeded-address derivation returns for the given
/// seeds under the given program namespace: the derived 32-byte address and
/// its disambiguation nonce, or nothing in the statistically improbable case
/// that no nonce yields a valid address (or the seeds are over the ledger's
/// limits). A pure function of its arguments alone.
pub uninterp spec fn derived_address_of(seeds: Seq<Seq<u8>>, program_id: Seq<u8>) -> Option<
    (Seq<u8>, u8),
>;

/// Relies on anchor_lang's re-exported Pubkey::try_find_program_address
/// (solana-address): deterministic and pure, it derives a 32-byte address
/// and bump nonce from the seeds and program id alone, and returns None
/// when no bump works or a seed limit is exceeded.
#[verifier::external_body]
fn try_derive_address(seeds: &Vec<Vec<u8>>, program_id: &Address) -> (r: Option<(Address, u8)>)
    requires
        program_id.wf(),
    ensures
        (r matches Some(p) ==> p.0.wf() && derived_address_of(seeds.deep_view(), program_id@)
            == Some((p.0@, p.1))),
        r is None ==> derived_address_of(seeds.deep_view(), program_id@) is None,
{
    let seed_slices: Vec<&[u8]> = seeds.iter().map(|s| s.as_slice()).collect();
    let mut pid_bytes = [0u8; 32];
    pid_bytes.copy_from_slice(program_id.bytes.as_slice());
    let pid = anchor_lang::prelude::Pubkey::new_from_array(pid_bytes);
    anchor_lang::prelude::Pubkey::try_find_program_address(&seed_slices, &pid).map(
        |(addr, nonce)| (Address { bytes: addr.to_bytes().to_vec() }, nonce),
    )
}

/// The derivation of an entity's record address from its owner identity.
pub open spec fn lockbox_derivation_of(owner: Seq<u8>, program_id: Seq<u8>) -> Option<
    (Seq<u8>, u8),
> {
    derived_address_of(seq![lockbox_seed_spec(), owner], program_id)
}

/// The derivation of an entity's custody sub-address: first the record
/// address from the owner identity, then the custody sub-address from the
/// record address.
pub open spec fn custody_derivation_of(owner: Seq<u8>, program_id: Seq<u8>) -> Option<
    (Seq<u8>, u8),
> {
    match lockbox_derivation_of(owner, program_id) {
        None => None,
        Some(record) => derived_address_of(seq![vault_seed_spec(), record.0], program_id),
    }
}

/// Derives the deterministic record address of the entity owned by `owner`,
/// with its disambiguation nonce.
pub fn derive_lockbox_address(owner: &Address, program_id: &Address) -> (r: Option<(Address, u8)>)
    requires
        owner.wf(),
        program_id.wf(),
    ensures
        (r matches Some(p) ==> p.0.wf() && lockbox_derivation_of(owner@, program_id@)
            == Some((p.0@, p.1))),
        r is None ==> lockbox_derivation_of(owner@, program_id@) is None,
{
    let mut seeds: Vec<Vec<u8>> = Vec::new();
    seeds.push(lockbox_seed());
    seeds.push(owner.dup().bytes);
    proof {
        assert(seeds.deep_view() =~~= seq![lockbox_seed_spec(), owner@]);
    }
    try_derive_address(&seeds, program_id)
}

/// Derives the custody capability of the entity owned by `owner`: the
/// deterministic, keyless sub-address that physically holds the deposited
/// value, and the nonce proving it canonical.
pub fn derive_custody_capability(owner: &Address, program_id: &Address) -> (r: Option<
    CustodyCapability,
>)
    requires
        owner.wf(),
        program_id.wf(),
    ensures
        (r matches Some(c) ==> c.wf() && custody_derivation_of(owner@, program_id@)
            == Some((c.address@, c.nonce))),
        r is None ==> custody_derivation_of(owner@, program_id@) is None,
{
    match derive_lockbox_address(owner, program_id) {
        None => None,
        Some((record_addr, _record_nonce)) => {
            let mut seeds: Vec<Vec<u8>> = Vec::new();
            seeds.push(vault_seed());
            let ghost record_view = record_addr@;
            seeds.push(record_addr.bytes);
            proof {
                assert(seeds.deep_view() =~~= seq![vault_seed_spec(), record_view]);
            }
            match try_derive_address(&seeds, program_id) {
                None => None,
                Some((addr, nonce)) => Some(CustodyCapability { address: addr, nonce }),
            }
        },
    }
}

} // verus!
