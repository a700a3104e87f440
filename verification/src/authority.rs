use crate::error::StakingError;
use crate::identity::{lemma_identity_view_injective, Identity};
use anchor_lang::prelude::Pubkey;
use vstd::prelude::*;
use vstd::string::*;

verus! {

/// The fixed labels under which the protocol derives identities.
#[derive(Clone, Copy, Debug, PartialEq, Eq, Structural)]
pub enum Namespace {
    TokenMint,
    MintAuthority,
    StakingPool,
    VaultTokenAccount,
    PoolAuthority,
    StateAccount,
}

impl Namespace {
    /// The label of the namespace as text.
    pub open spec fn label_text(self) -> &'static str {
        match self {
            Namespace::TokenMint => "token-mint",
            Namespace::MintAuthority => "mint-authority",
            Namespace::StakingPool => "staking-pool",
            Namespace::VaultTokenAccount => "vault-token-account",
            Namespace::PoolAuthority => "pool-authority",
            Namespace::StateAccount => "state-account",
        }
    }

    /// The label of the namespace as the bytes that enter a derivation.
    pub open spec fn label_bytes(self) -> Seq<u8> {
        self.label_text().spec_bytes()
    }

    /// The label of the namespace.
    pub fn label(&self) -> (text: &'static str)
        ensures
            text == self.label_text(),
    {
        match self {
            Namespace::TokenMint => "token-mint",
            Namespace::MintAuthority => "mint-authority",
            Namespace::StakingPool => "staking-pool",
            Namespace::VaultTokenAccount => "vault-token-account",
            Namespace::PoolAuthority => "pool-authority",
            Namespace::StateAccount => "state-account",
        }
    }
}

/// The seeds of a derivation before the discriminant: the label, then the
/// owner's bytes for a per-user namespace.
pub open spec fn base_seeds(namespace: Namespace, owner: Option<Identity>) -> Seq<Seq<u8>> {
    match owner {
        Some(o) => seq![namespace.label_bytes(), o@],
        None => seq![namespace.label_bytes()],
    }
}

/// The address that the ledger's host derives for a program from a list of
/// seeds, or `None` where the seeds yield no address: too many seeds, a seed
/// that is too long, or a hash that is a key-holding identity.
pub uninterp spec fn program_address(seeds: Seq<Seq<u8>>, program_id: Seq<u8>) -> Option<Seq<u8>>;

/// The address derived from `seeds` followed by the one-byte seed `bump`.
pub open spec fn probe(program_id: Seq<u8>, seeds: Seq<Seq<u8>>, bump: u8) -> Option<Seq<u8>> {
    program_address(seeds.push(seq![bump]), program_id)
}

/// `bump` yields an address and no higher discriminant does. Discriminant 0
/// is never probed.
pub open spec fn is_highest_bump(program_id: Seq<u8>, seeds: Seq<Seq<u8>>, bump: u8) -> bool {
    &&& bump >= 1
    &&& probe(program_id, seeds, bump) is Some
    &&& forall|b: u8| b > bump ==> probe(program_id, seeds, b) is None
}

/// The discriminant that a derivation settles on, if any.
pub open spec fn derived_bump(program_id: Seq<u8>, seeds: Seq<Seq<u8>>) -> Option<u8> {
    if exists|b: u8| is_highest_bump(program_id, seeds, b) {
        Some(choose|b: u8| is_highest_bump(program_id, seeds, b))
    } else {
        None
    }
}

/// A signing identity that belongs to the program and to no private key,
/// with the discriminant that reproduces it.
#[derive(Clone, Copy, Debug, PartialEq, Eq)]
pub struct DerivedAuthority {
    pub namespace: Namespace,
    pub owner: Option<Identity>,
    pub address: Identity,
    pub bump: u8,
}

impl DerivedAuthority {
    /// The seeds with which this authority signs: the base seeds and the
    /// discriminant.
    pub open spec fn signer_seeds_spec(self) -> Seq<Seq<u8>> {
        base_seeds(self.namespace, self.owner).push(seq![self.bump])
    }
}

/// The identity with the given bytes.
pub open spec fn identity_of(bytes: Seq<u8>) -> Identity {
    choose|id: Identity| id@ == bytes
}

/// The authority derived for a namespace (and owner) under a program: the
/// address at the highest discriminant from 255 down to 1 that yields one.
pub open spec fn derived(
    program_id: Identity,
    namespace: Namespace,
    owner: Option<Identity>,
) -> Option<DerivedAuthority> {
    let seeds = base_seeds(namespace, owner);
    match derived_bump(program_id@, seeds) {
        Some(bump) => Some(
            DerivedAuthority {
                namespace,
                owner,
                address: identity_of(probe(program_id@, seeds, bump)->0),
                bump,
            },
        ),
        None => None,
    }
}

/// Calls `Pubkey::try_find_program_address` of the ledger's host library.
/// Trusted: it probes the discriminants 255 down to 1, appends each as a
/// one-byte seed, and returns the first address that `create_program_address`
/// yields together with that discriminant; `None` when none yields one.
#[verifier::external_body]
fn try_find_program_address(seeds: &Vec<Vec<u8>>, program_id: &Identity) -> (found: Option<
    (Identity, u8),
>)
    ensures
        match found {
            Some((address, bump)) => {
                &&& is_highest_bump(program_id@, seeds.deep_view(), bump)
                &&& probe(program_id@, seeds.deep_view(), bump) == Some(address@)
            },
            None => forall|b: u8| b >= 1 ==> probe(program_id@, seeds.deep_view(), b) is None,
        },
{
    let parts: Vec<&[u8]> = seeds.iter().map(|s| s.as_slice()).collect();
    let program = Pubkey::new_from_array(program_id.bytes);
    match Pubkey::try_find_program_address(&parts, &program) {
        Some((key, bump)) => Some((Identity { bytes: key.to_bytes() }, bump)),
        None => None,
    }
}

/// Calls `Pubkey::create_program_address` of the ledger's host library.
/// Trusted: the result is the address that the host derives from exactly
/// these seeds, and `None` where it reports an error.
#[verifier::external_body]
fn create_program_address(seeds: &Vec<Vec<u8>>, program_id: &Identity) -> (address: Option<
    Identity,
>)
    ensures
        match address {
            Some(id) => program_address(seeds.deep_view(), program_id@) == Some(id@),
            None => program_address(seeds.deep_view(), program_id@) is None,
        },
{
    let parts: Vec<&[u8]> = seeds.iter().map(|s| s.as_slice()).collect();
    let program = Pubkey::new_from_array(program_id.bytes);
    match Pubkey::create_program_address(&parts, &program) {
        Ok(key) => Some(Identity { bytes: key.to_bytes() }),
        Err(_) => None,
    }
}

/// Seen as a sequence of bytes, a byte vector is its own contents.
proof fn lemma_bytes_deep_view(v: Vec<u8>)
    ensures
        v.deep_view() == v@,
{
    assert(v.deep_view() =~= v@);
}

/// Appending one seed to a list of seeds appends its bytes to the view.
fn push_seed(seeds: &mut Vec<Vec<u8>>, seed: Vec<u8>)
    ensures
        final(seeds).deep_view() == old(seeds).deep_view().push(seed@),
{
    let ghost before = seeds.deep_view();
    let ghost bytes = seed@;
    proof {
        lemma_bytes_deep_view(seed);
    }
    seeds.push(seed);
    assert(seeds.deep_view() =~= before.push(bytes));
}

/// Builds the seeds of a namespace and owner, without a discriminant.
pub fn seeds_of(namespace: Namespace, owner: Option<Identity>) -> (seeds: Vec<Vec<u8>>)
    ensures
        seeds.deep_view() == base_seeds(namespace, owner),
{
    let mut seeds: Vec<Vec<u8>> = Vec::new();
    assert(seeds.deep_view() =~= Seq::<Seq<u8>>::empty());
    push_seed(&mut seeds, namespace.label().as_bytes_vec());
    match owner {
        Some(o) => {
            push_seed(&mut seeds, o.to_bytes());
            assert(seeds.deep_view() =~= base_seeds(namespace, owner));
        },
        None => {
            assert(seeds.deep_view() =~= base_seeds(namespace, owner));
        },
    }
    seeds
}

/// The one-byte seed that carries a discriminant.
fn bump_seed(bump: u8) -> (seed: Vec<u8>)
    ensures
        seed@ == seq![bump],
{
    let mut seed: Vec<u8> = Vec::new();
    seed.push(bump);
    assert(seed@ =~= seq![bump]);
    seed
}

/// A discriminant that satisfies `is_highest_bump` is the derived one.
pub proof fn lemma_highest_bump_unique(program_id: Seq<u8>, seeds: Seq<Seq<u8>>, bump: u8)
    requires
        is_highest_bump(program_id, seeds, bump),
    ensures
        derived_bump(program_id, seeds) == Some(bump),
{
    let chosen = choose|b: u8| is_highest_bump(program_id, seeds, b);
    if chosen < bump {
        assert(probe(program_id, seeds, bump) is None);
    }
    if bump < chosen {
        assert(probe(program_id, seeds, chosen) is None);
    }
}

/// Probes for the authority of a namespace (and owner) under a program.
/// `None` exactly when no discriminant from 255 down to 1 yields an
/// address. The authority found is reproduced by its own discriminant.
pub fn find_authority(
    program_id: &Identity,
    namespace: Namespace,
    owner: Option<Identity>,
) -> (found: Option<DerivedAuthority>)
    ensures
        found == derived(*program_id, namespace, owner),
        found matches Some(authority) ==> probe(
            program_id@,
            base_seeds(namespace, owner),
            authority.bump,
        ) == Some(authority.address@),
{
    let seeds = seeds_of(namespace, owner);
    match try_find_program_address(&seeds, program_id) {
        Some((address, bump)) => {
            proof {
                let s = base_seeds(namespace, owner);
                lemma_highest_bump_unique(program_id@, s, bump);
                let chosen = identity_of(probe(program_id@, s, bump)->0);
                assert(chosen@ == address@);
                lemma_identity_view_injective(chosen, address);
            }
            Some(DerivedAuthority { namespace, owner, address, bump })
        },
        None => {
            proof {
                let s = base_seeds(namespace, owner);
                assert forall|b: u8| !is_highest_bump(program_id@, s, b) by {
                    if b >= 1 {
                        assert(probe(program_id@, s, b) is None);
                    }
                }
            }
            None
        },
    }
}

/// What a derivation comes to: the authority found, or
/// `DerivationNotFound`.
pub open spec fn authority_or_error(found: Option<DerivedAuthority>) -> Result<
    DerivedAuthority,
    StakingError,
> {
    match found {
        Some(authority) => Ok(authority),
        None => Err(StakingError::DerivationNotFound),
    }
}

/// Derives the authority of a namespace (and owner) under a program.
/// Fails with `DerivationNotFound` exactly when no discriminant from 255
/// down to 1 yields an address.
pub fn derive_authority(
    program_id: &Identity,
    namespace: Namespace,
    owner: Option<Identity>,
) -> (r: Result<DerivedAuthority, StakingError>)
    ensures
        r == authority_or_error(derived(*program_id, namespace, owner)),
        r matches Ok(authority) ==> probe(
            program_id@,
            base_seeds(namespace, owner),
            authority.bump,
        ) == Some(authority.address@),
{
    match find_authority(program_id, namespace, owner) {
        Some(authority) => Ok(authority),
        None => Err(StakingError::DerivationNotFound),
    }
}

/// Recomputes the address of a namespace (and owner) from a saved
/// discriminant, without probing. `None` where the discriminant yields no
/// address.
pub fn address_with_bump(
    program_id: &Identity,
    namespace: Namespace,
    owner: Option<Identity>,
    bump: u8,
) -> (address: Option<Identity>)
    ensures
        match address {
            Some(id) => probe(program_id@, base_seeds(namespace, owner), bump) == Some(id@),
            None => probe(program_id@, base_seeds(namespace, owner), bump) is None,
        },
{
    let mut seeds = seeds_of(namespace, owner);
    push_seed(&mut seeds, bump_seed(bump));
    create_program_address(&seeds, program_id)
}

/// The seeds with which a derived authority signs an instruction.
pub fn signer_seeds(authority: &DerivedAuthority) -> (seeds: Vec<Vec<u8>>)
    ensures
        seeds.deep_view() == authority.signer_seeds_spec(),
{
    let mut seeds = seeds_of(authority.namespace, authority.owner);
    push_seed(&mut seeds, bump_seed(authority.bump));
    seeds
}

} // verus!
