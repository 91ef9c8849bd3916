//! The execution authority: the identity derived from a registry's address
//! and nonce under which the registry's approved actions are carried out.

use crate::identity::Identity;
use crate::registry::Multisig;
use anchor_lang::prelude::Pubkey;
use vstd::prelude::*;

verus! {

/// The program-derived address for the seeds `registry` and the one byte
/// `nonce` under the program `program`, or `None` where those seeds derive
/// no valid address. It is a hash of its arguments; nothing is said of it
/// here beyond its being a function of them.
pub uninterp spec fn program_address(registry: Seq<u8>, nonce: u8, program: Seq<u8>) -> Option<Seq<u8>>;

/// The key of an optional identity.
pub open spec fn key_of(id: Option<Identity>) -> Option<Seq<u8>> {
    match id {
        Some(k) => Some(k@),
        None => None,
    }
}

/// Calls `Pubkey::create_program_address` of `anchor_lang` with the two
/// seeds `registry` (its 32 bytes) and `[nonce]`, under `program`. The
/// contract claims only that the outcome is the derived address as a
/// function of these three values; a derivation that the outside function
/// refuses comes back as `None`.
#[verifier::external_body]
fn create_program_address(
    registry: &Identity,
    nonce: u8,
    program: &Identity,
) -> (address: Option<Identity>)
    ensures
        key_of(address) == program_address(registry@, nonce, program@),
{
    let program_id = Pubkey::new_from_array(program.bytes);
    match Pubkey::create_program_address(&[&registry.bytes[..], &[nonce]], &program_id) {
        Ok(key) => Some(Identity { bytes: key.to_bytes() }),
        Err(_) => None,
    }
}

/// The execution authority of one registry: the registry's address, its
/// nonce, the program it was derived under, and the key derived from the
/// three. Its fields are private and every value satisfies the derivation,
/// so a value comes only from [`derive_authority`].
#[derive(Clone, Copy, Debug, PartialEq, Eq)]
pub struct ExecutionAuthority {
    registry: Identity,
    nonce: u8,
    program: Identity,
    key: Identity,
}

impl ExecutionAuthority {
    #[verifier::type_invariant]
    spec fn derived(self) -> bool {
        program_address(self.registry@, self.nonce, self.program@) == Some(self.key@)
    }

    /// The address of the registry that this authority acts for.
    pub closed spec fn spec_registry(&self) -> Identity {
        self.registry
    }

    /// The nonce that the key was derived with.
    pub closed spec fn spec_nonce(&self) -> u8 {
        self.nonce
    }

    /// The program that the key was derived under.
    pub closed spec fn spec_program(&self) -> Identity {
        self.program
    }

    /// The derived key.
    pub closed spec fn spec_key(&self) -> Identity {
        self.key
    }

    /// The address of the registry that this authority acts for.
    pub fn registry(&self) -> (address: Identity)
        ensures
            address == self.spec_registry(),
    {
        self.registry
    }

    /// The nonce that the key was derived with.
    pub fn nonce(&self) -> (nonce: u8)
        ensures
            nonce == self.spec_nonce(),
    {
        self.nonce
    }

    /// The program that the key was derived under.
    pub fn program(&self) -> (program: Identity)
        ensures
            program == self.spec_program(),
    {
        self.program
    }

    /// Whether this is the authority of `registry`, stored at
    /// `registry_address`: the one derived from that address and from the
    /// registry's nonce.
    pub open spec fn is_for(&self, registry: Multisig, registry_address: Identity) -> bool {
        &&& self.spec_registry()@ == registry_address@
        &&& self.spec_nonce() == registry.nonce
    }

    /// Whether this is the authority of `registry`, stored at
    /// `registry_address`.
    pub fn acts_for(&self, registry: &Multisig, registry_address: &Identity) -> (yes: bool)
        ensures
            yes == self.is_for(*registry, *registry_address),
    {
        self.nonce == registry.nonce && self.registry.same(registry_address)
    }

    /// The derived key. Whatever the value at hand, its key is the address
    /// derived from its registry, nonce and program.
    pub fn key(&self) -> (key: Identity)
        ensures
            key == self.spec_key(),
            program_address(self.spec_registry()@, self.spec_nonce(), self.spec_program()@)
                == Some(key@),
    {
        proof {
            use_type_invariant(self);
        }
        self.key
    }
}

/// Evidence that a caller is a registry's execution authority and has
/// signed the call. Its field is private, so a value comes only from
/// [`confirm_caller`].
#[derive(Clone, Copy, Debug, PartialEq, Eq)]
pub struct AuthorityProof {
    authority: ExecutionAuthority,
}

impl AuthorityProof {
    /// The authority that the caller was confirmed to be.
    pub closed spec fn spec_authority(&self) -> ExecutionAuthority {
        self.authority
    }

    /// The authority that the caller was confirmed to be.
    pub fn authority(&self) -> (authority: ExecutionAuthority)
        ensures
            authority == self.spec_authority(),
    {
        self.authority
    }
}

/// Derives the execution authority of the registry stored at
/// `registry_address`, from that address and the registry's nonce, under the
/// program `program`. The result is `None` exactly where the derivation
/// yields no address.
pub fn derive_authority(
    registry: &Multisig,
    registry_address: &Identity,
    program: &Identity,
) -> (authority: Option<ExecutionAuthority>)
    ensures
        authority.is_some() == program_address(
            registry_address@,
            registry.nonce,
            program@,
        ).is_some(),
        authority matches Some(a) ==> {
            &&& a.is_for(*registry, *registry_address)
            &&& a.spec_registry() == *registry_address
            &&& a.spec_nonce() == registry.nonce
            &&& a.spec_program() == *program
            &&& Some(a.spec_key()@) == program_address(registry_address@, registry.nonce, program@)
        },
{
    match create_program_address(registry_address, registry.nonce, program) {
        Some(key) => Some(
            ExecutionAuthority {
                registry: *registry_address,
                nonce: registry.nonce,
                program: *program,
                key,
            },
        ),
        None => None,
    }
}

/// Confirms that `caller` is the derived authority and signed the call.
///
/// The proof is given exactly when an authority was derived, its key is
/// `caller`, and `caller_signed` holds; it then carries that authority.
pub fn confirm_caller(
    authority: Option<ExecutionAuthority>,
    caller: &Identity,
    caller_signed: bool,
) -> (proof: Option<AuthorityProof>)
    ensures
        proof.is_some() == (caller_signed && authority.is_some()
            && authority.unwrap().spec_key()@ == caller@),
        proof matches Some(p) ==> authority == Some(p.spec_authority()),
{
    match authority {
        Some(a) => {
            if caller_signed && a.key.same(caller) {
                Some(AuthorityProof { authority: a })
            } else {
                None
            }
        },
        None => None,
    }
}

} // verus!
