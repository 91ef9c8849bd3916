//! The multisig registry: its owner set, its threshold and the operations
//! that create and amend it.

use crate::authority::{confirm_caller, derive_authority, program_address, AuthorityProof};
use crate::error::ErrorCode;
use crate::identity::{all_distinct, distinct, Identity};
use vstd::prelude::*;

verus! {

/// The durable configuration of one multisig.
#[derive(Clone, Debug, PartialEq, Eq)]
pub struct Multisig {
    /// The owners, in the order that approval bitmaps are indexed by.
    pub owners: Vec<Identity>,
    /// How many owners must approve before a transaction may execute.
    pub threshold: u64,
    /// The byte from which, with the registry's address, its execution
    /// authority is derived. Fixed at creation.
    pub nonce: u8,
}

impl Multisig {
    /// A registry is well formed when no owner is named twice and
    /// `1 <= threshold <= owners.len()`.
    pub open spec fn wf(&self) -> bool {
        &&& distinct(self.owners@)
        &&& 1 <= self.threshold <= self.owners@.len()
    }

    /// Whether the registry is well formed.
    pub fn is_well_formed(&self) -> (ok: bool)
        ensures
            ok == self.wf(),
    {
        valid_threshold(self.threshold, self.owners.len()) && all_distinct(&self.owners)
    }
}

impl Default for Multisig {
    /// The registry as blank storage holds it: no owners, threshold zero.
    /// It is not well formed; `create_multisig` makes one that is.
    fn default() -> (blank: Multisig)
        ensures
            blank.owners@.len() == 0,
            blank.threshold == 0,
            blank.nonce == 0,
    {
        Multisig { owners: Vec::new(), threshold: 0, nonce: 0 }
    }
}

/// Whether `threshold` lies between one and the number of owners.
pub open spec fn threshold_in_range(threshold: u64, owners: nat) -> bool {
    1 <= threshold <= owners
}

/// The threshold that remains after the owner set becomes `owners` long:
/// the old one, lowered to the new length where it exceeded it.
pub open spec fn clamped_threshold(threshold: u64, owners: nat) -> u64 {
    if owners < threshold {
        owners as u64
    } else {
        threshold
    }
}

/// What creating a registry from these arguments gives: a threshold out of
/// range is reported first, then an owner named twice.
pub open spec fn created_registry(
    owners: Vec<Identity>,
    threshold: u64,
    nonce: u8,
) -> Result<Multisig, ErrorCode> {
    if !threshold_in_range(threshold, owners@.len()) {
        Err(ErrorCode::InvalidThreshold)
    } else if !distinct(owners@) {
        Err(ErrorCode::InvalidOwner)
    } else {
        Ok(Multisig { owners, threshold, nonce })
    }
}

/// What amending a registry to the owner set `owners` gives: an empty set
/// and a set that names an owner twice are refused; otherwise the owners
/// are replaced, the threshold is lowered where it exceeds their number,
/// and the nonce stays.
pub open spec fn amended_registry(
    registry: Multisig,
    owners: Vec<Identity>,
) -> Result<Multisig, ErrorCode> {
    if owners@.len() == 0 {
        Err(ErrorCode::InvalidThreshold)
    } else if !distinct(owners@) {
        Err(ErrorCode::InvalidOwner)
    } else {
        Ok(
            Multisig {
                owners,
                threshold: clamped_threshold(registry.threshold, owners@.len()),
                nonce: registry.nonce,
            },
        )
    }
}

/// The threshold of a registry stays between one and the number of its
/// owners: every registry that is created is well formed, and every
/// amendment of a well-formed registry gives a well-formed registry.
pub proof fn lemma_threshold_stays_in_range(
    owners: Vec<Identity>,
    threshold: u64,
    nonce: u8,
    registry: Multisig,
    next_owners: Vec<Identity>,
)
    requires
        registry.wf(),
    ensures
        created_registry(owners, threshold, nonce) matches Ok(m) ==> m.wf(),
        amended_registry(registry, next_owners) matches Ok(m) ==> m.wf()
            && 1 <= m.threshold <= m.owners@.len() && m.threshold <= registry.threshold,
{
}

fn valid_threshold(threshold: u64, owners: usize) -> (ok: bool)
    ensures
        ok == threshold_in_range(threshold, owners as nat),
{
    1 <= threshold && threshold <= owners as u64
}

/// Creates a registry from an owner set, a threshold and a derivation nonce.
///
/// A threshold of zero or above the number of owners is refused with
/// `InvalidThreshold`, which covers the empty owner set; otherwise an owner
/// set that names an identity twice is refused with `InvalidOwner`.
pub fn create_multisig(
    owners: Vec<Identity>,
    threshold: u64,
    nonce: u8,
) -> (created: Result<Multisig, ErrorCode>)
    ensures
        created == created_registry(owners, threshold, nonce),
        created matches Ok(m) ==> m.wf(),
{
    if !valid_threshold(threshold, owners.len()) {
        return Err(ErrorCode::InvalidThreshold);
    }
    if !all_distinct(&owners) {
        return Err(ErrorCode::InvalidOwner);
    }
    Ok(Multisig { owners, threshold, nonce })
}

/// Whether `caller` is the execution authority of `registry`, stored at
/// `registry_address` under `program`, and stands behind the call: its key
/// is the address derived from the registry's address and nonce, and it
/// has signed.
pub open spec fn is_execution_authority(
    registry: Multisig,
    registry_address: Seq<u8>,
    program: Seq<u8>,
    caller: Seq<u8>,
    caller_signed: bool,
) -> bool {
    caller_signed && program_address(registry_address, registry.nonce, program) == Some(caller)
}

/// Replaces the owner set of the registry stored at `registry_address`, on
/// proof that the caller is that registry's own execution authority.
///
/// The proof has to be one for this registry: made for its address and its
/// nonce. An empty owner set is refused with `InvalidThreshold` and one
/// that names an identity twice with `InvalidOwner`; both leave the
/// registry as it was. Otherwise the owners are replaced, the nonce stays,
/// and a threshold above the new number of owners is lowered to that
/// number, so a well-formed registry stays well formed.
pub fn set_owners(
    registry: &mut Multisig,
    registry_address: &Identity,
    proof: &AuthorityProof,
    owners: Vec<Identity>,
) -> (done: Result<(), ErrorCode>)
    requires
        old(registry).wf(),
        proof.spec_authority().is_for(*old(registry), *registry_address),
    ensures
        final(registry).wf(),
        match amended_registry(*old(registry), owners) {
            Ok(m) => done.is_ok() && *final(registry) == m,
            Err(e) => done == Err::<(), ErrorCode>(e) && *final(registry) == *old(registry),
        },
{
    if owners.len() == 0 {
        return Err(ErrorCode::InvalidThreshold);
    }
    if !all_distinct(&owners) {
        return Err(ErrorCode::InvalidOwner);
    }
    if (owners.len() as u64) < registry.threshold {
        registry.threshold = owners.len() as u64;
    }
    registry.owners = owners;
    Ok(())
}

/// Replaces the owner set of the registry stored at `registry_address` on
/// behalf of `caller`, who has or has not signed the call.
///
/// Nothing is done, and `None` is returned, unless the caller is the
/// registry's own execution authority: unless its key is the address
/// derived from the registry's address and nonce under `program`, and it
/// has signed. An owner calling in its own name is therefore refused, as is
/// the authority of any other registry. Where the caller is the authority,
/// the result is what [`set_owners`] gives.
pub fn set_owners_as(
    registry: &mut Multisig,
    registry_address: &Identity,
    program: &Identity,
    caller: &Identity,
    caller_signed: bool,
    owners: Vec<Identity>,
) -> (done: Option<Result<(), ErrorCode>>)
    requires
        old(registry).wf(),
    ensures
        final(registry).wf(),
        done.is_some() == is_execution_authority(
            *old(registry),
            registry_address@,
            program@,
            caller@,
            caller_signed,
        ),
        done.is_none() ==> *final(registry) == *old(registry),
        done matches Some(amended) ==> match amended_registry(*old(registry), owners) {
            Ok(m) => amended.is_ok() && *final(registry) == m,
            Err(e) => amended == Err::<(), ErrorCode>(e) && *final(registry) == *old(registry),
        },
{
    let authority = derive_authority(registry, registry_address, program);
    match confirm_caller(authority, caller, caller_signed) {
        Some(proof) => Some(set_owners(registry, registry_address, &proof, owners)),
        None => None,
    }
}

/// Closes a registry. The engine keeps nothing besides the registry value
/// itself, so giving the value up is all there is to do: reclaiming its
/// storage is the storage substrate's part, and transactions that still name
/// the registry are not looked for.
pub fn close_account(registry: Multisig) -> (done: Result<(), ErrorCode>)
    ensures
        done == Ok::<(), ErrorCode>(()),
{
    let _ = registry;
    Ok(())
}

} // verus!
