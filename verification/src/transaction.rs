//! Transaction proposals: the action they carry, their approval bitmap and
//! the rules by which they are proposed, approved and executed.

use crate::authority::{program_address, ExecutionAuthority};
use crate::error::ErrorCode;
use crate::identity::{contains_key, find, is_position, Identity};
use crate::registry::{is_execution_authority, Multisig};
use vstd::prelude::*;

verus! {

/// One participant of a proposed action.
#[derive(Clone, Copy, Debug, PartialEq, Eq)]
pub struct TransactionAccount {
    pub pubkey: Identity,
    pub is_signer: bool,
    pub is_writable: bool,
}

/// One participant of an action as it is handed to the execution substrate.
#[derive(Clone, Copy, Debug, PartialEq, Eq)]
pub struct AccountMeta {
    pub pubkey: Identity,
    pub is_signer: bool,
    pub is_writable: bool,
}

/// An action as it is handed to the execution substrate.
#[derive(Clone, Debug, PartialEq, Eq)]
pub struct Instruction {
    /// The program that carries the action out.
    pub program_id: Identity,
    /// The participants, in order.
    pub accounts: Vec<AccountMeta>,
    /// The payload.
    pub data: Vec<u8>,
}

/// An authorized action together with the material from which the substrate
/// checks that the execution authority stands behind it.
#[derive(Clone, Debug, PartialEq, Eq)]
pub struct Invocation {
    /// The action, with the execution authority as a signer.
    pub instruction: Instruction,
    /// The address of the registry: the first seed of the authority.
    pub seed: Identity,
    /// The registry's nonce: the second seed of the authority.
    pub bump: u8,
}

/// A proposal: one pending action, who approved it, and whether it ran.
#[derive(Clone, Debug, PartialEq, Eq)]
pub struct Transaction {
    /// The address of the multisig this transaction belongs to.
    pub multisig: Identity,
    /// The program to execute against.
    pub program_id: Identity,
    /// The participants of the action.
    pub accounts: Vec<TransactionAccount>,
    /// The action's payload.
    pub data: Vec<u8>,
    /// `signers[i]` holds when the owner at position `i` has approved.
    pub signers: Vec<bool>,
    /// Set once the action has been carried out; never cleared.
    pub did_execute: bool,
}

/// The number of approvals in a bitmap.
pub open spec fn approvals(signers: Seq<bool>) -> nat
    decreases signers.len(),
{
    if signers.len() == 0 {
        0
    } else {
        approvals(signers.drop_last()) + if signers.last() {
            1nat
        } else {
            0nat
        }
    }
}

/// Whether a transaction may execute under a registry: it has not run yet
/// and its approvals reach the registry's current threshold.
pub open spec fn executable(registry: Multisig, tx: Transaction) -> bool {
    !tx.did_execute && approvals(tx.signers@) >= registry.threshold
}

/// The error that stands against executing a transaction that is not
/// executable: a past execution is reported before a lack of approvals.
pub open spec fn refusal(tx: Transaction) -> ErrorCode {
    if tx.did_execute {
        ErrorCode::AlreadyExecuted
    } else {
        ErrorCode::NotEnoughSigners
    }
}

/// The participant that the substrate is given for `account`, as it stands.
pub open spec fn plain_meta(account: TransactionAccount) -> AccountMeta {
    AccountMeta {
        pubkey: account.pubkey,
        is_signer: account.is_signer,
        is_writable: account.is_writable,
    }
}

/// The participant that the substrate is given for `account` when the
/// action runs under `authority`: the authority itself becomes a read-only
/// signer, every other participant stays as proposed.
pub open spec fn signed_meta(account: TransactionAccount, authority: Seq<u8>) -> AccountMeta {
    if account.pubkey@ == authority {
        AccountMeta { pubkey: account.pubkey, is_signer: true, is_writable: false }
    } else {
        plain_meta(account)
    }
}

/// The bitmap of a fresh proposal over `owners` made by `proposer`: one
/// entry per owner, set at the proposer's first position only.
pub open spec fn initial_approvals(owners: Seq<Identity>, proposer: Seq<u8>) -> Seq<bool> {
    Seq::new(owners.len(), |i: int| is_position(owners, proposer, i))
}

/// How an approval at position `i` changes a transaction: the entry at
/// `i` is set and everything else stays.
pub open spec fn approved_at(before: Transaction, after: Transaction, i: int) -> bool {
    &&& after.signers@ == before.signers@.update(i, true)
    &&& after.multisig == before.multisig
    &&& after.program_id == before.program_id
    &&& after.accounts == before.accounts
    &&& after.data == before.data
    &&& after.did_execute == before.did_execute
}

/// How the outcome of an authorized action changes a transaction: a
/// delivered action marks it as executed, a failed one leaves the mark as
/// it was, and everything else stays.
pub open spec fn settled(before: Transaction, after: Transaction, delivered: bool) -> bool {
    &&& after.did_execute == (before.did_execute || delivered)
    &&& after.multisig == before.multisig
    &&& after.program_id == before.program_id
    &&& after.accounts == before.accounts
    &&& after.data == before.data
    &&& after.signers == before.signers
}

/// The execution mark is never cleared: whichever of the two changes a
/// transaction goes through, an approval or the outcome of an action, one
/// that had executed before has executed after. The registry it belongs to
/// and the size of its bitmap stay as well.
pub proof fn lemma_executed_is_kept(
    before: Transaction,
    after: Transaction,
    i: int,
    delivered: bool,
)
    requires
        approved_at(before, after, i) || settled(before, after, delivered),
    ensures
        before.did_execute ==> after.did_execute,
        after.multisig == before.multisig,
        0 <= i < before.signers@.len() ==> after.signers@.len() == before.signers@.len(),
{
}

/// Setting an entry of a bitmap adds one approval where the entry was
/// clear and none where it was set: approving never lowers the count, and
/// approving twice counts once.
pub proof fn lemma_approval_counted(signers: Seq<bool>, i: int)
    requires
        0 <= i < signers.len(),
    ensures
        approvals(signers.update(i, true)) == approvals(signers) + if signers[i] {
            0nat
        } else {
            1nat
        },
        signers.update(i, true).update(i, true) == signers.update(i, true),
    decreases signers.len(),
{
    let after = signers.update(i, true);
    assert(after.update(i, true) =~= after);
    if i == signers.len() - 1 {
        assert(after.drop_last() =~= signers.drop_last());
    } else {
        assert(after.drop_last() =~= signers.drop_last().update(i, true));
        lemma_approval_counted(signers.drop_last(), i);
    }
}

/// Execution is final: a transaction that has executed is executable under
/// no registry, and what stands against executing it is `AlreadyExecuted`,
/// however many approvals it holds.
pub proof fn lemma_executed_is_final(registry: Multisig, tx: Transaction)
    requires
        tx.did_execute,
    ensures
        !executable(registry, tx),
        refusal(tx) == ErrorCode::AlreadyExecuted,
{
}

/// An approval keeps an executable transaction executable: the count that
/// is held against the threshold does not fall when an entry is set.
pub proof fn lemma_approval_keeps_executable(registry: Multisig, before: Transaction, after: Transaction, i: int)
    requires
        executable(registry, before),
        0 <= i < before.signers@.len(),
        after.signers@ == before.signers@.update(i, true),
        after.did_execute == before.did_execute,
    ensures
        executable(registry, after),
{
    lemma_approval_counted(before.signers@, i);
}

impl AccountMeta {
    /// A participant that may be written to.
    pub fn new(pubkey: Identity, is_signer: bool) -> (meta: AccountMeta)
        ensures
            meta == (AccountMeta { pubkey, is_signer, is_writable: true }),
    {
        AccountMeta { pubkey, is_signer, is_writable: true }
    }

    /// A participant that is only read.
    pub fn new_readonly(pubkey: Identity, is_signer: bool) -> (meta: AccountMeta)
        ensures
            meta == (AccountMeta { pubkey, is_signer, is_writable: false }),
    {
        AccountMeta { pubkey, is_signer, is_writable: false }
    }

}

impl From<TransactionAccount> for AccountMeta {
    /// The participant that stands for a proposed account.
    fn from(account: TransactionAccount) -> (meta: AccountMeta) {
        if account.is_writable {
            AccountMeta::new(account.pubkey, account.is_signer)
        } else {
            AccountMeta::new_readonly(account.pubkey, account.is_signer)
        }
    }
}

impl vstd::std_specs::convert::FromSpecImpl<TransactionAccount> for AccountMeta {
    open spec fn obeys_from_spec() -> bool {
        true
    }

    open spec fn from_spec(account: TransactionAccount) -> AccountMeta {
        plain_meta(account)
    }
}

impl Instruction {
    /// The action that a transaction proposes, participant by participant
    /// as proposed.
    pub fn from_transaction(tx: &Transaction) -> (ix: Instruction)
        ensures
            ix.program_id == tx.program_id,
            ix.data@ == tx.data@,
            ix.accounts@ == tx.accounts@.map_values(|a: TransactionAccount| plain_meta(a)),
    {
        let mut accounts: Vec<AccountMeta> = Vec::new();
        let mut i: usize = 0;
        while i < tx.accounts.len()
            invariant
                i <= tx.accounts@.len(),
                accounts@.len() == i,
                forall|j: int| 0 <= j < i ==> accounts@[j] == plain_meta(tx.accounts@[j]),
            decreases tx.accounts@.len() - i,
        {
            accounts.push(AccountMeta::from(tx.accounts[i]));
            i += 1;
        }
        let mut data: Vec<u8> = Vec::new();
        let mut k: usize = 0;
        while k < tx.data.len()
            invariant
                k <= tx.data@.len(),
                data@.len() == k,
                forall|j: int| 0 <= j < k ==> data@[j] == tx.data@[j],
            decreases tx.data@.len() - k,
        {
            data.push(tx.data[k]);
            k += 1;
        }
        assert(data@ =~= tx.data@);
        assert(accounts@ =~= tx.accounts@.map_values(|a: TransactionAccount| plain_meta(a)));
        Instruction { program_id: tx.program_id, accounts, data }
    }

    /// Makes `authority` a read-only signer wherever the participants name
    /// it, and leaves the rest of the action as it is.
    pub fn sign_as(&mut self, authority: &Identity)
        ensures
            final(self).program_id == old(self).program_id,
            final(self).data == old(self).data,
            final(self).accounts@.len() == old(self).accounts@.len(),
            forall|j: int|
                0 <= j < old(self).accounts@.len() ==> #[trigger] final(self).accounts@[j] == (
                if old(self).accounts@[j].pubkey@ == authority@ {
                    AccountMeta {
                        pubkey: old(self).accounts@[j].pubkey,
                        is_signer: true,
                        is_writable: false,
                    }
                } else {
                    old(self).accounts@[j]
                }),
    {
        let mut i: usize = 0;
        while i < self.accounts.len()
            invariant
                i <= self.accounts@.len(),
                self.program_id == old(self).program_id,
                self.data == old(self).data,
                self.accounts@.len() == old(self).accounts@.len(),
                forall|j: int| i <= j < self.accounts@.len() ==> self.accounts@[j] == old(self).accounts@[j],
                forall|j: int|
                    0 <= j < i ==> #[trigger] self.accounts@[j] == (
                    if old(self).accounts@[j].pubkey@ == authority@ {
                        AccountMeta {
                            pubkey: old(self).accounts@[j].pubkey,
                            is_signer: true,
                            is_writable: false,
                        }
                    } else {
                        old(self).accounts@[j]
                    }),
            decreases self.accounts@.len() - i,
        {
            let account = self.accounts[i];
            if account.pubkey.same(authority) {
                self.accounts.set(i, AccountMeta::new_readonly(account.pubkey, true));
            }
            i += 1;
        }
    }
}

impl Transaction {
    /// The number of owners that have approved.
    pub fn sig_count(&self) -> (count: u64)
        ensures
            count == approvals(self.signers@),
    {
        let mut count: u64 = 0;
        let mut i: usize = 0;
        while i < self.signers.len()
            invariant
                i <= self.signers@.len(),
                count <= i,
                count == approvals(self.signers@.subrange(0, i as int)),
            decreases self.signers@.len() - i,
        {
            proof {
                assert(self.signers@.subrange(0, i + 1).drop_last() =~= self.signers@.subrange(
                    0,
                    i as int,
                ));
            }
            if self.signers[i] {
                count += 1;
            }
            i += 1;
        }
        assert(self.signers@.subrange(0, i as int) =~= self.signers@);
        count
    }
}

/// Proposes an action on behalf of `proposer`, for the registry stored at
/// `registry_address`.
///
/// A proposer outside the registry's owners is refused with `InvalidOwner`.
/// Otherwise the new transaction is bound to the registry, carries the
/// action as given, has one approval entry per current owner with only the
/// proposer's set, and has not executed.
pub fn create_transaction(
    registry: &Multisig,
    registry_address: Identity,
    proposer: &Identity,
    pid: Identity,
    accs: Vec<TransactionAccount>,
    data: Vec<u8>,
) -> (created: Result<Transaction, ErrorCode>)
    ensures
        !contains_key(registry.owners@, proposer@) ==> created == Err::<Transaction, ErrorCode>(
            ErrorCode::InvalidOwner,
        ),
        contains_key(registry.owners@, proposer@) ==> created.is_ok(),
        created matches Ok(tx) ==> {
            &&& tx.multisig == registry_address
            &&& tx.program_id == pid
            &&& tx.accounts == accs
            &&& tx.data == data
            &&& tx.signers@ == initial_approvals(registry.owners@, proposer@)
            &&& !tx.did_execute
        },
{
    let owner_index = match find(&registry.owners, proposer) {
        Some(i) => i,
        None => {
            return Err(ErrorCode::InvalidOwner);
        },
    };
    let mut signers: Vec<bool> = Vec::new();
    let mut i: usize = 0;
    while i < registry.owners.len()
        invariant
            i <= registry.owners@.len(),
            signers@.len() == i,
            is_position(registry.owners@, proposer@, owner_index as int),
            forall|j: int| 0 <= j < i ==> signers@[j] == (j == owner_index),
        decreases registry.owners@.len() - i,
    {
        signers.push(i == owner_index);
        i += 1;
    }
    assert(signers@ =~= initial_approvals(registry.owners@, proposer@));
    Ok(
        Transaction {
            multisig: registry_address,
            program_id: pid,
            accounts: accs,
            data,
            signers,
            did_execute: false,
        },
    )
}

/// Records the approval of `owner`, looked up in the registry's current
/// owner set.
///
/// An identity outside the owners is refused with `InvalidOwner` and the
/// transaction stays as it was. Otherwise the entry at the owner's position
/// is set; approving again changes nothing. The owner's position has to lie
/// within the transaction's bitmap, which was sized when it was proposed.
pub fn approve(
    registry: &Multisig,
    tx: &mut Transaction,
    owner: &Identity,
) -> (done: Result<(), ErrorCode>)
    requires
        forall|i: int| #[trigger]
            is_position(registry.owners@, owner@, i) ==> i < old(tx).signers@.len(),
    ensures
        !contains_key(registry.owners@, owner@) ==> done == Err::<(), ErrorCode>(
            ErrorCode::InvalidOwner,
        ) && *final(tx) == *old(tx),
        contains_key(registry.owners@, owner@) ==> done.is_ok(),
        forall|i: int| #[trigger]
            is_position(registry.owners@, owner@, i) ==> approved_at(*old(tx), *final(tx), i),
        final(tx).did_execute == old(tx).did_execute,
        approvals(final(tx).signers@) >= approvals(old(tx).signers@),
{
    let owner_index = match find(&registry.owners, owner) {
        Some(i) => i,
        None => {
            return Err(ErrorCode::InvalidOwner);
        },
    };
    proof {
        lemma_approval_counted(tx.signers@, owner_index as int);
    }
    tx.signers.set(owner_index, true);
    Ok(())
}

/// Decides whether a transaction may execute now and, if so, hands out the
/// action to perform under `authority`, which has to be the authority of
/// the registry that the transaction belongs to.
///
/// A transaction that has executed is refused with `AlreadyExecuted`; one
/// whose approvals are fewer than the registry's current threshold with
/// `NotEnoughSigners`. Otherwise the result is the proposed action with the
/// authority as a read-only signer wherever the participants name it,
/// together with the seeds from which the authority's key derives. A
/// participant that names the authority thus leaves as the one caller that
/// an amendment of the registry's owners accepts. Nothing is changed: the
/// action is the caller's to perform, and [`record_outcome`] takes its
/// outcome.
pub fn execute_transaction(
    registry: &Multisig,
    tx: &Transaction,
    authority: &ExecutionAuthority,
) -> (decided: Result<Invocation, ErrorCode>)
    requires
        authority.is_for(*registry, tx.multisig),
    ensures
        decided.is_ok() == executable(*registry, *tx),
        decided matches Err(e) ==> e == refusal(*tx),
        decided matches Ok(call) ==> {
            &&& call.instruction.program_id == tx.program_id
            &&& call.instruction.data@ == tx.data@
            &&& call.instruction.accounts@ == tx.accounts@.map_values(
                |a: TransactionAccount| signed_meta(a, authority.spec_key()@),
            )
            &&& call.seed == authority.spec_registry()
            &&& call.seed@ == tx.multisig@
            &&& call.bump == registry.nonce
            &&& program_address(call.seed@, call.bump, authority.spec_program()@) == Some(
                authority.spec_key()@,
            )
            &&& forall|j: int|
                0 <= j < tx.accounts@.len() && tx.accounts@[j].pubkey@ == authority.spec_key()@
                    ==> is_execution_authority(
                    *registry,
                    tx.multisig@,
                    authority.spec_program()@,
                    (#[trigger] call.instruction.accounts@[j]).pubkey@,
                    call.instruction.accounts@[j].is_signer,
                )
        },
{
    if tx.did_execute {
        return Err(ErrorCode::AlreadyExecuted);
    }
    if tx.sig_count() < registry.threshold {
        return Err(ErrorCode::NotEnoughSigners);
    }
    let mut instruction = Instruction::from_transaction(tx);
    let key = authority.key();
    instruction.sign_as(&key);
    assert(instruction.accounts@ =~= tx.accounts@.map_values(
        |a: TransactionAccount| signed_meta(a, authority.spec_key()@),
    ));
    Ok(Invocation { instruction, seed: authority.registry(), bump: authority.nonce() })
}

/// Takes the outcome of performing an authorized action.
///
/// The same test as in [`execute_transaction`] is made first, with the same
/// errors, so that only an executable transaction can be marked. Then a
/// delivered action marks the transaction as executed, for good; a failed
/// one leaves it as it was, free to be tried again.
pub fn record_outcome(
    registry: &Multisig,
    tx: &mut Transaction,
    delivered: bool,
) -> (done: Result<(), ErrorCode>)
    ensures
        done.is_ok() == executable(*registry, *old(tx)),
        done matches Err(e) ==> e == refusal(*old(tx)) && *final(tx) == *old(tx),
        done.is_ok() ==> settled(*old(tx), *final(tx), delivered),
        old(tx).did_execute ==> final(tx).did_execute,
{
    if tx.did_execute {
        return Err(ErrorCode::AlreadyExecuted);
    }
    if tx.sig_count() < registry.threshold {
        return Err(ErrorCode::NotEnoughSigners);
    }
    if delivered {
        tx.did_execute = true;
    }
    Ok(())
}

} // verus!
