//! A collection together with its live tickets.
//!
//! The ledger finds each ticket by its number, so that a number can be
//! claimed only while no live ticket bears it, and it keeps the supply
//! counter equal to the number of live tickets.

use std::collections::HashMap;
use vstd::prelude::*;
use vstd::set_lib::lemma_len_subset;
use crate::codec::SiblingRecordView;
use crate::error::ErrorCode;
use crate::events::BaseUriUpdatedEvent;
use crate::events::BaseUriUpdatedView;
use crate::events::BurnEvent;
use crate::events::ClaimEvent;
use crate::events::LockEvent;
use crate::events::SignerUpdatedEvent;
use crate::events::TransferEvent;
use crate::instructions::verification_record;
use crate::instructions::InstructionsAccount;
use crate::keys::Pubkey;
use crate::ops;
use crate::state::CollectionView;
use crate::state::Nft;
use crate::state::NftCollection;
use crate::state::MAX_SUPPLY;

verus! {

broadcast use vstd::std_specs::hash::group_hash_axioms;

/// Why the ledger did not carry out an operation.
#[derive(Clone, Copy, Debug, PartialEq, Eq, Structural)]
pub enum LedgerError {
    /// The operation itself refused.
    Refused(ErrorCode),
    /// A live ticket already bears the number that was claimed.
    Conflict,
    /// No live ticket bears the number that was named.
    NoSuchTicket,
}

/// A collection, its address, and its live tickets by number.
#[derive(Debug)]
pub struct Ledger {
    address: Pubkey,
    collection: NftCollection,
    tickets: HashMap<u32, Nft>,
}

/// A ledger as a mathematical value.
pub struct LedgerView {
    pub address: Pubkey,
    pub collection: CollectionView,
    pub tickets: Map<u32, Nft>,
}

/// An operation's own refusal, as the ledger reports it.
pub open spec fn lift(check: Result<(), ErrorCode>) -> Result<(), LedgerError> {
    match check {
        Ok(_) => Ok(()),
        Err(e) => Err(LedgerError::Refused(e)),
    }
}

impl LedgerView {
    /// The ledger's invariant: finitely many live tickets, each filed under
    /// its own number, below [`MAX_SUPPLY`], and belonging to this
    /// collection; and a supply counter equal to their number.
    pub open spec fn wf(self) -> bool {
        &&& self.tickets.dom().finite()
        &&& forall|id: u32| #[trigger]
            self.tickets.contains_key(id) ==> {
                &&& id < MAX_SUPPLY
                &&& self.tickets[id].nft_id == id
                &&& self.tickets[id].collection == self.address
            }
        &&& self.collection.total_supply == self.tickets.len()
    }

    /// Whether a live ticket bears the number `nft_id`.
    pub open spec fn is_live(self, nft_id: u32) -> bool {
        self.tickets.contains_key(nft_id)
    }

    /// The ledger of a new collection: no tickets.
    pub open spec fn fresh(
        address: Pubkey,
        authority: Pubkey,
        signer: Pubkey,
        base_uri: Seq<char>,
    ) -> LedgerView {
        LedgerView {
            address,
            collection: CollectionView::fresh(authority, signer, base_uri),
            tickets: Map::empty(),
        }
    }

    /// What stands in the way of a claim: the lock, the id's range, a live
    /// ticket with that id, then the proof.
    pub open spec fn claim_check(
        self,
        proof: Seq<u8>,
        nft_id: u32,
        recipient: Pubkey,
        record: Option<SiblingRecordView>,
    ) -> Result<(), LedgerError> {
        if self.collection.is_locked {
            Err(LedgerError::Refused(ErrorCode::ContractLocked))
        } else if nft_id >= MAX_SUPPLY {
            Err(LedgerError::Refused(ErrorCode::NftIdOutOfRange))
        } else if self.is_live(nft_id) {
            Err(LedgerError::Conflict)
        } else {
            lift(ops::claim_check(self.collection, proof, nft_id, recipient, record))
        }
    }

    /// The ledger after `recipient` has claimed ticket `nft_id`.
    pub open spec fn after_claim(self, nft_id: u32, recipient: Pubkey) -> LedgerView {
        LedgerView {
            collection: self.collection.with_supply(self.collection.total_supply + 1),
            tickets: self.tickets.insert(
                nft_id,
                Nft { nft_id, owner: recipient, collection: self.address },
            ),
            ..self
        }
    }

    /// What stands in the way of a transfer: the lock, the ticket's
    /// absence, the caller's identity, then the declared current owner.
    pub open spec fn transfer_check(self, nft_id: u32, from: Pubkey, caller: Pubkey) -> Result<
        (),
        LedgerError,
    > {
        if self.collection.is_locked {
            Err(LedgerError::Refused(ErrorCode::ContractLocked))
        } else if !self.is_live(nft_id) {
            Err(LedgerError::NoSuchTicket)
        } else {
            lift(ops::transfer_check(self.collection, self.tickets[nft_id], from, caller))
        }
    }

    /// The ledger after ticket `nft_id` has been handed to `new_owner`.
    pub open spec fn after_transfer(self, nft_id: u32, new_owner: Pubkey) -> LedgerView {
        LedgerView {
            tickets: self.tickets.insert(
                nft_id,
                Nft { owner: new_owner, ..self.tickets[nft_id] },
            ),
            ..self
        }
    }

    /// What stands in the way of a burn: the lock, the ticket's absence,
    /// then the caller's identity.
    pub open spec fn burn_check(self, nft_id: u32, caller: Pubkey) -> Result<(), LedgerError> {
        if self.collection.is_locked {
            Err(LedgerError::Refused(ErrorCode::ContractLocked))
        } else if !self.is_live(nft_id) {
            Err(LedgerError::NoSuchTicket)
        } else {
            lift(ops::burn_check(self.collection, caller))
        }
    }

    /// The ledger after ticket `nft_id` has been destroyed.
    pub open spec fn after_burn(self, nft_id: u32) -> LedgerView {
        LedgerView {
            collection: self.collection.with_supply((self.collection.total_supply - 1) as nat),
            tickets: self.tickets.remove(nft_id),
            ..self
        }
    }

    /// What stands in the way of a change of configuration.
    pub open spec fn operator_check(self, caller: Pubkey) -> Result<(), LedgerError> {
        lift(ops::operator_check(self.collection, caller))
    }

    /// The ledger after its signer has been replaced.
    pub open spec fn after_update_signer(self, new_signer: Pubkey) -> LedgerView {
        LedgerView { collection: self.collection.with_signer(new_signer), ..self }
    }

    /// The ledger after its metadata location has been replaced.
    pub open spec fn after_update_base_uri(self, new_base_uri: Seq<char>) -> LedgerView {
        LedgerView { collection: self.collection.with_base_uri(new_base_uri), ..self }
    }

    /// What stands in the way of locking: only the caller's identity.
    pub open spec fn lock_check(self, caller: Pubkey) -> Result<(), LedgerError> {
        if caller != self.collection.authority {
            Err(LedgerError::Refused(ErrorCode::Unauthorized))
        } else {
            Ok(())
        }
    }

    /// The ledger after it has been locked.
    pub open spec fn after_lock(self) -> LedgerView {
        LedgerView { collection: self.collection.locked(), ..self }
    }
}

/// The ticket numbers below `n`.
pub open spec fn ids_below(n: u32) -> Set<u32> {
    Set::new(|id: u32| id < n)
}

/// There are exactly `n` ticket numbers below `n`.
pub proof fn lemma_ids_below(n: u32)
    ensures
        ids_below(n).finite(),
        ids_below(n).len() == n,
    decreases n,
{
    if n == 0 {
        assert(ids_below(n) =~= Set::<u32>::empty());
    } else {
        let m = (n - 1) as u32;
        lemma_ids_below(m);
        assert(ids_below(n) =~= ids_below(m).insert(m));
    }
}

/// A well-formed ledger never holds more than [`MAX_SUPPLY`] tickets, and
/// holds fewer while some number below [`MAX_SUPPLY`] is free.
pub proof fn lemma_supply_bounded(ledger: LedgerView)
    requires
        ledger.wf(),
    ensures
        ledger.collection.total_supply <= MAX_SUPPLY,
        forall|id: u32|
            id < MAX_SUPPLY && !ledger.is_live(id) ==> ledger.collection.total_supply < MAX_SUPPLY,
{
    lemma_ids_below(MAX_SUPPLY);
    let live = ledger.tickets.dom();
    assert(live.subset_of(ids_below(MAX_SUPPLY)));
    lemma_len_subset(live, ids_below(MAX_SUPPLY));
    assert forall|id: u32| id < MAX_SUPPLY && !ledger.is_live(id) implies live.len()
        < MAX_SUPPLY by {
        assert(live.insert(id).subset_of(ids_below(MAX_SUPPLY)));
        lemma_len_subset(live.insert(id), ids_below(MAX_SUPPLY));
    }
}

impl View for Ledger {
    type V = LedgerView;

    closed spec fn view(&self) -> LedgerView {
        LedgerView {
            address: self.address,
            collection: self.collection@,
            tickets: self.tickets@,
        }
    }
}

impl Ledger {
    /// Whether the ledger's invariant holds. Every ledger that
    /// [`Ledger::initialize`] makes and the operations change is well
    /// formed.
    pub open spec fn wf(&self) -> bool {
        self@.wf()
    }

    /// Opens the ledger of a new collection at `address`.
    pub fn initialize(address: Pubkey, authority: Pubkey, signer: Pubkey, base_uri: String) -> (ledger:
        Ledger)
        ensures
            ledger.wf(),
            ledger@ == LedgerView::fresh(address, authority, signer, base_uri@),
    {
        let collection = ops::initialize(authority, signer, base_uri);
        let ledger = Ledger { address, collection, tickets: HashMap::new() };
        assert(ledger@.tickets.dom() =~= Set::<u32>::empty());
        ledger
    }

    /// The collection's address.
    pub fn address(&self) -> (address: Pubkey)
        ensures
            address == self@.address,
    {
        self.address
    }

    /// The collection record.
    pub fn collection(&self) -> (collection: &NftCollection)
        ensures
            collection@ == self@.collection,
    {
        &self.collection
    }

    /// The live ticket with number `nft_id`, if there is one.
    pub fn ticket(&self, nft_id: u32) -> (ticket: Option<Nft>)
        ensures
            ticket == (if self@.is_live(nft_id) {
                Some(self@.tickets[nft_id])
            } else {
                None
            }),
    {
        match self.tickets.get(&nft_id) {
            Some(nft) => Some(*nft),
            None => None,
        }
    }

    /// Claims ticket `nft_id` for `recipient`: see [`ops::claim`]. A number
    /// that a live ticket bears cannot be claimed, whatever the proof.
    pub fn claim(
        &mut self,
        proof: &[u8; 64],
        nft_id: u32,
        recipient: Pubkey,
        instruction_sysvar: &InstructionsAccount,
        timestamp: i64,
    ) -> (outcome: Result<ClaimEvent, LedgerError>)
        requires
            old(self).wf(),
        ensures
            final(self).wf(),
            match old(self)@.claim_check(
                proof@,
                nft_id,
                recipient,
                verification_record(instruction_sysvar@),
            ) {
                Ok(_) => {
                    &&& outcome == Ok::<ClaimEvent, LedgerError>(
                        ClaimEvent { nft_id, recipient, timestamp },
                    )
                    &&& final(self)@ == old(self)@.after_claim(nft_id, recipient)
                },
                Err(e) => {
                    &&& outcome == Err::<ClaimEvent, LedgerError>(e)
                    &&& final(self)@ == old(self)@
                },
            },
            old(self)@.collection.is_locked ==> outcome == Err::<ClaimEvent, LedgerError>(
                LedgerError::Refused(ErrorCode::ContractLocked),
            ),
            !old(self)@.collection.is_locked && nft_id >= MAX_SUPPLY ==> outcome == Err::<
                ClaimEvent,
                LedgerError,
            >(LedgerError::Refused(ErrorCode::NftIdOutOfRange)),
            !old(self)@.collection.is_locked && old(self)@.is_live(nft_id) ==> outcome == Err::<
                ClaimEvent,
                LedgerError,
            >(LedgerError::Conflict),
    {
        if self.collection.is_locked {
            return Err(LedgerError::Refused(ErrorCode::ContractLocked));
        }
        if nft_id >= MAX_SUPPLY {
            return Err(LedgerError::Refused(ErrorCode::NftIdOutOfRange));
        }
        if self.tickets.contains_key(&nft_id) {
            return Err(LedgerError::Conflict);
        }
        let address = self.address;
        match ops::claim(
            &mut self.collection,
            address,
            proof,
            nft_id,
            recipient,
            instruction_sysvar,
            timestamp,
        ) {
            Ok((nft, event)) => {
                self.tickets.insert(nft_id, nft);
                Ok(event)
            },
            Err(e) => Err(LedgerError::Refused(e)),
        }
    }

    /// Hands ticket `nft_id` to `new_owner`: see [`ops::transfer`].
    pub fn transfer(
        &mut self,
        nft_id: u32,
        from: Pubkey,
        authority: Pubkey,
        new_owner: Pubkey,
    ) -> (outcome: Result<TransferEvent, LedgerError>)
        requires
            old(self).wf(),
        ensures
            final(self).wf(),
            match old(self)@.transfer_check(nft_id, from, authority) {
                Ok(_) => {
                    &&& outcome == Ok::<TransferEvent, LedgerError>(
                        TransferEvent { nft_id, from, to: new_owner, operator: authority },
                    )
                    &&& final(self)@ == old(self)@.after_transfer(nft_id, new_owner)
                },
                Err(e) => {
                    &&& outcome == Err::<TransferEvent, LedgerError>(e)
                    &&& final(self)@ == old(self)@
                },
            },
    {
        if self.collection.is_locked {
            return Err(LedgerError::Refused(ErrorCode::ContractLocked));
        }
        let mut nft = match self.tickets.get(&nft_id) {
            Some(found) => *found,
            None => {
                return Err(LedgerError::NoSuchTicket);
            },
        };
        match ops::transfer(&self.collection, &mut nft, from, authority, new_owner) {
            Ok(event) => {
                self.tickets.insert(nft_id, nft);
                assert(self.tickets@.dom() =~= old(self).tickets@.dom());
                Ok(event)
            },
            Err(e) => Err(LedgerError::Refused(e)),
        }
    }

    /// Destroys ticket `nft_id`: see [`ops::burn`]. Its number is free to be
    /// claimed again.
    pub fn burn(&mut self, nft_id: u32, authority: Pubkey) -> (outcome: Result<BurnEvent, LedgerError>)
        requires
            old(self).wf(),
        ensures
            final(self).wf(),
            match old(self)@.burn_check(nft_id, authority) {
                Ok(_) => {
                    &&& outcome == Ok::<BurnEvent, LedgerError>(
                        BurnEvent { nft_id, operator: authority },
                    )
                    &&& final(self)@ == old(self)@.after_burn(nft_id)
                },
                Err(e) => {
                    &&& outcome == Err::<BurnEvent, LedgerError>(e)
                    &&& final(self)@ == old(self)@
                },
            },
    {
        if self.collection.is_locked {
            return Err(LedgerError::Refused(ErrorCode::ContractLocked));
        }
        let nft = match self.tickets.get(&nft_id) {
            Some(found) => *found,
            None => {
                return Err(LedgerError::NoSuchTicket);
            },
        };
        match ops::burn(&mut self.collection, nft, authority) {
            Ok(event) => {
                self.tickets.remove(&nft_id);
                Ok(event)
            },
            Err(e) => Err(LedgerError::Refused(e)),
        }
    }

    /// Replaces the key that authorizes claims: see [`ops::update_signer`].
    pub fn update_signer(&mut self, authority: Pubkey, new_signer: Pubkey) -> (outcome: Result<
        SignerUpdatedEvent,
        LedgerError,
    >)
        requires
            old(self).wf(),
        ensures
            final(self).wf(),
            match old(self)@.operator_check(authority) {
                Ok(_) => {
                    &&& outcome == Ok::<SignerUpdatedEvent, LedgerError>(
                        SignerUpdatedEvent {
                            old_signer: old(self)@.collection.signer,
                            new_signer,
                            operator: authority,
                        },
                    )
                    &&& final(self)@ == old(self)@.after_update_signer(new_signer)
                },
                Err(e) => {
                    &&& outcome == Err::<SignerUpdatedEvent, LedgerError>(e)
                    &&& final(self)@ == old(self)@
                },
            },
    {
        match ops::update_signer(&mut self.collection, authority, new_signer) {
            Ok(event) => Ok(event),
            Err(e) => Err(LedgerError::Refused(e)),
        }
    }

    /// Replaces the metadata location: see [`ops::update_base_uri`].
    pub fn update_base_uri(&mut self, authority: Pubkey, new_base_uri: String) -> (outcome: Result<
        BaseUriUpdatedEvent,
        LedgerError,
    >)
        requires
            old(self).wf(),
        ensures
            final(self).wf(),
            match old(self)@.operator_check(authority) {
                Ok(_) => {
                    &&& outcome matches Ok(event)
                    &&& event@ == (BaseUriUpdatedView {
                        old_base_uri: old(self)@.collection.base_uri,
                        new_base_uri: new_base_uri@,
                        operator: authority,
                    })
                    &&& final(self)@ == old(self)@.after_update_base_uri(new_base_uri@)
                },
                Err(e) => {
                    &&& outcome matches Err(refusal)
                    &&& refusal == e
                    &&& final(self)@ == old(self)@
                },
            },
    {
        match ops::update_base_uri(&mut self.collection, authority, new_base_uri) {
            Ok(event) => Ok(event),
            Err(e) => Err(LedgerError::Refused(e)),
        }
    }

    /// Locks the collection for good: see [`ops::lock_contract`].
    pub fn lock_contract(&mut self, authority: Pubkey, timestamp: i64) -> (outcome: Result<
        LockEvent,
        LedgerError,
    >)
        requires
            old(self).wf(),
        ensures
            final(self).wf(),
            match old(self)@.lock_check(authority) {
                Ok(_) => {
                    &&& outcome == Ok::<LockEvent, LedgerError>(
                        LockEvent { operator: authority, timestamp },
                    )
                    &&& final(self)@ == old(self)@.after_lock()
                },
                Err(e) => {
                    &&& outcome == Err::<LockEvent, LedgerError>(e)
                    &&& final(self)@ == old(self)@
                },
            },
    {
        match ops::lock_contract(&mut self.collection, authority, timestamp) {
            Ok(event) => Ok(event),
            Err(e) => Err(LedgerError::Refused(e)),
        }
    }
}

} // verus!
