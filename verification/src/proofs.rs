//! A registry of claims: a signed account may claim a byte string whose
//! length is within the configured bounds and that nobody holds yet; the
//! owner may revoke the claim or hand it to another account.

use vstd::prelude::*;
use crate::dispatch::{AccountId, BlockNumber, DispatchError, Origin, ensure_signed, signer};
use crate::table::ClaimTable;

verus! {

/// The registry's own errors.
#[derive(Clone, Copy, PartialEq, Eq, Debug, Structural)]
pub enum PoeError {
    /// The claim is held already.
    ProofAlreadyExist,
    /// Nobody holds the claim.
    ProofNotExist,
    /// The caller does not own the claim.
    NotClaimOwner,
    /// The claim is shorter than the configured minimum.
    TooShort,
    /// The claim is longer than the configured maximum.
    TooLong,
}

/// Who holds a claim, and since which block.
#[derive(Clone, Copy, PartialEq, Eq, Debug, Structural)]
pub struct Proof {
    pub owner: AccountId,
    pub block_number: BlockNumber,
}

/// The bounds on a claim's length, both inclusive.
#[derive(Clone, Copy, PartialEq, Eq, Debug, Structural)]
pub struct ClaimConfig {
    pub min_length: usize,
    pub max_length: usize,
}

/// What a successful call reports.
#[derive(Clone, PartialEq, Eq, Debug)]
pub enum PoeEvent {
    /// The account claimed the bytes.
    ClaimCreated(AccountId, Vec<u8>),
    /// The account revoked the bytes, held since the block.
    ClaimRevoked(AccountId, Vec<u8>, BlockNumber),
    /// The first account handed the bytes, held since the block, to the second.
    ClaimTransferred(AccountId, AccountId, Vec<u8>, BlockNumber),
}

/// An event with its claim taken as a sequence of bytes.
pub enum PoeEventView {
    ClaimCreated(AccountId, Seq<u8>),
    ClaimRevoked(AccountId, Seq<u8>, BlockNumber),
    ClaimTransferred(AccountId, AccountId, Seq<u8>, BlockNumber),
}

impl View for PoeEvent {
    type V = PoeEventView;

    open spec fn view(&self) -> PoeEventView {
        match self {
            PoeEvent::ClaimCreated(who, c) => PoeEventView::ClaimCreated(*who, c@),
            PoeEvent::ClaimRevoked(who, c, bn) => PoeEventView::ClaimRevoked(*who, c@, *bn),
            PoeEvent::ClaimTransferred(from, to, c, bn) => PoeEventView::ClaimTransferred(
                *from,
                *to,
                c@,
                *bn,
            ),
        }
    }
}

/// A result whose error is a dispatch error of this registry.
pub type PoeResult<T> = Result<T, DispatchError<PoeError>>;

/// What the registry holds for `claim`.
pub open spec fn lookup(proofs: Map<Seq<u8>, Proof>, claim: Seq<u8>) -> Option<Proof> {
    if proofs.contains_key(claim) {
        Some(proofs[claim])
    } else {
        None
    }
}

/// The proof that `sender` owns, where `existing` is what the registry
/// holds for the claim.
pub open spec fn owned_proof(sender: AccountId, existing: Option<Proof>) -> PoeResult<Proof> {
    match existing {
        None => Err(DispatchError::Module(PoeError::ProofNotExist)),
        Some(p) => if p.owner != sender {
            Err(DispatchError::Module(PoeError::NotClaimOwner))
        } else {
            Ok(p)
        },
    }
}

/// The outcome of claiming `claim` at block `now`: the proof to store and
/// the event to report.
pub open spec fn create_decision(
    config: ClaimConfig,
    origin: Origin,
    claim: Seq<u8>,
    existing: Option<Proof>,
    now: BlockNumber,
) -> PoeResult<(Proof, PoeEventView)> {
    match signer(origin) {
        None => Err(DispatchError::BadOrigin),
        Some(who) => if claim.len() < config.min_length {
            Err(DispatchError::Module(PoeError::TooShort))
        } else if claim.len() > config.max_length {
            Err(DispatchError::Module(PoeError::TooLong))
        } else if existing is Some {
            Err(DispatchError::Module(PoeError::ProofAlreadyExist))
        } else {
            Ok((Proof { owner: who, block_number: now }, PoeEventView::ClaimCreated(who, claim)))
        },
    }
}

/// The outcome of revoking `claim`: the event to report (the claim is
/// dropped).
pub open spec fn revoke_decision(origin: Origin, claim: Seq<u8>, existing: Option<Proof>) -> PoeResult<
    PoeEventView,
> {
    match signer(origin) {
        None => Err(DispatchError::BadOrigin),
        Some(who) => match owned_proof(who, existing) {
            Err(e) => Err(e),
            Ok(p) => Ok(PoeEventView::ClaimRevoked(who, claim, p.block_number)),
        },
    }
}

/// The outcome of handing `claim` to `receiver`: the proof to store and the
/// event to report.
pub open spec fn transfer_decision(
    origin: Origin,
    claim: Seq<u8>,
    receiver: AccountId,
    existing: Option<Proof>,
) -> PoeResult<(Proof, PoeEventView)> {
    match signer(origin) {
        None => Err(DispatchError::BadOrigin),
        Some(who) => match owned_proof(who, existing) {
            Err(e) => Err(e),
            Ok(p) => Ok(
                (
                    Proof { owner: receiver, block_number: p.block_number },
                    PoeEventView::ClaimTransferred(who, receiver, claim, p.block_number),
                ),
            ),
        },
    }
}

/// A decision with its event taken by its view.
pub open spec fn with_event_view(r: PoeResult<(Proof, PoeEvent)>) -> PoeResult<(Proof, PoeEventView)> {
    match r {
        Ok((p, ev)) => Ok((p, ev@)),
        Err(e) => Err(e),
    }
}

/// The proof that `sender` owns, given what the registry holds for the
/// claim: `ProofNotExist` where it holds nothing, `NotClaimOwner` where
/// another account owns it.
pub fn check_owner(sender: AccountId, existing: Option<Proof>) -> (r: PoeResult<Proof>)
    ensures
        r == owned_proof(sender, existing),
{
    match existing {
        None => Err(DispatchError::Module(PoeError::ProofNotExist)),
        Some(p) => {
            if p.owner != sender {
                Err(DispatchError::Module(PoeError::NotClaimOwner))
            } else {
                Ok(p)
            }
        },
    }
}

/// Decides a call that claims `claim` at block `now`, given what the
/// registry holds for it; on success the caller stores the proof and
/// reports the event.
pub fn decide_create(
    config: ClaimConfig,
    origin: Origin,
    claim: &Vec<u8>,
    existing: Option<Proof>,
    now: BlockNumber,
) -> (r: PoeResult<(Proof, PoeEvent)>)
    ensures
        with_event_view(r) == create_decision(config, origin, claim@, existing, now),
{
    let who: AccountId = ensure_signed(origin)?;
    if claim.len() < config.min_length {
        return Err(DispatchError::Module(PoeError::TooShort));
    }
    if claim.len() > config.max_length {
        return Err(DispatchError::Module(PoeError::TooLong));
    }
    if existing.is_some() {
        return Err(DispatchError::Module(PoeError::ProofAlreadyExist));
    }
    Ok((Proof { owner: who, block_number: now }, PoeEvent::ClaimCreated(who, claim.clone())))
}

/// Decides a call that revokes `claim`, given what the registry holds for
/// it; on success the caller drops the claim and reports the event.
pub fn decide_revoke(origin: Origin, claim: &Vec<u8>, existing: Option<Proof>) -> (r: PoeResult<
    PoeEvent,
>)
    ensures
        match (r, revoke_decision(origin, claim@, existing)) {
            (Ok(ev), Ok(sev)) => ev@ == sev,
            (Err(e), Err(se)) => e == se,
            _ => false,
        },
{
    let who: AccountId = ensure_signed(origin)?;
    let p = check_owner(who, existing)?;
    Ok(PoeEvent::ClaimRevoked(who, claim.clone(), p.block_number))
}

/// Decides a call that hands `claim` to `receiver`, given what the
/// registry holds for it; on success the caller stores the proof and
/// reports the event.
pub fn decide_transfer(
    origin: Origin,
    claim: &Vec<u8>,
    receiver: AccountId,
    existing: Option<Proof>,
) -> (r: PoeResult<(Proof, PoeEvent)>)
    ensures
        with_event_view(r) == transfer_decision(origin, claim@, receiver, existing),
{
    let who: AccountId = ensure_signed(origin)?;
    let p = check_owner(who, existing)?;
    Ok(
        (
            Proof { owner: receiver, block_number: p.block_number },
            PoeEvent::ClaimTransferred(who, receiver, claim.clone(), p.block_number),
        ),
    )
}

/// The registry's state: its bounds, the proofs it holds, and the events
/// reported so far.
pub struct PoeState {
    pub config: ClaimConfig,
    pub proofs: Map<Seq<u8>, Proof>,
    pub events: Seq<PoeEventView>,
}

impl PoeState {
    /// The state after a call that claims `claim` at block `now`, with the
    /// call's result.
    pub open spec fn create_claim(self, origin: Origin, claim: Seq<u8>, now: BlockNumber) -> (
        PoeState,
        PoeResult<()>,
    ) {
        match create_decision(self.config, origin, claim, lookup(self.proofs, claim), now) {
            Ok((p, ev)) => (
                PoeState {
                    config: self.config,
                    proofs: self.proofs.insert(claim, p),
                    events: self.events.push(ev),
                },
                Ok(()),
            ),
            Err(e) => (self, Err(e)),
        }
    }

    /// The state after a call that revokes `claim`, with the call's result.
    pub open spec fn revoke_claim(self, origin: Origin, claim: Seq<u8>) -> (PoeState, PoeResult<()>) {
        match revoke_decision(origin, claim, lookup(self.proofs, claim)) {
            Ok(ev) => (
                PoeState {
                    config: self.config,
                    proofs: self.proofs.remove(claim),
                    events: self.events.push(ev),
                },
                Ok(()),
            ),
            Err(e) => (self, Err(e)),
        }
    }

    /// The state after a call that hands `claim` to `receiver`, with the
    /// call's result.
    pub open spec fn transfer_claim(self, origin: Origin, claim: Seq<u8>, receiver: AccountId) -> (
        PoeState,
        PoeResult<()>,
    ) {
        match transfer_decision(origin, claim, receiver, lookup(self.proofs, claim)) {
            Ok((p, ev)) => (
                PoeState {
                    config: self.config,
                    proofs: self.proofs.insert(claim, p),
                    events: self.events.push(ev),
                },
                Ok(()),
            ),
            Err(e) => (self, Err(e)),
        }
    }

    /// Every claim held has a length within the bounds.
    pub open spec fn claims_within_bounds(self) -> bool {
        forall|c: Seq<u8>|
            #[trigger] self.proofs.contains_key(c) ==> self.config.min_length <= c.len()
                <= self.config.max_length
    }
}

/// The registry.
pub struct PoeRegistry {
    config: ClaimConfig,
    proofs: ClaimTable<Proof>,
    events: Vec<PoeEvent>,
}

impl View for PoeRegistry {
    type V = PoeState;

    closed spec fn view(&self) -> PoeState {
        PoeState {
            config: self.config,
            proofs: self.proofs@,
            events: self.events@.map_values(|e: PoeEvent| e@),
        }
    }
}

impl PoeRegistry {
    /// An empty registry with the given bounds on a claim's length.
    pub fn new(min_length: usize, max_length: usize) -> (r: Self)
        ensures
            r@.config == (ClaimConfig { min_length, max_length }),
            r@.proofs == Map::<Seq<u8>, Proof>::empty(),
            r@.events == Seq::<PoeEventView>::empty(),
    {
        let r = PoeRegistry {
            config: ClaimConfig { min_length, max_length },
            proofs: ClaimTable::new(),
            events: Vec::new(),
        };
        assert(r@.events =~= Seq::<PoeEventView>::empty());
        r
    }

    /// The shortest claim allowed.
    pub fn min_length(&self) -> (r: usize)
        ensures
            r == self@.config.min_length,
    {
        self.config.min_length
    }

    /// The longest claim allowed.
    pub fn max_length(&self) -> (r: usize)
        ensures
            r == self@.config.max_length,
    {
        self.config.max_length
    }

    /// Who holds `claim` and since which block, if anybody holds it.
    pub fn get_proof(&self, claim: &Vec<u8>) -> (r: Option<(AccountId, BlockNumber)>)
        ensures
            r == match lookup(self@.proofs, claim@) {
                Some(p) => Some((p.owner, p.block_number)),
                None => None,
            },
    {
        match self.proofs.get(claim) {
            Some(p) => Some((p.owner, p.block_number)),
            None => None,
        }
    }

    /// The owner and block of `claim`, where `sender` owns it.
    pub fn must_get_with_owner(&self, sender: AccountId, claim: &Vec<u8>) -> (r: PoeResult<
        (AccountId, BlockNumber),
    >)
        ensures
            r == match owned_proof(sender, lookup(self@.proofs, claim@)) {
                Ok(p) => Ok((p.owner, p.block_number)),
                Err(e) => Err(e),
            },
    {
        let p = check_owner(sender, self.proofs.get(claim))?;
        Ok((p.owner, p.block_number))
    }

    /// The events reported so far, oldest first.
    pub fn events(&self) -> (r: &Vec<PoeEvent>)
        ensures
            r@.map_values(|e: PoeEvent| e@) == self@.events,
    {
        &self.events
    }

    /// Claims `claim` for the signed caller at block `now`.
    pub fn create_claim(&mut self, origin: Origin, claim: Vec<u8>, now: BlockNumber) -> (r: PoeResult<()>)
        ensures
            (final(self)@, r) == old(self)@.create_claim(origin, claim@, now),
    {
        let existing = self.proofs.get(&claim);
        let (p, ev) = decide_create(self.config, origin, &claim, existing, now)?;
        let ghost before = self@;
        self.proofs.insert(claim, p);
        self.events.push(ev);
        proof {
            assert(self@.events =~= before.events.push(ev@));
        }
        Ok(())
    }

    /// Revokes `claim`, which the signed caller owns.
    pub fn revoke_claim(&mut self, origin: Origin, claim: Vec<u8>) -> (r: PoeResult<()>)
        ensures
            (final(self)@, r) == old(self)@.revoke_claim(origin, claim@),
    {
        let existing = self.proofs.get(&claim);
        let ev = decide_revoke(origin, &claim, existing)?;
        let ghost before = self@;
        self.proofs.remove(&claim);
        self.events.push(ev);
        proof {
            assert(self@.events =~= before.events.push(ev@));
        }
        Ok(())
    }

    /// Hands `claim`, which the signed caller owns, to `receiver`.
    pub fn transfer_claim(&mut self, origin: Origin, claim: Vec<u8>, receiver: AccountId) -> (r:
        PoeResult<()>)
        ensures
            (final(self)@, r) == old(self)@.transfer_claim(origin, claim@, receiver),
    {
        let existing = self.proofs.get(&claim);
        let (p, ev) = decide_transfer(origin, &claim, receiver, existing)?;
        let ghost before = self@;
        self.proofs.insert(claim, p);
        self.events.push(ev);
        proof {
            assert(self@.events =~= before.events.push(ev@));
        }
        Ok(())
    }
}

/// A signed caller who claims a free claim whose length is within the bounds
/// succeeds, owns it from block `now` on, and one creation event is
/// reported.
pub proof fn law_create_then_read(s: PoeState, who: AccountId, claim: Seq<u8>, now: BlockNumber)
    requires
        s.config.min_length <= claim.len() <= s.config.max_length,
        !s.proofs.contains_key(claim),
    ensures
        s.create_claim(Origin::Signed(who), claim, now).1 is Ok,
        lookup(s.create_claim(Origin::Signed(who), claim, now).0.proofs, claim) == Some(
            Proof { owner: who, block_number: now },
        ),
        s.create_claim(Origin::Signed(who), claim, now).0.events == s.events.push(
            PoeEventView::ClaimCreated(who, claim),
        ),
{
}

/// A claim that is held already cannot be claimed again, by anyone, and the
/// attempt changes nothing.
pub proof fn law_held_claim_refused(s: PoeState, who: AccountId, claim: Seq<u8>, now: BlockNumber)
    requires
        s.config.min_length <= claim.len() <= s.config.max_length,
        s.proofs.contains_key(claim),
    ensures
        s.create_claim(Origin::Signed(who), claim, now) == (
            s,
            Err::<(), DispatchError<PoeError>>(DispatchError::Module(PoeError::ProofAlreadyExist)),
        ),
{
}

/// Revoking a claim right after creating it restores the proofs held
/// before.
pub proof fn law_revoke_undoes_create(s: PoeState, who: AccountId, claim: Seq<u8>, now: BlockNumber)
    requires
        s.create_claim(Origin::Signed(who), claim, now).1 is Ok,
    ensures
        s.create_claim(Origin::Signed(who), claim, now).0.revoke_claim(Origin::Signed(who), claim).1 is Ok,
        s.create_claim(Origin::Signed(who), claim, now).0.revoke_claim(
            Origin::Signed(who),
            claim,
        ).0.proofs == s.proofs,
{
    let t = s.create_claim(Origin::Signed(who), claim, now).0;
    assert(t.proofs.remove(claim) =~= s.proofs);
}

/// The owner who revokes a claim succeeds; the claim is dropped, no other
/// claim changes, and one event names the owner, the claim and the block
/// the claim was held since.
pub proof fn law_revoke_by_owner(s: PoeState, who: AccountId, claim: Seq<u8>)
    requires
        s.proofs.contains_key(claim),
        s.proofs[claim].owner == who,
    ensures
        s.revoke_claim(Origin::Signed(who), claim).1 is Ok,
        s.revoke_claim(Origin::Signed(who), claim).0.proofs == s.proofs.remove(claim),
        s.revoke_claim(Origin::Signed(who), claim).0.events == s.events.push(
            PoeEventView::ClaimRevoked(who, claim, s.proofs[claim].block_number),
        ),
{
}

/// Only the owner of a claim may revoke it or hand it on; another signed
/// account is refused with `NotClaimOwner` and changes nothing.
pub proof fn law_only_owner_acts(s: PoeState, who: AccountId, claim: Seq<u8>, receiver: AccountId)
    requires
        s.proofs.contains_key(claim),
        s.proofs[claim].owner != who,
    ensures
        s.revoke_claim(Origin::Signed(who), claim) == (
            s,
            Err::<(), DispatchError<PoeError>>(DispatchError::Module(PoeError::NotClaimOwner)),
        ),
        s.transfer_claim(Origin::Signed(who), claim, receiver) == (
            s,
            Err::<(), DispatchError<PoeError>>(DispatchError::Module(PoeError::NotClaimOwner)),
        ),
{
}

/// A claim that nobody holds can be neither revoked nor handed on.
pub proof fn law_missing_claim_refused(s: PoeState, who: AccountId, claim: Seq<u8>, receiver: AccountId)
    requires
        !s.proofs.contains_key(claim),
    ensures
        s.revoke_claim(Origin::Signed(who), claim) == (
            s,
            Err::<(), DispatchError<PoeError>>(DispatchError::Module(PoeError::ProofNotExist)),
        ),
        s.transfer_claim(Origin::Signed(who), claim, receiver) == (
            s,
            Err::<(), DispatchError<PoeError>>(DispatchError::Module(PoeError::ProofNotExist)),
        ),
{
}

/// The owner who hands a claim on succeeds; the receiver then owns it since
/// the same block, no other claim changes, and the receiver may revoke it.
pub proof fn law_transfer_hands_over(s: PoeState, who: AccountId, claim: Seq<u8>, receiver: AccountId)
    requires
        s.proofs.contains_key(claim),
        s.proofs[claim].owner == who,
    ensures
        s.transfer_claim(Origin::Signed(who), claim, receiver).1 is Ok,
        s.transfer_claim(Origin::Signed(who), claim, receiver).0.proofs == s.proofs.insert(
            claim,
            Proof { owner: receiver, block_number: s.proofs[claim].block_number },
        ),
        s.transfer_claim(Origin::Signed(who), claim, receiver).0.proofs.dom() == s.proofs.dom(),
        s.transfer_claim(Origin::Signed(who), claim, receiver).0.revoke_claim(
            Origin::Signed(receiver),
            claim,
        ).1 is Ok,
        s.transfer_claim(Origin::Signed(who), claim, receiver).0.events == s.events.push(
            PoeEventView::ClaimTransferred(who, receiver, claim, s.proofs[claim].block_number),
        ),
{
    let t = s.transfer_claim(Origin::Signed(who), claim, receiver).0;
    assert(t.proofs.dom() =~= s.proofs.dom());
}

/// Calls from the root or from nobody are refused with `BadOrigin` and
/// change nothing.
pub proof fn law_unsigned_refused(
    s: PoeState,
    origin: Origin,
    claim: Seq<u8>,
    now: BlockNumber,
    receiver: AccountId,
)
    requires
        signer(origin) is None,
    ensures
        s.create_claim(origin, claim, now) == (s, Err::<(), DispatchError<PoeError>>(DispatchError::BadOrigin)),
        s.revoke_claim(origin, claim) == (s, Err::<(), DispatchError<PoeError>>(DispatchError::BadOrigin)),
        s.transfer_claim(origin, claim, receiver) == (
            s,
            Err::<(), DispatchError<PoeError>>(DispatchError::BadOrigin),
        ),
{
}

/// A call that fails leaves the registry as it was, events included; a call
/// that succeeds reports exactly one event after those reported before.
pub proof fn law_calls_are_atomic(
    s: PoeState,
    origin: Origin,
    claim: Seq<u8>,
    now: BlockNumber,
    receiver: AccountId,
)
    ensures
        s.create_claim(origin, claim, now).1 is Err ==> s.create_claim(origin, claim, now).0 == s,
        s.revoke_claim(origin, claim).1 is Err ==> s.revoke_claim(origin, claim).0 == s,
        s.transfer_claim(origin, claim, receiver).1 is Err ==> s.transfer_claim(
            origin,
            claim,
            receiver,
        ).0 == s,
        s.create_claim(origin, claim, now).1 is Ok ==> s.create_claim(origin, claim, now).0.events
            == s.events.push(s.create_claim(origin, claim, now).0.events.last()),
        s.revoke_claim(origin, claim).1 is Ok ==> s.revoke_claim(origin, claim).0.events
            == s.events.push(s.revoke_claim(origin, claim).0.events.last()),
        s.transfer_claim(origin, claim, receiver).1 is Ok ==> s.transfer_claim(
            origin,
            claim,
            receiver,
        ).0.events == s.events.push(s.transfer_claim(origin, claim, receiver).0.events.last()),
{
}

/// Every call keeps each held claim's length within the bounds, and keeps
/// the bounds themselves.
pub proof fn law_bounds_kept(
    s: PoeState,
    origin: Origin,
    claim: Seq<u8>,
    now: BlockNumber,
    receiver: AccountId,
)
    requires
        s.claims_within_bounds(),
    ensures
        s.create_claim(origin, claim, now).0.claims_within_bounds(),
        s.revoke_claim(origin, claim).0.claims_within_bounds(),
        s.transfer_claim(origin, claim, receiver).0.claims_within_bounds(),
        s.create_claim(origin, claim, now).0.config == s.config,
        s.revoke_claim(origin, claim).0.config == s.config,
        s.transfer_claim(origin, claim, receiver).0.config == s.config,
{
}

/// A signed caller's claim shorter than the minimum is refused with
/// `TooShort`, and one longer than the maximum with `TooLong`; nothing
/// changes.
pub proof fn law_length_bounds(s: PoeState, who: AccountId, claim: Seq<u8>, now: BlockNumber)
    ensures
        claim.len() < s.config.min_length ==> s.create_claim(Origin::Signed(who), claim, now) == (
            s,
            Err::<(), DispatchError<PoeError>>(DispatchError::Module(PoeError::TooShort)),
        ),
        (s.config.min_length <= claim.len() && claim.len() > s.config.max_length) ==> s.create_claim(
            Origin::Signed(who),
            claim,
            now,
        ) == (s, Err::<(), DispatchError<PoeError>>(DispatchError::Module(PoeError::TooLong))),
{
}

/// An event's view keeps each field in its place.
pub proof fn law_event_view_keeps_fields(a: AccountId, b: AccountId, c: Vec<u8>, n: BlockNumber)
    ensures
        PoeEvent::ClaimCreated(a, c)@ == PoeEventView::ClaimCreated(a, c@),
        PoeEvent::ClaimRevoked(a, c, n)@ == PoeEventView::ClaimRevoked(a, c@, n),
        PoeEvent::ClaimTransferred(a, b, c, n)@ == PoeEventView::ClaimTransferred(a, b, c@, n),
{
}

} // verus!
