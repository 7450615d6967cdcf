//! A store for one optional number: signed accounts may set it, and may
//! increment it by one.

use vstd::prelude::*;
use crate::dispatch::{AccountId, DispatchError, Origin, ensure_signed, signer};

verus! {

/// The store's own errors.
#[derive(Clone, Copy, PartialEq, Eq, Debug, Structural)]
pub enum SomethingError {
    /// Nothing is stored yet.
    NoneValue,
    /// The stored number is already the largest that fits.
    StorageOverflow,
}

/// What a successful call reports.
#[derive(Clone, Copy, PartialEq, Eq, Debug, Structural)]
pub enum SomethingEvent {
    /// The number was stored by the account.
    SomethingStored(u32, AccountId),
}

/// What a call leaves in the store and reports, or why it failed.
pub type SomethingResult<T> = Result<T, DispatchError<SomethingError>>;

/// The outcome of storing `something`: the event to report.
pub open spec fn store_decision(origin: Origin, something: u32) -> SomethingResult<SomethingEvent> {
    match signer(origin) {
        None => Err(DispatchError::BadOrigin),
        Some(who) => Ok(SomethingEvent::SomethingStored(something, who)),
    }
}

/// The outcome of incrementing the stored number: the number to store.
pub open spec fn increment_decision(origin: Origin, current: Option<u32>) -> SomethingResult<u32> {
    match signer(origin) {
        None => Err(DispatchError::BadOrigin),
        Some(_) => match current {
            None => Err(DispatchError::Module(SomethingError::NoneValue)),
            Some(old) => if old == u32::MAX {
                Err(DispatchError::Module(SomethingError::StorageOverflow))
            } else {
                Ok((old + 1) as u32)
            },
        },
    }
}

/// Decides a call that stores `something`; on success the caller stores it
/// and reports the event.
pub fn decide_do_something(origin: Origin, something: u32) -> (r: SomethingResult<SomethingEvent>)
    ensures
        r == store_decision(origin, something),
{
    let who: AccountId = ensure_signed(origin)?;
    Ok(SomethingEvent::SomethingStored(something, who))
}

/// Decides a call that increments the stored number `current`; on success
/// the caller stores the number returned.
pub fn decide_cause_error(origin: Origin, current: Option<u32>) -> (r: SomethingResult<u32>)
    ensures
        r == increment_decision(origin, current),
{
    let _who: AccountId = ensure_signed(origin)?;
    match current {
        None => Err(DispatchError::Module(SomethingError::NoneValue)),
        Some(old) => match old.checked_add(1) {
            None => Err(DispatchError::Module(SomethingError::StorageOverflow)),
            Some(new) => Ok(new),
        },
    }
}

/// The store's state: the number, and the events reported so far.
pub struct SomethingState {
    pub value: Option<u32>,
    pub events: Seq<SomethingEvent>,
}

impl SomethingState {
    /// The state after a call that stores `something`, with the call's result.
    pub open spec fn do_something(self, origin: Origin, something: u32) -> (
        SomethingState,
        SomethingResult<()>,
    ) {
        match store_decision(origin, something) {
            Ok(ev) => (SomethingState { value: Some(something), events: self.events.push(ev) }, Ok(())),
            Err(e) => (self, Err(e)),
        }
    }

    /// The state after a call that increments the number, with the call's result.
    pub open spec fn cause_error(self, origin: Origin) -> (SomethingState, SomethingResult<()>) {
        match increment_decision(origin, self.value) {
            Ok(new) => (SomethingState { value: Some(new), events: self.events }, Ok(())),
            Err(e) => (self, Err(e)),
        }
    }
}

/// The store.
pub struct SomethingStore {
    value: Option<u32>,
    events: Vec<SomethingEvent>,
}

impl View for SomethingStore {
    type V = SomethingState;

    closed spec fn view(&self) -> SomethingState {
        SomethingState { value: self.value, events: self.events@ }
    }
}

impl SomethingStore {
    /// An empty store with no events.
    pub fn new() -> (s: Self)
        ensures
            s@.value is None,
            s@.events == Seq::<SomethingEvent>::empty(),
    {
        SomethingStore { value: None, events: Vec::new() }
    }

    /// Stores `something` for a signed caller and reports it.
    pub fn do_something(&mut self, origin: Origin, something: u32) -> (r: SomethingResult<()>)
        ensures
            (final(self)@, r) == old(self)@.do_something(origin, something),
    {
        let ev = decide_do_something(origin, something)?;
        self.value = Some(something);
        self.events.push(ev);
        Ok(())
    }

    /// Increments the stored number for a signed caller.
    pub fn cause_error(&mut self, origin: Origin) -> (r: SomethingResult<()>)
        ensures
            (final(self)@, r) == old(self)@.cause_error(origin),
    {
        let new: u32 = decide_cause_error(origin, self.value)?;
        self.value = Some(new);
        Ok(())
    }

    /// The stored number.
    pub fn something(&self) -> (r: Option<u32>)
        ensures
            r == self@.value,
    {
        self.value
    }

    /// The events reported so far, oldest first.
    pub fn events(&self) -> (r: &Vec<SomethingEvent>)
        ensures
            r@ == self@.events,
    {
        &self.events
    }
}

/// A signed caller who stores a number succeeds; the number is then read
/// back, and one event names it and the caller.
pub proof fn law_store_then_read(s: SomethingState, who: AccountId, something: u32)
    ensures
        s.do_something(Origin::Signed(who), something).1 is Ok,
        s.do_something(Origin::Signed(who), something).0.value == Some(something),
        s.do_something(Origin::Signed(who), something).0.events == s.events.push(
            SomethingEvent::SomethingStored(something, who),
        ),
{
}

/// Incrementing adds one to the stored number; it fails with `NoneValue`
/// where nothing is stored and with `StorageOverflow` at the largest
/// number, and then changes nothing.
pub proof fn law_increment_adds_one(s: SomethingState, who: AccountId)
    ensures
        s.value is None ==> s.cause_error(Origin::Signed(who)) == (
            s,
            Err::<(), DispatchError<SomethingError>>(DispatchError::Module(SomethingError::NoneValue)),
        ),
        s.value == Some(u32::MAX) ==> s.cause_error(Origin::Signed(who)) == (
            s,
            Err::<(), DispatchError<SomethingError>>(
                DispatchError::Module(SomethingError::StorageOverflow),
            ),
        ),
        (s.value is Some && s.value->0 < u32::MAX) ==> s.cause_error(Origin::Signed(who)) == (
            SomethingState { value: Some((s.value->0 + 1) as u32), events: s.events },
            Ok::<(), DispatchError<SomethingError>>(()),
        ),
{
}

/// Calls from the root or from nobody are refused with `BadOrigin` and
/// change nothing.
pub proof fn law_unsigned_refused(s: SomethingState, origin: Origin, something: u32)
    requires
        signer(origin) is None,
    ensures
        s.do_something(origin, something) == (
            s,
            Err::<(), DispatchError<SomethingError>>(DispatchError::BadOrigin),
        ),
        s.cause_error(origin) == (s, Err::<(), DispatchError<SomethingError>>(DispatchError::BadOrigin)),
{
}

} // verus!
