//! A market of claims: a claim is held together with a price. Its owner may
//! remove it, hand it to another account or change its price; another
//! account may buy it by paying at least the price to the owner.

use vstd::prelude::*;
use crate::dispatch::{AccountId, Balance, BlockNumber, DispatchError, Origin, ensure_signed, signer};
use crate::table::ClaimTable;

verus! {

/// The market's own errors.
#[derive(Clone, Copy, PartialEq, Eq, Debug, Structural)]
pub enum MarketError {
    /// The claim is held already.
    ProofAlreadyExist,
    /// Nobody holds the claim.
    ProofNotExist,
    /// The caller does not own the claim.
    NotHavePermission,
    /// The claim is shorter than the configured minimum.
    CliamTooShort,
    /// The claim is longer than the configured maximum.
    CliamTooLong,
    /// The new price equals the current one.
    ProofPriceIsSame,
    /// The caller owns the claim that it tries to buy.
    YourOwnProofs,
    /// The offered price is below the claim's price.
    PriceTooLow,
}

/// Who holds a claim, since which block, and at which price.
#[derive(Clone, Copy, PartialEq, Eq, Debug, Structural)]
pub struct Listing {
    pub owner: AccountId,
    pub block_number: BlockNumber,
    pub price: Balance,
}

/// The bounds on a claim's length, both inclusive; a length is compared
/// after it is cut to 32 bits.
#[derive(Clone, Copy, PartialEq, Eq, Debug, Structural)]
pub struct MarketConfig {
    pub min_claim_length: u32,
    pub max_claim_length: u32,
}

/// A currency transfer that a purchase asks for.
#[derive(Clone, Copy, PartialEq, Eq, Debug, Structural)]
pub struct Payment {
    pub from: AccountId,
    pub to: AccountId,
    pub amount: Balance,
}

/// What a successful call reports.
#[derive(Clone, PartialEq, Eq, Debug)]
pub enum MarketEvent {
    /// The account claimed the bytes at the price.
    ClaimCreated(AccountId, Vec<u8>, Balance),
    /// The account removed the bytes.
    ClaimRemoved(AccountId, Vec<u8>),
    /// The first account handed the bytes, at the price, to the second.
    ClaimChanged(AccountId, Vec<u8>, AccountId, Balance),
    /// The account changed the price of the bytes from the first to the second.
    ClaimPriceUpdated(AccountId, Vec<u8>, Balance, Balance),
    /// The account bought the bytes, paying the price.
    ClaimBuySuccess(AccountId, Vec<u8>, Balance),
}

/// An event with its claim taken as a sequence of bytes.
pub enum MarketEventView {
    ClaimCreated(AccountId, Seq<u8>, Balance),
    ClaimRemoved(AccountId, Seq<u8>),
    ClaimChanged(AccountId, Seq<u8>, AccountId, Balance),
    ClaimPriceUpdated(AccountId, Seq<u8>, Balance, Balance),
    ClaimBuySuccess(AccountId, Seq<u8>, Balance),
}

impl View for MarketEvent {
    type V = MarketEventView;

    open spec fn view(&self) -> MarketEventView {
        match self {
            MarketEvent::ClaimCreated(who, c, p) => MarketEventView::ClaimCreated(*who, c@, *p),
            MarketEvent::ClaimRemoved(who, c) => MarketEventView::ClaimRemoved(*who, c@),
            MarketEvent::ClaimChanged(who, c, to, p) => MarketEventView::ClaimChanged(
                *who,
                c@,
                *to,
                *p,
            ),
            MarketEvent::ClaimPriceUpdated(who, c, old, new) => MarketEventView::ClaimPriceUpdated(
                *who,
                c@,
                *old,
                *new,
            ),
            MarketEvent::ClaimBuySuccess(who, c, p) => MarketEventView::ClaimBuySuccess(
                *who,
                c@,
                *p,
            ),
        }
    }
}

/// A result whose error is a dispatch error of the market.
pub type MarketResult<T> = Result<T, DispatchError<MarketError>>;

/// The error `e` of the market.
pub open spec fn market_err<T>(e: MarketError) -> MarketResult<T> {
    Err(DispatchError::Module(e))
}

/// What the market holds for `claim`.
pub open spec fn lookup(listings: Map<Seq<u8>, Listing>, claim: Seq<u8>) -> Option<Listing> {
    if listings.contains_key(claim) {
        Some(listings[claim])
    } else {
        None
    }
}

/// The outcome of claiming `claim` at `price` in block `now`: the listing
/// to store and the event to report.
pub open spec fn create_decision(
    config: MarketConfig,
    origin: Origin,
    claim: Seq<u8>,
    price: Balance,
    existing: Option<Listing>,
    now: BlockNumber,
) -> MarketResult<(Listing, MarketEventView)> {
    if (claim.len() as u32) < config.min_claim_length {
        market_err(MarketError::CliamTooShort)
    } else if (claim.len() as u32) > config.max_claim_length {
        market_err(MarketError::CliamTooLong)
    } else {
        match signer(origin) {
            None => Err(DispatchError::BadOrigin),
            Some(who) => if existing is Some {
                market_err(MarketError::ProofAlreadyExist)
            } else {
                Ok(
                    (
                        Listing { owner: who, block_number: now, price },
                        MarketEventView::ClaimCreated(who, claim, price),
                    ),
                )
            },
        }
    }
}

/// The outcome of removing `claim`: the event to report (the claim is
/// dropped).
pub open spec fn remove_decision(origin: Origin, claim: Seq<u8>, existing: Option<Listing>) -> MarketResult<
    MarketEventView,
> {
    match signer(origin) {
        None => Err(DispatchError::BadOrigin),
        Some(who) => match existing {
            None => market_err(MarketError::ProofNotExist),
            Some(l) => if l.owner != who {
                market_err(MarketError::NotHavePermission)
            } else {
                Ok(MarketEventView::ClaimRemoved(who, claim))
            },
        },
    }
}

/// The outcome of handing `claim` in block `now` to the account that the
/// receiver's address was looked up as (`None` where the lookup failed):
/// the listing to store and the event to report.
pub open spec fn transfer_decision(
    origin: Origin,
    claim: Seq<u8>,
    receiver: Option<AccountId>,
    existing: Option<Listing>,
    now: BlockNumber,
) -> MarketResult<(Listing, MarketEventView)> {
    match signer(origin) {
        None => Err(DispatchError::BadOrigin),
        Some(who) => match existing {
            None => market_err(MarketError::ProofNotExist),
            Some(l) => if l.owner != who {
                market_err(MarketError::NotHavePermission)
            } else {
                match receiver {
                    None => Err(DispatchError::CannotLookup),
                    Some(to) => Ok(
                        (
                            Listing { owner: to, block_number: now, price: l.price },
                            MarketEventView::ClaimChanged(who, claim, to, l.price),
                        ),
                    ),
                }
            },
        },
    }
}

/// The outcome of setting the price of `claim` to `price` in block `now`:
/// the listing to store and the event to report.
pub open spec fn price_decision(
    origin: Origin,
    claim: Seq<u8>,
    price: Balance,
    existing: Option<Listing>,
    now: BlockNumber,
) -> MarketResult<(Listing, MarketEventView)> {
    match signer(origin) {
        None => Err(DispatchError::BadOrigin),
        Some(who) => match existing {
            None => market_err(MarketError::ProofNotExist),
            Some(l) => if l.price == price {
                market_err(MarketError::ProofPriceIsSame)
            } else if l.owner != who {
                market_err(MarketError::NotHavePermission)
            } else {
                Ok(
                    (
                        Listing { owner: l.owner, block_number: now, price },
                        MarketEventView::ClaimPriceUpdated(who, claim, l.price, price),
                    ),
                )
            },
        },
    }
}

/// The outcome of buying `claim` for `price` in block `now`: the payment
/// to make, then, once it is made, the listing to store and the event to
/// report.
pub open spec fn buy_decision(
    origin: Origin,
    claim: Seq<u8>,
    price: Balance,
    existing: Option<Listing>,
    now: BlockNumber,
) -> MarketResult<(Payment, Listing, MarketEventView)> {
    match signer(origin) {
        None => Err(DispatchError::BadOrigin),
        Some(who) => match existing {
            None => market_err(MarketError::ProofNotExist),
            Some(l) => if l.owner == who {
                market_err(MarketError::YourOwnProofs)
            } else if price < l.price {
                market_err(MarketError::PriceTooLow)
            } else {
                Ok(
                    (
                        Payment { from: who, to: l.owner, amount: price },
                        Listing { owner: who, block_number: now, price: l.price },
                        MarketEventView::ClaimBuySuccess(who, claim, price),
                    ),
                )
            },
        },
    }
}

/// A decision with its event taken by its view.
pub open spec fn with_event_view(r: MarketResult<(Listing, MarketEvent)>) -> MarketResult<
    (Listing, MarketEventView),
> {
    match r {
        Ok((l, ev)) => Ok((l, ev@)),
        Err(e) => Err(e),
    }
}

/// Whether an exec result agrees with a decision on events.
pub open spec fn event_result_is(r: MarketResult<MarketEvent>, d: MarketResult<MarketEventView>) -> bool {
    match (r, d) {
        (Ok(ev), Ok(sev)) => ev@ == sev,
        (Err(e), Err(se)) => e == se,
        _ => false,
    }
}

/// The listing of `claim` where `who` owns it.
fn check_owner(who: AccountId, existing: Option<Listing>) -> (r: MarketResult<Listing>)
    ensures
        r == match existing {
            None => market_err(MarketError::ProofNotExist),
            Some(l) => if l.owner != who {
                market_err(MarketError::NotHavePermission)
            } else {
                Ok(l)
            },
        },
{
    match existing {
        None => Err(DispatchError::Module(MarketError::ProofNotExist)),
        Some(l) => {
            if l.owner != who {
                Err(DispatchError::Module(MarketError::NotHavePermission))
            } else {
                Ok(l)
            }
        },
    }
}

/// Decides a call that claims `claim` at `price` in block `now`, given what
/// the market holds for it; on success the caller stores the listing and
/// reports the event.
pub fn decide_create(
    config: MarketConfig,
    origin: Origin,
    claim: &Vec<u8>,
    price: Balance,
    existing: Option<Listing>,
    now: BlockNumber,
) -> (r: MarketResult<(Listing, MarketEvent)>)
    ensures
        with_event_view(r) == create_decision(config, origin, claim@, price, existing, now),
{
    let len: u32 = claim.len() as u32;
    if len < config.min_claim_length {
        return Err(DispatchError::Module(MarketError::CliamTooShort));
    }
    if len > config.max_claim_length {
        return Err(DispatchError::Module(MarketError::CliamTooLong));
    }
    let who: AccountId = ensure_signed(origin)?;
    if existing.is_some() {
        return Err(DispatchError::Module(MarketError::ProofAlreadyExist));
    }
    Ok(
        (
            Listing { owner: who, block_number: now, price },
            MarketEvent::ClaimCreated(who, claim.clone(), price),
        ),
    )
}

/// Decides a call that removes `claim`, given what the market holds for
/// it; on success the caller drops the claim and reports the event.
pub fn decide_remove(origin: Origin, claim: &Vec<u8>, existing: Option<Listing>) -> (r: MarketResult<
    MarketEvent,
>)
    ensures
        event_result_is(r, remove_decision(origin, claim@, existing)),
{
    let who: AccountId = ensure_signed(origin)?;
    let _l = check_owner(who, existing)?;
    Ok(MarketEvent::ClaimRemoved(who, claim.clone()))
}

/// Decides a call that hands `claim` in block `now` to the account that the
/// receiver's address was looked up as (`None` where the lookup failed),
/// given what the market holds for the claim; on success the caller
/// stores the listing and reports the event.
pub fn decide_transfer(
    origin: Origin,
    claim: &Vec<u8>,
    receiver: Option<AccountId>,
    existing: Option<Listing>,
    now: BlockNumber,
) -> (r: MarketResult<(Listing, MarketEvent)>)
    ensures
        with_event_view(r) == transfer_decision(origin, claim@, receiver, existing, now),
{
    let who: AccountId = ensure_signed(origin)?;
    let l = check_owner(who, existing)?;
    match receiver {
        None => Err(DispatchError::CannotLookup),
        Some(to) => Ok(
            (
                Listing { owner: to, block_number: now, price: l.price },
                MarketEvent::ClaimChanged(who, claim.clone(), to, l.price),
            ),
        ),
    }
}

/// Decides a call that sets the price of `claim` to `price` in block `now`,
/// given what the market holds for it; on success the caller stores the
/// listing and reports the event.
pub fn decide_update_price(
    origin: Origin,
    claim: &Vec<u8>,
    price: Balance,
    existing: Option<Listing>,
    now: BlockNumber,
) -> (r: MarketResult<(Listing, MarketEvent)>)
    ensures
        with_event_view(r) == price_decision(origin, claim@, price, existing, now),
{
    let who: AccountId = ensure_signed(origin)?;
    let l = match existing {
        None => {
            return Err(DispatchError::Module(MarketError::ProofNotExist));
        },
        Some(l) => l,
    };
    if l.price == price {
        return Err(DispatchError::Module(MarketError::ProofPriceIsSame));
    }
    if l.owner != who {
        return Err(DispatchError::Module(MarketError::NotHavePermission));
    }
    Ok(
        (
            Listing { owner: l.owner, block_number: now, price },
            MarketEvent::ClaimPriceUpdated(who, claim.clone(), l.price, price),
        ),
    )
}

/// Decides a call that buys `claim` for `price` in block `now`, given what
/// the market holds for it; on success the caller makes the payment and,
/// once it is made, stores the listing and reports the event.
pub fn decide_buy(
    origin: Origin,
    claim: &Vec<u8>,
    price: Balance,
    existing: Option<Listing>,
    now: BlockNumber,
) -> (r: MarketResult<(Payment, Listing, MarketEvent)>)
    ensures
        match (r, buy_decision(origin, claim@, price, existing, now)) {
            (Ok((pay, l, ev)), Ok((spay, sl, sev))) => pay == spay && l == sl && ev@ == sev,
            (Err(e), Err(se)) => e == se,
            _ => false,
        },
{
    let who: AccountId = ensure_signed(origin)?;
    let l = match existing {
        None => {
            return Err(DispatchError::Module(MarketError::ProofNotExist));
        },
        Some(l) => l,
    };
    if l.owner == who {
        return Err(DispatchError::Module(MarketError::YourOwnProofs));
    }
    if price < l.price {
        return Err(DispatchError::Module(MarketError::PriceTooLow));
    }
    Ok(
        (
            Payment { from: who, to: l.owner, amount: price },
            Listing { owner: who, block_number: now, price: l.price },
            MarketEvent::ClaimBuySuccess(who, claim.clone(), price),
        ),
    )
}

/// The weight of a purchase of a claim of `claim_len` bytes at `price`.
pub open spec fn buy_weight(claim_len: int, price: Balance) -> int {
    claim_len * 10 + price / 100 + 10_000
}

/// The weight of a purchase of a claim of `claim_len` bytes at `price`.
pub fn buy_claim_weight(claim_len: usize, price: Balance) -> (w: u64)
    requires
        buy_weight(claim_len as int, price) <= u64::MAX,
    ensures
        w == buy_weight(claim_len as int, price),
{
    (claim_len as u64) * 10 + price / 100 + 10_000
}

/// The market's state: its bounds, the listings it holds, and the events
/// reported so far.
pub struct MarketState {
    pub config: MarketConfig,
    pub listings: Map<Seq<u8>, Listing>,
    pub events: Seq<MarketEventView>,
}

impl MarketState {
    /// This state with `claim` listed as `l` and `ev` reported.
    pub open spec fn with_listing(self, claim: Seq<u8>, l: Listing, ev: MarketEventView) -> MarketState {
        MarketState {
            config: self.config,
            listings: self.listings.insert(claim, l),
            events: self.events.push(ev),
        }
    }

    /// The state after a call that claims `claim` at `price` in block `now`,
    /// with the call's result.
    pub open spec fn create_claim(self, origin: Origin, claim: Seq<u8>, price: Balance, now: BlockNumber) -> (
        MarketState,
        MarketResult<()>,
    ) {
        match create_decision(self.config, origin, claim, price, lookup(self.listings, claim), now) {
            Ok((l, ev)) => (self.with_listing(claim, l, ev), Ok(())),
            Err(e) => (self, Err(e)),
        }
    }

    /// The state after a call that removes `claim`, with the call's result.
    pub open spec fn remove_claim(self, origin: Origin, claim: Seq<u8>) -> (MarketState, MarketResult<()>) {
        match remove_decision(origin, claim, lookup(self.listings, claim)) {
            Ok(ev) => (
                MarketState {
                    config: self.config,
                    listings: self.listings.remove(claim),
                    events: self.events.push(ev),
                },
                Ok(()),
            ),
            Err(e) => (self, Err(e)),
        }
    }

    /// The state after a call that hands `claim` in block `now` to the
    /// looked-up `receiver`, with the call's result.
    pub open spec fn transfer_claim(
        self,
        origin: Origin,
        claim: Seq<u8>,
        receiver: Option<AccountId>,
        now: BlockNumber,
    ) -> (MarketState, MarketResult<()>) {
        match transfer_decision(origin, claim, receiver, lookup(self.listings, claim), now) {
            Ok((l, ev)) => (self.with_listing(claim, l, ev), Ok(())),
            Err(e) => (self, Err(e)),
        }
    }

    /// The state after a call that sets the price of `claim` to `price` in
    /// block `now`, with the call's result.
    pub open spec fn update_claim_price(
        self,
        origin: Origin,
        claim: Seq<u8>,
        price: Balance,
        now: BlockNumber,
    ) -> (MarketState, MarketResult<()>) {
        match price_decision(origin, claim, price, lookup(self.listings, claim), now) {
            Ok((l, ev)) => (self.with_listing(claim, l, ev), Ok(())),
            Err(e) => (self, Err(e)),
        }
    }

    /// The state after a call that buys `claim` for `price` in block `now`,
    /// where `paid` tells whether the payment asked for went through, with
    /// the call's result.
    pub open spec fn buy_claim(
        self,
        origin: Origin,
        claim: Seq<u8>,
        price: Balance,
        now: BlockNumber,
        paid: bool,
    ) -> (MarketState, MarketResult<()>) {
        match buy_decision(origin, claim, price, lookup(self.listings, claim), now) {
            Ok((_pay, l, ev)) => if paid {
                (self.with_listing(claim, l, ev), Ok(()))
            } else {
                (self, Err(DispatchError::Currency))
            },
            Err(e) => (self, Err(e)),
        }
    }

    /// Every listed claim has a length within the bounds.
    pub open spec fn claims_within_bounds(self) -> bool {
        forall|c: Seq<u8>|
            #[trigger] self.listings.contains_key(c) ==> self.config.min_claim_length <= (
            c.len() as u32) <= self.config.max_claim_length
    }
}

/// The market.
pub struct ClaimMarket {
    config: MarketConfig,
    listings: ClaimTable<Listing>,
    events: Vec<MarketEvent>,
}

impl View for ClaimMarket {
    type V = MarketState;

    closed spec fn view(&self) -> MarketState {
        MarketState {
            config: self.config,
            listings: self.listings@,
            events: self.events@.map_values(|e: MarketEvent| e@),
        }
    }
}

impl ClaimMarket {
    /// An empty market with the given bounds on a claim's length.
    pub fn new(min_claim_length: u32, max_claim_length: u32) -> (m: Self)
        ensures
            m@.config == (MarketConfig { min_claim_length, max_claim_length }),
            m@.listings == Map::<Seq<u8>, Listing>::empty(),
            m@.events == Seq::<MarketEventView>::empty(),
    {
        let m = ClaimMarket {
            config: MarketConfig { min_claim_length, max_claim_length },
            listings: ClaimTable::new(),
            events: Vec::new(),
        };
        assert(m@.events =~= Seq::<MarketEventView>::empty());
        m
    }

    /// The shortest claim allowed.
    pub fn min_claim_length(&self) -> (r: u32)
        ensures
            r == self@.config.min_claim_length,
    {
        self.config.min_claim_length
    }

    /// The longest claim allowed.
    pub fn max_claim_length(&self) -> (r: u32)
        ensures
            r == self@.config.max_claim_length,
    {
        self.config.max_claim_length
    }

    /// Who holds `claim`, since which block and at which price, if anybody
    /// holds it.
    pub fn proofs(&self, claim: &Vec<u8>) -> (r: Option<Listing>)
        ensures
            r == lookup(self@.listings, claim@),
    {
        self.listings.get(claim)
    }

    /// The events reported so far, oldest first.
    pub fn events(&self) -> (r: &Vec<MarketEvent>)
        ensures
            r@.map_values(|e: MarketEvent| e@) == self@.events,
    {
        &self.events
    }

    /// Lists `claim` as `l` and reports `ev`.
    fn store(&mut self, claim: Vec<u8>, l: Listing, ev: MarketEvent)
        ensures
            final(self)@ == old(self)@.with_listing(claim@, l, ev@),
    {
        let ghost before = self@;
        self.listings.insert(claim, l);
        self.events.push(ev);
        proof {
            assert(self@.events =~= before.events.push(ev@));
        }
    }

    /// Claims `claim` at `price` for the signed caller in block `now`.
    pub fn create_claim(&mut self, origin: Origin, claim: Vec<u8>, price: Balance, now: BlockNumber) -> (r:
        MarketResult<()>)
        ensures
            (final(self)@, r) == old(self)@.create_claim(origin, claim@, price, now),
    {
        let existing = self.listings.get(&claim);
        let (l, ev) = decide_create(self.config, origin, &claim, price, existing, now)?;
        self.store(claim, l, ev);
        Ok(())
    }

    /// Removes `claim`, which the signed caller owns.
    pub fn remove_claim(&mut self, origin: Origin, claim: Vec<u8>) -> (r: MarketResult<()>)
        ensures
            (final(self)@, r) == old(self)@.remove_claim(origin, claim@),
    {
        let existing = self.listings.get(&claim);
        let ev = decide_remove(origin, &claim, existing)?;
        let ghost before = self@;
        self.listings.remove(&claim);
        self.events.push(ev);
        proof {
            assert(self@.events =~= before.events.push(ev@));
        }
        Ok(())
    }

    /// Hands `claim`, which the signed caller owns, in block `now` to the
    /// account that the receiver's address was looked up as (`None` where
    /// the lookup failed).
    pub fn transfer_claim(
        &mut self,
        origin: Origin,
        claim: Vec<u8>,
        receiver: Option<AccountId>,
        now: BlockNumber,
    ) -> (r: MarketResult<()>)
        ensures
            (final(self)@, r) == old(self)@.transfer_claim(origin, claim@, receiver, now),
    {
        let existing = self.listings.get(&claim);
        let (l, ev) = decide_transfer(origin, &claim, receiver, existing, now)?;
        self.store(claim, l, ev);
        Ok(())
    }

    /// Sets the price of `claim`, which the signed caller owns, to `price`
    /// in block `now`.
    pub fn update_claim_price(
        &mut self,
        origin: Origin,
        claim: Vec<u8>,
        price: Balance,
        now: BlockNumber,
    ) -> (r: MarketResult<()>)
        ensures
            (final(self)@, r) == old(self)@.update_claim_price(origin, claim@, price, now),
    {
        let existing = self.listings.get(&claim);
        let (l, ev) = decide_update_price(origin, &claim, price, existing, now)?;
        self.store(claim, l, ev);
        Ok(())
    }

    /// Buys `claim` for the signed caller at `price` in block `now`, where
    /// `paid` tells whether the currency transfer of `price` from the
    /// caller to the owner went through; a refused transfer fails the call
    /// with `Currency`.
    pub fn buy_claim(
        &mut self,
        origin: Origin,
        claim: Vec<u8>,
        price: Balance,
        now: BlockNumber,
        paid: bool,
    ) -> (r: MarketResult<()>)
        ensures
            (final(self)@, r) == old(self)@.buy_claim(origin, claim@, price, now, paid),
    {
        let existing = self.listings.get(&claim);
        let (_payment, l, ev) = decide_buy(origin, &claim, price, existing, now)?;
        if !paid {
            return Err(DispatchError::Currency);
        }
        self.store(claim, l, ev);
        Ok(())
    }
}

/// A signed caller who claims a free claim whose length is within the
/// bounds succeeds and holds it from block `now` on at `price`.
pub proof fn law_create_then_read(
    s: MarketState,
    who: AccountId,
    claim: Seq<u8>,
    price: Balance,
    now: BlockNumber,
)
    requires
        s.config.min_claim_length <= (claim.len() as u32) <= s.config.max_claim_length,
        !s.listings.contains_key(claim),
    ensures
        s.create_claim(Origin::Signed(who), claim, price, now).1 is Ok,
        lookup(s.create_claim(Origin::Signed(who), claim, price, now).0.listings, claim) == Some(
            Listing { owner: who, block_number: now, price },
        ),
        s.create_claim(Origin::Signed(who), claim, price, now).0.events == s.events.push(
            MarketEventView::ClaimCreated(who, claim, price),
        ),
{
}

/// A claim that is held already cannot be claimed again.
pub proof fn law_held_claim_refused(
    s: MarketState,
    who: AccountId,
    claim: Seq<u8>,
    price: Balance,
    now: BlockNumber,
)
    requires
        s.config.min_claim_length <= (claim.len() as u32) <= s.config.max_claim_length,
        s.listings.contains_key(claim),
    ensures
        s.create_claim(Origin::Signed(who), claim, price, now) == (
            s,
            market_err::<()>(MarketError::ProofAlreadyExist),
        ),
{
}

/// Removing a claim right after creating it restores the listings held
/// before.
pub proof fn law_remove_undoes_create(
    s: MarketState,
    who: AccountId,
    claim: Seq<u8>,
    price: Balance,
    now: BlockNumber,
)
    requires
        s.create_claim(Origin::Signed(who), claim, price, now).1 is Ok,
    ensures
        s.create_claim(Origin::Signed(who), claim, price, now).0.remove_claim(
            Origin::Signed(who),
            claim,
        ).1 is Ok,
        s.create_claim(Origin::Signed(who), claim, price, now).0.remove_claim(
            Origin::Signed(who),
            claim,
        ).0.listings == s.listings,
{
    let t = s.create_claim(Origin::Signed(who), claim, price, now).0;
    assert(t.listings.remove(claim) =~= s.listings);
}

/// Only the owner may remove a claim, hand it on or change its price to a
/// new one; another signed account is refused with `NotHavePermission`.
pub proof fn law_only_owner_acts(
    s: MarketState,
    who: AccountId,
    claim: Seq<u8>,
    receiver: Option<AccountId>,
    price: Balance,
    now: BlockNumber,
)
    requires
        s.listings.contains_key(claim),
        s.listings[claim].owner != who,
        s.listings[claim].price != price,
    ensures
        s.remove_claim(Origin::Signed(who), claim) == (s, market_err::<()>(MarketError::NotHavePermission)),
        s.transfer_claim(Origin::Signed(who), claim, receiver, now) == (
            s,
            market_err::<()>(MarketError::NotHavePermission),
        ),
        s.update_claim_price(Origin::Signed(who), claim, price, now) == (
            s,
            market_err::<()>(MarketError::NotHavePermission),
        ),
{
}

/// The owner who hands a claim to a looked-up account succeeds; the
/// receiver then holds it from block `now` on at the same price. Where the
/// lookup failed, the call fails with `CannotLookup` and changes nothing.
pub proof fn law_transfer_hands_over(
    s: MarketState,
    who: AccountId,
    claim: Seq<u8>,
    receiver: Option<AccountId>,
    now: BlockNumber,
)
    requires
        s.listings.contains_key(claim),
        s.listings[claim].owner == who,
    ensures
        receiver is None ==> s.transfer_claim(Origin::Signed(who), claim, receiver, now) == (
            s,
            Err::<(), DispatchError<MarketError>>(DispatchError::CannotLookup),
        ),
        receiver is Some ==> s.transfer_claim(Origin::Signed(who), claim, receiver, now).1 is Ok,
        receiver is Some ==> s.transfer_claim(Origin::Signed(who), claim, receiver, now).0.listings
            == s.listings.insert(
            claim,
            Listing { owner: receiver->0, block_number: now, price: s.listings[claim].price },
        ),
        receiver is Some ==> s.transfer_claim(Origin::Signed(who), claim, receiver, now).0.events
            == s.events.push(
            MarketEventView::ClaimChanged(who, claim, receiver->0, s.listings[claim].price),
        ),
{
}

/// The owner who sets a new price succeeds and the price is read back;
/// setting the current price again is refused with `ProofPriceIsSame`,
/// whoever asks.
pub proof fn law_update_price(
    s: MarketState,
    who: AccountId,
    claim: Seq<u8>,
    price: Balance,
    now: BlockNumber,
)
    requires
        s.listings.contains_key(claim),
    ensures
        s.listings[claim].price == price ==> s.update_claim_price(Origin::Signed(who), claim, price, now)
            == (s, market_err::<()>(MarketError::ProofPriceIsSame)),
        (s.listings[claim].price != price && s.listings[claim].owner == who) ==> s.update_claim_price(
            Origin::Signed(who),
            claim,
            price,
            now,
        ).1 is Ok,
        (s.listings[claim].price != price && s.listings[claim].owner == who) ==> lookup(
            s.update_claim_price(Origin::Signed(who), claim, price, now).0.listings,
            claim,
        ) == Some(Listing { owner: who, block_number: now, price }),
        (s.listings[claim].price != price && s.listings[claim].owner == who) ==> s.update_claim_price(
            Origin::Signed(who),
            claim,
            price,
            now,
        ).0.events == s.events.push(
            MarketEventView::ClaimPriceUpdated(who, claim, s.listings[claim].price, price),
        ),
{
}

/// The owner who removes a claim succeeds; the claim is no longer listed,
/// no other listing changes, and one event names the owner and the claim.
pub proof fn law_remove_by_owner(s: MarketState, who: AccountId, claim: Seq<u8>)
    requires
        s.listings.contains_key(claim),
        s.listings[claim].owner == who,
    ensures
        s.remove_claim(Origin::Signed(who), claim).1 is Ok,
        s.remove_claim(Origin::Signed(who), claim).0.listings == s.listings.remove(claim),
        s.remove_claim(Origin::Signed(who), claim).0.events == s.events.push(
            MarketEventView::ClaimRemoved(who, claim),
        ),
{
}

/// Another account that offers at least the price, and whose payment to
/// the owner goes through, buys the claim and holds it from block `now` on
/// at the same price; the payment asked for is the offer, from the buyer
/// to the owner.
pub proof fn law_buy_hands_over(
    s: MarketState,
    who: AccountId,
    claim: Seq<u8>,
    price: Balance,
    now: BlockNumber,
)
    requires
        s.listings.contains_key(claim),
        s.listings[claim].owner != who,
        s.listings[claim].price <= price,
    ensures
        s.buy_claim(Origin::Signed(who), claim, price, now, true).1 is Ok,
        s.buy_claim(Origin::Signed(who), claim, price, now, true).0.listings == s.listings.insert(
            claim,
            Listing { owner: who, block_number: now, price: s.listings[claim].price },
        ),
        buy_decision(Origin::Signed(who), claim, price, lookup(s.listings, claim), now)->Ok_0.0 == (
        Payment { from: who, to: s.listings[claim].owner, amount: price }),
        s.buy_claim(Origin::Signed(who), claim, price, now, false) == (
            s,
            Err::<(), DispatchError<MarketError>>(DispatchError::Currency),
        ),
        s.buy_claim(Origin::Signed(who), claim, price, now, true).0.events == s.events.push(
            MarketEventView::ClaimBuySuccess(
                who,
                claim,
                price,
            ),
        ),
{
}

/// The owner cannot buy its own claim, and nobody can buy below the price.
pub proof fn law_buy_refused(
    s: MarketState,
    who: AccountId,
    claim: Seq<u8>,
    price: Balance,
    now: BlockNumber,
    paid: bool,
)
    requires
        s.listings.contains_key(claim),
    ensures
        s.listings[claim].owner == who ==> s.buy_claim(Origin::Signed(who), claim, price, now, paid)
            == (s, market_err::<()>(MarketError::YourOwnProofs)),
        (s.listings[claim].owner != who && price < s.listings[claim].price) ==> s.buy_claim(
            Origin::Signed(who),
            claim,
            price,
            now,
            paid,
        ) == (s, market_err::<()>(MarketError::PriceTooLow)),
{
}

/// Calls from the root or from nobody are refused with `BadOrigin` and
/// change nothing; a claim's length is checked before its origin, so this
/// holds of a claim only where its length is within the bounds.
pub proof fn law_unsigned_refused(
    s: MarketState,
    origin: Origin,
    claim: Seq<u8>,
    price: Balance,
    receiver: Option<AccountId>,
    now: BlockNumber,
    paid: bool,
)
    requires
        signer(origin) is None,
        s.config.min_claim_length <= (claim.len() as u32) <= s.config.max_claim_length,
    ensures
        s.create_claim(origin, claim, price, now) == (
            s,
            Err::<(), DispatchError<MarketError>>(DispatchError::BadOrigin),
        ),
        s.remove_claim(origin, claim) == (s, Err::<(), DispatchError<MarketError>>(DispatchError::BadOrigin)),
        s.transfer_claim(origin, claim, receiver, now) == (
            s,
            Err::<(), DispatchError<MarketError>>(DispatchError::BadOrigin),
        ),
        s.update_claim_price(origin, claim, price, now) == (
            s,
            Err::<(), DispatchError<MarketError>>(DispatchError::BadOrigin),
        ),
        s.buy_claim(origin, claim, price, now, paid) == (
            s,
            Err::<(), DispatchError<MarketError>>(DispatchError::BadOrigin),
        ),
{
}

/// A call that fails leaves the market as it was, events included; a call
/// that succeeds reports exactly one event after those reported before.
pub proof fn law_calls_are_atomic(
    s: MarketState,
    origin: Origin,
    claim: Seq<u8>,
    price: Balance,
    receiver: Option<AccountId>,
    now: BlockNumber,
    paid: bool,
)
    ensures
        s.create_claim(origin, claim, price, now).1 is Err ==> s.create_claim(origin, claim, price, now).0 == s,
        s.remove_claim(origin, claim).1 is Err ==> s.remove_claim(origin, claim).0 == s,
        s.transfer_claim(origin, claim, receiver, now).1 is Err ==> s.transfer_claim(
            origin,
            claim,
            receiver,
            now,
        ).0 == s,
        s.update_claim_price(origin, claim, price, now).1 is Err ==> s.update_claim_price(
            origin,
            claim,
            price,
            now,
        ).0 == s,
        s.buy_claim(origin, claim, price, now, paid).1 is Err ==> s.buy_claim(
            origin,
            claim,
            price,
            now,
            paid,
        ).0 == s,
        s.create_claim(origin, claim, price, now).1 is Ok ==> s.create_claim(origin, claim, price, now).0.events
            == s.events.push(s.create_claim(origin, claim, price, now).0.events.last()),
        s.remove_claim(origin, claim).1 is Ok ==> s.remove_claim(origin, claim).0.events == s.events.push(
            s.remove_claim(origin, claim).0.events.last(),
        ),
        s.transfer_claim(origin, claim, receiver, now).1 is Ok ==> s.transfer_claim(
            origin,
            claim,
            receiver,
            now,
        ).0.events == s.events.push(s.transfer_claim(origin, claim, receiver, now).0.events.last()),
        s.update_claim_price(origin, claim, price, now).1 is Ok ==> s.update_claim_price(
            origin,
            claim,
            price,
            now,
        ).0.events == s.events.push(s.update_claim_price(origin, claim, price, now).0.events.last()),
        s.buy_claim(origin, claim, price, now, paid).1 is Ok ==> s.buy_claim(
            origin,
            claim,
            price,
            now,
            paid,
        ).0.events == s.events.push(s.buy_claim(origin, claim, price, now, paid).0.events.last()),
{
}

/// Every call keeps each listed claim's length within the bounds, keeps the
/// bounds, and only creation and removal change which claims are listed.
pub proof fn law_bounds_kept(
    s: MarketState,
    origin: Origin,
    claim: Seq<u8>,
    price: Balance,
    receiver: Option<AccountId>,
    now: BlockNumber,
    paid: bool,
)
    requires
        s.claims_within_bounds(),
    ensures
        s.create_claim(origin, claim, price, now).0.claims_within_bounds(),
        s.remove_claim(origin, claim).0.claims_within_bounds(),
        s.transfer_claim(origin, claim, receiver, now).0.claims_within_bounds(),
        s.update_claim_price(origin, claim, price, now).0.claims_within_bounds(),
        s.buy_claim(origin, claim, price, now, paid).0.claims_within_bounds(),
        s.transfer_claim(origin, claim, receiver, now).0.listings.dom() == s.listings.dom(),
        s.update_claim_price(origin, claim, price, now).0.listings.dom() == s.listings.dom(),
        s.buy_claim(origin, claim, price, now, paid).0.listings.dom() == s.listings.dom(),
{
    assert(s.transfer_claim(origin, claim, receiver, now).0.listings.dom() =~= s.listings.dom());
    assert(s.update_claim_price(origin, claim, price, now).0.listings.dom() =~= s.listings.dom());
    assert(s.buy_claim(origin, claim, price, now, paid).0.listings.dom() =~= s.listings.dom());
}

/// A claim whose length, cut to 32 bits, is below the minimum is refused
/// with `CliamTooShort`, and one above the maximum with `CliamTooLong`,
/// whoever asks; nothing changes.
pub proof fn law_length_checked_first(
    s: MarketState,
    origin: Origin,
    claim: Seq<u8>,
    price: Balance,
    now: BlockNumber,
)
    ensures
        (claim.len() as u32) < s.config.min_claim_length ==> s.create_claim(origin, claim, price, now) == (
            s,
            market_err::<()>(MarketError::CliamTooShort),
        ),
        (s.config.min_claim_length <= (claim.len() as u32) && (claim.len() as u32)
            > s.config.max_claim_length) ==> s.create_claim(origin, claim, price, now) == (
            s,
            market_err::<()>(MarketError::CliamTooLong),
        ),
{
}

/// A claim that nobody holds can be neither removed, handed on, repriced
/// nor bought.
pub proof fn law_missing_claim_refused(
    s: MarketState,
    who: AccountId,
    claim: Seq<u8>,
    price: Balance,
    receiver: Option<AccountId>,
    now: BlockNumber,
    paid: bool,
)
    requires
        !s.listings.contains_key(claim),
    ensures
        s.remove_claim(Origin::Signed(who), claim) == (s, market_err::<()>(MarketError::ProofNotExist)),
        s.transfer_claim(Origin::Signed(who), claim, receiver, now) == (
            s,
            market_err::<()>(MarketError::ProofNotExist),
        ),
        s.update_claim_price(Origin::Signed(who), claim, price, now) == (
            s,
            market_err::<()>(MarketError::ProofNotExist),
        ),
        s.buy_claim(Origin::Signed(who), claim, price, now, paid) == (
            s,
            market_err::<()>(MarketError::ProofNotExist),
        ),
{
}

/// A purchase weighs 10,000, plus 10 for each byte of the claim, plus one
/// for each full hundred of the price.
pub proof fn law_buy_weight(claim_len: int, price: Balance)
    ensures
        buy_weight(0, 0) == 10_000,
        buy_weight(claim_len + 1int, price) == buy_weight(claim_len, price) + 10,
        price + 100 <= u64::MAX ==> buy_weight(claim_len, (price + 100) as u64) == buy_weight(
            claim_len,
            price,
        ) + 1,
        (price < u64::MAX && price % 100 != 99) ==> buy_weight(claim_len, (price + 1) as u64)
            == buy_weight(claim_len, price),
{
    let p: int = price as int;
    assert(p >= 0 && p % 100 != 99 ==> (p + 1) / 100 == p / 100) by (nonlinear_arith);
    assert(p >= 0 ==> (p + 100) / 100 == p / 100 + 1) by (nonlinear_arith);
}

/// An event's view keeps each field in its place.
pub proof fn law_event_view_keeps_fields(a: AccountId, b: AccountId, c: Vec<u8>, p: Balance, q: Balance)
    ensures
        MarketEvent::ClaimCreated(a, c, p)@ == MarketEventView::ClaimCreated(a, c@, p),
        MarketEvent::ClaimRemoved(a, c)@ == MarketEventView::ClaimRemoved(a, c@),
        MarketEvent::ClaimChanged(a, c, b, p)@ == MarketEventView::ClaimChanged(a, c@, b, p),
        MarketEvent::ClaimPriceUpdated(a, c, p, q)@ == MarketEventView::ClaimPriceUpdated(a, c@, p, q),
        MarketEvent::ClaimBuySuccess(a, c, p)@ == MarketEventView::ClaimBuySuccess(a, c@, p),
{
}

} // verus!
