use poe::dispatch::{DispatchError, Origin, CALL_WEIGHT};
use poe::market::{buy_claim_weight, decide_buy, ClaimMarket, Listing, MarketError, MarketEvent, Payment};

fn market() -> ClaimMarket {
    ClaimMarket::new(1, 512)
}

fn module_err(e: MarketError) -> Result<(), DispatchError<MarketError>> {
    Err(DispatchError::Module(e))
}

fn listing(owner: u64, block_number: u64, price: u64) -> Option<Listing> {
    Some(Listing { owner, block_number, price })
}

#[test]
fn market_create_then_read() {
    let mut m = market();
    let claim = vec![1u8, 1];
    assert_eq!(m.create_claim(Origin::Signed(555), claim.clone(), 2244, 1), Ok(()));
    assert_eq!(m.proofs(&claim), listing(555, 1, 2244));
    assert_eq!(m.events().clone(), vec![MarketEvent::ClaimCreated(555, claim.clone(), 2244)]);
    assert_eq!(m.create_claim(Origin::Signed(3), claim.clone(), 1, 2), module_err(MarketError::ProofAlreadyExist));
    assert_eq!(m.proofs(&claim), listing(555, 1, 2244));
    assert_eq!(m.events().len(), 1);
}

#[test]
fn market_length_checked_before_origin() {
    let mut m = ClaimMarket::new(2, 3);
    assert_eq!(m.min_claim_length(), 2);
    assert_eq!(m.max_claim_length(), 3);
    assert_eq!(m.create_claim(Origin::Root, vec![1], 0, 1), module_err(MarketError::CliamTooShort));
    assert_eq!(m.create_claim(Origin::Unsigned, vec![1, 2, 3, 4], 0, 1), module_err(MarketError::CliamTooLong));
    assert_eq!(m.create_claim(Origin::Root, vec![1, 2], 0, 1), Err(DispatchError::BadOrigin));
    assert_eq!(m.create_claim(Origin::Signed(1), vec![1, 2, 3], 0, 1), Ok(()));
    assert!(m.events().len() == 1);
}

#[test]
fn market_remove_undoes_create() {
    let mut m = market();
    let claim = vec![7u8];
    assert_eq!(m.create_claim(Origin::Signed(1), claim.clone(), 10, 1), Ok(()));
    assert_eq!(m.remove_claim(Origin::Signed(2), claim.clone()), module_err(MarketError::NotHavePermission));
    assert_eq!(m.remove_claim(Origin::Root, claim.clone()), Err(DispatchError::BadOrigin));
    assert_eq!(m.remove_claim(Origin::Signed(1), claim.clone()), Ok(()));
    assert_eq!(m.proofs(&claim), None);
    assert_eq!(m.remove_claim(Origin::Signed(1), claim.clone()), module_err(MarketError::ProofNotExist));
    assert_eq!(m.events()[1], MarketEvent::ClaimRemoved(1, claim));
}

#[test]
fn market_transfer_hands_over() {
    let mut m = market();
    let claim = vec![4u8, 2];
    assert_eq!(m.create_claim(Origin::Signed(1), claim.clone(), 50, 1), Ok(()));
    assert_eq!(m.transfer_claim(Origin::Signed(2), claim.clone(), Some(3), 2), module_err(MarketError::NotHavePermission));
    assert_eq!(m.transfer_claim(Origin::Signed(1), claim.clone(), None, 2), Err(DispatchError::CannotLookup));
    assert_eq!(m.proofs(&claim), listing(1, 1, 50));
    assert_eq!(m.transfer_claim(Origin::Signed(1), claim.clone(), Some(3), 2), Ok(()));
    assert_eq!(m.proofs(&claim), listing(3, 2, 50));
    assert_eq!(m.events()[1], MarketEvent::ClaimChanged(1, claim.clone(), 3, 50));
    assert_eq!(m.transfer_claim(Origin::Signed(1), vec![9u8], Some(3), 2), module_err(MarketError::ProofNotExist));
}

#[test]
fn market_update_price() {
    let mut m = market();
    let claim = vec![4u8, 2];
    assert_eq!(m.create_claim(Origin::Signed(1), claim.clone(), 50, 1), Ok(()));
    assert_eq!(m.update_claim_price(Origin::Signed(2), claim.clone(), 50, 3), module_err(MarketError::ProofPriceIsSame));
    assert_eq!(m.update_claim_price(Origin::Signed(2), claim.clone(), 60, 3), module_err(MarketError::NotHavePermission));
    assert_eq!(m.update_claim_price(Origin::Signed(1), claim.clone(), 50, 3), module_err(MarketError::ProofPriceIsSame));
    assert_eq!(m.update_claim_price(Origin::Signed(1), claim.clone(), 60, 3), Ok(()));
    assert_eq!(m.proofs(&claim), listing(1, 3, 60));
    assert_eq!(m.events()[1], MarketEvent::ClaimPriceUpdated(1, claim, 50, 60));
}

#[test]
fn market_buy() {
    let mut m = market();
    let claim = vec![1u8, 1];
    assert_eq!(m.create_claim(Origin::Signed(555), claim.clone(), 2244, 1), Ok(()));
    assert_eq!(m.buy_claim(Origin::Signed(3), vec![8, 8, 8], 2241, 2, true), module_err(MarketError::ProofNotExist));
    assert_eq!(m.buy_claim(Origin::Signed(555), claim.clone(), 2244, 2, true), module_err(MarketError::YourOwnProofs));
    assert_eq!(m.buy_claim(Origin::Signed(3), claim.clone(), 2241, 2, true), module_err(MarketError::PriceTooLow));
    assert_eq!(m.buy_claim(Origin::Signed(3), claim.clone(), 22411, 2, false), Err(DispatchError::Currency));
    assert_eq!(m.buy_claim(Origin::Unsigned, claim.clone(), 22411, 2, true), Err(DispatchError::BadOrigin));
    assert_eq!(m.proofs(&claim), listing(555, 1, 2244));
    assert_eq!(m.events().len(), 1);
    assert_eq!(m.buy_claim(Origin::Signed(3), claim.clone(), 22411, 2, true), Ok(()));
    assert_eq!(m.proofs(&claim), listing(3, 2, 2244));
    assert_eq!(m.events()[1], MarketEvent::ClaimBuySuccess(3, claim, 22411));
}

#[test]
fn market_buy_asks_payment_to_owner() {
    let claim = vec![1u8, 1];
    let r = decide_buy(Origin::Signed(3), &claim, 2244, listing(555, 1, 2244), 7);
    assert_eq!(
        r,
        Ok((
            Payment { from: 3, to: 555, amount: 2244 },
            Listing { owner: 3, block_number: 7, price: 2244 },
            MarketEvent::ClaimBuySuccess(3, claim, 2244),
        ))
    );
}

#[test]
fn market_buy_weight() {
    assert_eq!(buy_claim_weight(0, 0), 10_000);
    assert_eq!(buy_claim_weight(3, 2244), 30 + 22 + 10_000);
    assert_eq!(buy_claim_weight(100, 199), 1_000 + 1 + 10_000);
    assert_eq!(CALL_WEIGHT, 10_000);
}
