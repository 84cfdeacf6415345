//! The minting bookkeeping: payments, purchase counts, authentication and
//! instance counting, plus the deterministic arithmetic helpers.

use orbital_art::collection::{
    AlkaneId, AlkaneTransfer, MintError, PaymentToken, RoyaltyNFTCollection,
};
use orbital_art::digits::{fmt_u128, fmt_u64};
use orbital_art::trig::{cos_milli, sin_milli};

fn frbtc(value: u128) -> AlkaneTransfer {
    AlkaneTransfer { id: PaymentToken::FrBTC.get_id(), value }
}

fn stranger(value: u128) -> AlkaneTransfer {
    AlkaneTransfer { id: AlkaneId { block: 9, tx: 9 }, value }
}

#[test]
fn payment_token_prices() {
    assert_eq!(PaymentToken::FrBTC.get_price_per_mint(), 10000);
    assert_eq!(PaymentToken::BUSD.get_price_per_mint(), 1000000);
}

#[test]
fn payment_token_from_id() {
    let id = AlkaneId { block: 0, tx: 0 };
    assert_eq!(PaymentToken::from_alkane_id(&id), Some(PaymentToken::FrBTC));
    assert_eq!(PaymentToken::from_alkane_id(&AlkaneId { block: 9, tx: 9 }), None);
}

#[test]
fn verify_payment_sums_matching_transfers() {
    let c = RoyaltyNFTCollection::new();
    let transfers = vec![frbtc(4000), stranger(100000), frbtc(6000)];
    assert_eq!(c.verify_payment(&transfers, 10000, PaymentToken::FrBTC), Ok(()));
    assert_eq!(
        c.verify_payment(&transfers, 10001, PaymentToken::FrBTC),
        Err(MintError::InsufficientPayment)
    );
}

#[test]
fn purchase_count_caps_at_three() {
    let c = RoyaltyNFTCollection::new();
    assert_eq!(c.calculate_purchase_count(&vec![frbtc(10000)]), Ok(1));
    assert_eq!(c.calculate_purchase_count(&vec![frbtc(25000)]), Ok(2));
    assert_eq!(c.calculate_purchase_count(&vec![frbtc(99999999)]), Ok(3));
    assert_eq!(c.calculate_purchase_count(&vec![frbtc(10000), frbtc(20000)]), Ok(3));
}

#[test]
fn purchase_count_rejects_no_payment() {
    let c = RoyaltyNFTCollection::new();
    assert_eq!(
        c.calculate_purchase_count(&vec![stranger(1000000)]),
        Err(MintError::NoValidPayment)
    );
    assert_eq!(c.calculate_purchase_count(&vec![frbtc(9999)]), Err(MintError::NoValidPayment));
}

#[test]
fn only_owner_requires_single_full_unit() {
    let c = RoyaltyNFTCollection::new();
    let myself = AlkaneId { block: 2, tx: 7 };
    let own = AlkaneTransfer { id: myself, value: 1 };
    assert_eq!(c.only_owner(&vec![own], &myself), Ok(()));
    assert_eq!(c.only_owner(&vec![], &myself), Err(MintError::NotAuthenticated));
    assert_eq!(c.only_owner(&vec![own, own], &myself), Err(MintError::NotAuthenticated));
    assert_eq!(c.only_owner(&vec![stranger(5)], &myself), Err(MintError::NotAuthenticated));
    let empty_auth = AlkaneTransfer { id: myself, value: 0 };
    assert_eq!(c.only_owner(&vec![empty_auth], &myself), Err(MintError::NotAuthenticated));
}

#[test]
fn mint_counts_up_to_supply() {
    let mut c = RoyaltyNFTCollection::new();
    assert_eq!(c.max_mints(), 3333);
    assert_eq!(c.instances_count(), 0);
    let req = c.create_mint_request().unwrap();
    assert_eq!(req.target, AlkaneId { block: 6, tx: 0x378 });
    assert_eq!(req.inputs, vec![0, 0]);
    assert_eq!(c.add_instance(), Ok(1));
    assert_eq!(c.instances_count(), 1);
    assert_eq!(c.create_mint_request().unwrap().inputs, vec![0, 1]);
    c.set_instances_count(3333);
    assert_eq!(c.create_mint_request().unwrap_err(), MintError::MintedOut);
}

#[test]
fn instance_count_cannot_overflow() {
    let mut c = RoyaltyNFTCollection::new();
    c.set_instances_count(u128::MAX);
    assert_eq!(c.add_instance(), Err(MintError::CountOverflow));
    assert_eq!(c.instances_count(), u128::MAX);
}

#[test]
fn royalty_and_withdrawals() {
    let c = RoyaltyNFTCollection::new();
    let myself = AlkaneId { block: 2, tx: 7 };
    assert_eq!(c.get_royalty_info(&myself), (500, myself));
    let out = c.withdraw_request(0, 42).unwrap();
    assert_eq!(out.value, 42);
    assert_eq!(out.id, PaymentToken::FrBTC.get_id());
    assert_eq!(c.withdraw_request(0, 0), Err(MintError::InvalidWithdrawal));
    assert_eq!(c.withdraw_request(2, 42), Err(MintError::InvalidWithdrawal));
}

#[test]
fn decimal_formatting() {
    assert_eq!(fmt_u64(0), "0");
    assert_eq!(fmt_u64(7), "7");
    assert_eq!(fmt_u64(400), "400");
    assert_eq!(fmt_u128(1234567890123456789012345678901234567), "1234567890123456789012345678901234567");
}

#[test]
fn integer_sine_landmarks() {
    assert_eq!(sin_milli(0), 0);
    assert_eq!(sin_milli(30), 500);
    assert_eq!(sin_milli(90), 1000);
    assert_eq!(sin_milli(180), 0);
    assert_eq!(sin_milli(270), -1000);
    assert_eq!(cos_milli(0), 1000);
    assert_eq!(cos_milli(90), 0);
    assert_eq!(cos_milli(180), -1000);
    for d in 0..360 {
        let s = sin_milli(d);
        let c = cos_milli(d);
        assert!((-1000..=1000).contains(&s));
        assert!((-1000..=1000).contains(&c));
    }
}
