//! The collection contract's decisions, as pure functions of plain values:
//! payment verification, purchase counting, owner authentication and the
//! mint bookkeeping. The host's storage and calls stay outside; callers
//! hand in the incoming transfers and persist the state that comes back.

use vstd::prelude::*;
use crate::svg::MAX_SUPPLY;

verus! {

/// A token contract's identity: a block and a transaction number.
#[derive(Clone, Copy, Debug, PartialEq, Eq, Structural)]
pub struct AlkaneId {
    pub block: u128,
    pub tx: u128,
}

/// One incoming or outgoing token transfer.
#[derive(Clone, Copy, Debug, PartialEq, Eq, Structural)]
pub struct AlkaneTransfer {
    pub id: AlkaneId,
    pub value: u128,
}

/// The payment tokens the collection accepts.
#[derive(Clone, Copy, Debug, PartialEq, Eq, Structural)]
pub enum PaymentToken {
    FrBTC,
    BUSD,
}

/// One failure of the minting bookkeeping.
#[derive(Clone, Copy, Debug, PartialEq, Eq, Structural)]
pub enum MintError {
    /// Every token of the supply has been minted.
    MintedOut,
    /// The instance count cannot grow further.
    CountOverflow,
    /// The incoming transfers pay less than the required amount.
    InsufficientPayment,
    /// No incoming transfer carries an accepted payment token.
    NoValidPayment,
    /// The caller did not authenticate with exactly the collection token.
    NotAuthenticated,
    /// A withdrawal of nothing, or of an unknown token type.
    InvalidWithdrawal,
}

/// The price of one mint, per payment token.
pub const FRBTC_AMOUNT_PER_MINT: u128 = 10000;

pub const BUSD_AMOUNT_PER_MINT: u128 = 1000000;

/// The most mints one transaction may purchase.
pub const MAX_PURCHASE_PER_TX: u128 = 3;

/// The royalty rate in basis points.
pub const ROYALTY_PERCENTAGE: u128 = 500;

/// The child template a mint instantiates, under block 6.
pub const ORBITAL_TEMPLATE_ID: u128 = 0x378;

/// The deployed id of each payment token; both are placeholders until the
/// network's real ids are known.
pub open spec fn spec_token_id(t: PaymentToken) -> AlkaneId {
    match t {
        PaymentToken::FrBTC => AlkaneId { block: 0, tx: 0 },
        PaymentToken::BUSD => AlkaneId { block: 0, tx: 0 },
    }
}

pub open spec fn spec_price(t: PaymentToken) -> u128 {
    match t {
        PaymentToken::FrBTC => FRBTC_AMOUNT_PER_MINT,
        PaymentToken::BUSD => BUSD_AMOUNT_PER_MINT,
    }
}

/// Which payment token an id denotes; the earlier token wins a tie.
pub open spec fn spec_from_id(id: AlkaneId) -> Option<PaymentToken> {
    if id == spec_token_id(PaymentToken::FrBTC) {
        Option::Some(PaymentToken::FrBTC)
    } else if id == spec_token_id(PaymentToken::BUSD) {
        Option::Some(PaymentToken::BUSD)
    } else {
        Option::None
    }
}

impl PaymentToken {
    pub fn get_id(&self) -> (r: AlkaneId)
        ensures
            r == spec_token_id(*self),
    {
        match self {
            PaymentToken::FrBTC => AlkaneId { block: 0, tx: 0 },
            PaymentToken::BUSD => AlkaneId { block: 0, tx: 0 },
        }
    }

    pub fn get_price_per_mint(&self) -> (r: u128)
        ensures
            r == spec_price(*self),
    {
        match self {
            PaymentToken::FrBTC => FRBTC_AMOUNT_PER_MINT,
            PaymentToken::BUSD => BUSD_AMOUNT_PER_MINT,
        }
    }

    pub fn from_alkane_id(id: &AlkaneId) -> (r: Option<PaymentToken>)
        ensures
            r == spec_from_id(*id),
    {
        if *id == PaymentToken::FrBTC.get_id() {
            Some(PaymentToken::FrBTC)
        } else if *id == PaymentToken::BUSD.get_id() {
            Some(PaymentToken::BUSD)
        } else {
            None
        }
    }
}

/// The sum paid in `token` over the transfers.
pub open spec fn spec_total_payment(transfers: Seq<AlkaneTransfer>, token: PaymentToken) -> int
    decreases transfers.len(),
{
    if transfers.len() == 0 {
        0
    } else {
        (if transfers[0].id == spec_token_id(token) {
            transfers[0].value as int
        } else {
            0
        }) + spec_total_payment(transfers.drop_first(), token)
    }
}

/// The mints the transfers pay for, before the per-transaction cap.
pub open spec fn spec_purchase_sum(transfers: Seq<AlkaneTransfer>) -> int
    decreases transfers.len(),
{
    if transfers.len() == 0 {
        0
    } else {
        (match spec_from_id(transfers[0].id) {
            Option::Some(t) => transfers[0].value as int / spec_price(t) as int,
            Option::None => 0,
        }) + spec_purchase_sum(transfers.drop_first())
    }
}

/// Partial payment sums never shrink as transfers are added.
proof fn lemma_total_payment_append(transfers: Seq<AlkaneTransfer>, token: PaymentToken, i: int)
    requires
        0 <= i < transfers.len(),
    ensures
        spec_total_payment(transfers.take(i + 1), token) == spec_total_payment(
            transfers.take(i),
            token,
        ) + (if transfers[i].id == spec_token_id(token) {
            transfers[i].value as int
        } else {
            0
        }),
    decreases i,
{
    let a = transfers.take(i + 1);
    let b = transfers.take(i);
    assert(a[0] == transfers[0]);
    if i == 0 {
        assert(a.drop_first() =~= Seq::<AlkaneTransfer>::empty());
        assert(b =~= Seq::<AlkaneTransfer>::empty());
        assert(spec_total_payment(b, token) == 0);
        assert(spec_total_payment(a.drop_first(), token) == 0);
    } else {
        lemma_total_payment_append(transfers.drop_first(), token, i - 1);
        assert(a.drop_first() =~= transfers.drop_first().take(i));
        assert(b.drop_first() =~= transfers.drop_first().take(i - 1));
        assert(transfers.drop_first().take(i)[i - 1] == transfers[i]);
        assert(spec_total_payment(a, token) == (if a[0].id == spec_token_id(token) {
            a[0].value as int
        } else {
            0
        }) + spec_total_payment(a.drop_first(), token));
        assert(spec_total_payment(b, token) == (if b[0].id == spec_token_id(token) {
            b[0].value as int
        } else {
            0
        }) + spec_total_payment(b.drop_first(), token));
    }
}

/// The same, for the purchase sum.
proof fn lemma_purchase_sum_append(transfers: Seq<AlkaneTransfer>, i: int)
    requires
        0 <= i < transfers.len(),
    ensures
        spec_purchase_sum(transfers.take(i + 1)) == spec_purchase_sum(transfers.take(i)) + (
        match spec_from_id(transfers[i].id) {
            Option::Some(t) => transfers[i].value as int / spec_price(t) as int,
            Option::None => 0,
        }),
    decreases i,
{
    let a = transfers.take(i + 1);
    let b = transfers.take(i);
    assert(a[0] == transfers[0]);
    if i == 0 {
        assert(a.drop_first() =~= Seq::<AlkaneTransfer>::empty());
        assert(b =~= Seq::<AlkaneTransfer>::empty());
        assert(spec_purchase_sum(b) == 0);
        assert(spec_purchase_sum(a.drop_first()) == 0);
    } else {
        lemma_purchase_sum_append(transfers.drop_first(), i - 1);
        assert(a.drop_first() =~= transfers.drop_first().take(i));
        assert(b.drop_first() =~= transfers.drop_first().take(i - 1));
        assert(transfers.drop_first().take(i)[i - 1] == transfers[i]);
        assert(spec_purchase_sum(a) == (match spec_from_id(a[0].id) {
            Option::Some(t) => a[0].value as int / spec_price(t) as int,
            Option::None => 0,
        }) + spec_purchase_sum(a.drop_first()));
        assert(spec_purchase_sum(b) == (match spec_from_id(b[0].id) {
            Option::Some(t) => b[0].value as int / spec_price(t) as int,
            Option::None => 0,
        }) + spec_purchase_sum(b.drop_first()));
    }
}

/// What a mint asks the host to instantiate: the child template and its
/// inputs, the index among them.
#[derive(Debug)]
pub struct MintRequest {
    pub target: AlkaneId,
    pub inputs: Vec<u128>,
}

/// The collection's own persistent state: how many instances exist. The
/// host's storage holds it between calls; these methods say how it moves.
pub struct RoyaltyNFTCollection {
    pub count: u128,
}

impl RoyaltyNFTCollection {
    /// A fresh collection with nothing minted.
    pub fn new() -> (r: RoyaltyNFTCollection)
        ensures
            r.count == 0,
    {
        RoyaltyNFTCollection { count: 0 }
    }

    /// The fixed supply cap.
    pub fn max_mints(&self) -> (r: u128)
        ensures
            r == MAX_SUPPLY,
    {
        3333
    }

    /// How many instances have been minted.
    pub fn instances_count(&self) -> (r: u128)
        ensures
            r == self.count,
    {
        self.count
    }

    /// Overwrites the instance count.
    pub fn set_instances_count(&mut self, count: u128)
        ensures
            final (self).count == count,
    {
        self.count = count;
    }

    /// Records one more instance; fails only when the count cannot grow.
    pub fn add_instance(&mut self) -> (r: Result<u128, MintError>)
        ensures
            old(self).count < u128::MAX ==> r is Ok && r->Ok_0 == old(self).count + 1
                && final (self).count == old(self).count + 1,
            old(self).count == u128::MAX ==> r is Err && r->Err_0 == MintError::CountOverflow
                && final (self).count == old(self).count,
    {
        if self.count == u128::MAX {
            return Err(MintError::CountOverflow);
        }
        self.count = self.count + 1;
        Ok(self.count)
    }

    /// The next mint: the index it gets and the child call that creates it.
    /// Fails with `MintedOut`, and only then, once the supply is reached.
    pub fn create_mint_request(&self) -> (r: Result<MintRequest, MintError>)
        ensures
            self.count < MAX_SUPPLY ==> r is Ok && r->Ok_0.target == (AlkaneId {
                block: 6,
                tx: ORBITAL_TEMPLATE_ID,
            }) && r->Ok_0.inputs@ == seq![0u128, self.count],
            self.count >= MAX_SUPPLY ==> r is Err && r->Err_0 == MintError::MintedOut,
    {
        if self.count >= self.max_mints() {
            return Err(MintError::MintedOut);
        }
        let mut inputs: Vec<u128> = Vec::new();
        inputs.push(0);
        inputs.push(self.count);
        proof {
            assert(inputs@ =~= seq![0u128, self.count]);
        }
        Ok(MintRequest { target: AlkaneId { block: 6, tx: ORBITAL_TEMPLATE_ID }, inputs })
    }

    /// Checks that the incoming transfers pay at least `required_amount` in
    /// `payment_token`; succeeds exactly then.
    pub fn verify_payment(
        &self,
        transfers: &Vec<AlkaneTransfer>,
        required_amount: u128,
        payment_token: PaymentToken,
    ) -> (r: Result<(), MintError>)
        ensures
            r is Ok <==> spec_total_payment(transfers@, payment_token) >= required_amount,
            r is Err ==> r->Err_0 == MintError::InsufficientPayment,
    {
        let mut total: u128 = 0;
        let mut i: usize = 0;
        proof {
            assert(transfers@.take(0) =~= Seq::<AlkaneTransfer>::empty());
        }
        while i < transfers.len()
            invariant
                i <= transfers@.len(),
                total == (if spec_total_payment(transfers@.take(i as int), payment_token)
                    <= u128::MAX {
                    spec_total_payment(transfers@.take(i as int), payment_token)
                } else {
                    u128::MAX as int
                }),
                spec_total_payment(transfers@.take(i as int), payment_token) >= total,
            decreases transfers@.len() - i,
        {
            proof {
                lemma_total_payment_append(transfers@, payment_token, i as int);
            }
            let t = &transfers[i];
            if t.id == payment_token.get_id() {
                total = if total > u128::MAX - t.value {
                    u128::MAX
                } else {
                    total + t.value
                };
            }
            i = i + 1;
        }
        proof {
            assert(transfers@.take(transfers@.len() as int) =~= transfers@);
        }
        if total < required_amount {
            Err(MintError::InsufficientPayment)
        } else {
            Ok(())
        }
    }

    /// How many mints the incoming payment buys, capped per transaction.
    /// Fails with `NoValidPayment`, and only then, when the transfers pay
    /// for nothing.
    pub fn calculate_purchase_count(&self, transfers: &Vec<AlkaneTransfer>) -> (r: Result<
        u128,
        MintError,
    >)
        ensures
            spec_purchase_sum(transfers@) == 0 ==> r is Err && r->Err_0
                == MintError::NoValidPayment,
            spec_purchase_sum(transfers@) > 0 ==> r is Ok && r->Ok_0 == (if spec_purchase_sum(
                transfers@,
            ) <= MAX_PURCHASE_PER_TX {
                spec_purchase_sum(transfers@)
            } else {
                MAX_PURCHASE_PER_TX as int
            }),
    {
        let mut total: u128 = 0;
        let mut i: usize = 0;
        proof {
            assert(transfers@.take(0) =~= Seq::<AlkaneTransfer>::empty());
        }
        while i < transfers.len()
            invariant
                i <= transfers@.len(),
                total == (if spec_purchase_sum(transfers@.take(i as int)) <= MAX_PURCHASE_PER_TX {
                    spec_purchase_sum(transfers@.take(i as int))
                } else {
                    MAX_PURCHASE_PER_TX as int
                }),
                spec_purchase_sum(transfers@.take(i as int)) >= total,
            decreases transfers@.len() - i,
        {
            proof {
                lemma_purchase_sum_append(transfers@, i as int);
            }
            let t = &transfers[i];
            if let Some(token) = PaymentToken::from_alkane_id(&t.id) {
                let count_for_token = t.value / token.get_price_per_mint();
                if total < MAX_PURCHASE_PER_TX {
                    total = if count_for_token > MAX_PURCHASE_PER_TX - total {
                        MAX_PURCHASE_PER_TX
                    } else {
                        total + count_for_token
                    };
                }
            }
            i = i + 1;
        }
        proof {
            assert(transfers@.take(transfers@.len() as int) =~= transfers@);
        }
        if total == 0 {
            Err(MintError::NoValidPayment)
        } else {
            Ok(total)
        }
    }

    /// Authenticates the caller: exactly one incoming transfer, of the
    /// collection's own token, worth at least one unit.
    pub fn only_owner(&self, transfers: &Vec<AlkaneTransfer>, myself: &AlkaneId) -> (r: Result<
        (),
        MintError,
    >)
        ensures
            r is Ok <==> (transfers@.len() == 1 && transfers@[0].id == *myself
                && transfers@[0].value >= 1),
            r is Err ==> r->Err_0 == MintError::NotAuthenticated,
    {
        if transfers.len() != 1 {
            return Err(MintError::NotAuthenticated);
        }
        let transfer = &transfers[0];
        if transfer.id != *myself {
            return Err(MintError::NotAuthenticated);
        }
        if transfer.value < 1 {
            return Err(MintError::NotAuthenticated);
        }
        Ok(())
    }

    /// The royalty terms: the rate in basis points, paid to the collection.
    pub fn get_royalty_info(&self, myself: &AlkaneId) -> (r: (u128, AlkaneId))
        ensures
            r.0 == ROYALTY_PERCENTAGE,
            r.1 == *myself,
    {
        (ROYALTY_PERCENTAGE, *myself)
    }

    /// The outgoing transfer a withdrawal asks for. Fails on a zero amount
    /// or an unknown token type, and only then.
    pub fn withdraw_request(&self, token_type: u128, amount: u128) -> (r: Result<
        AlkaneTransfer,
        MintError,
    >)
        ensures
            amount > 0 && token_type == 0 ==> r is Ok && r->Ok_0 == (AlkaneTransfer {
                id: spec_token_id(PaymentToken::FrBTC),
                value: amount,
            }),
            amount > 0 && token_type == 1 ==> r is Ok && r->Ok_0 == (AlkaneTransfer {
                id: spec_token_id(PaymentToken::BUSD),
                value: amount,
            }),
            amount == 0 || token_type > 1 ==> r is Err && r->Err_0
                == MintError::InvalidWithdrawal,
    {
        if amount == 0 {
            return Err(MintError::InvalidWithdrawal);
        }
        let token = match token_type {
            0 => PaymentToken::FrBTC,
            1 => PaymentToken::BUSD,
            _ => {
                return Err(MintError::InvalidWithdrawal);
            },
        };
        Ok(AlkaneTransfer { id: token.get_id(), value: amount })
    }
}

} // verus!
