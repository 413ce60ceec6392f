//! Native-ledger coin values and the rule for extracting the single payment
//! attached to a call.

use vstd::prelude::*;

verus! {

/// A coin amount in one denomination. Amounts are integers in the
/// denomination's base unit.
#[derive(Debug)]
pub struct Coin {
    pub denom: String,
    pub amount: u128,
}

impl Coin {
    /// Two coins are the same payment iff denomination and amount agree.
    pub open spec fn spec_eq(self, other: Coin) -> bool {
        self.denom@ == other.denom@ && self.amount == other.amount
    }

    pub fn duplicate(&self) -> (r: Coin)
        ensures
            r == *self,
            r.spec_eq(*self),
    {
        Coin { denom: self.denom.clone(), amount: self.amount }
    }
}

impl PartialEq for Coin {
    fn eq(&self, other: &Coin) -> (r: bool) {
        self.denom == other.denom && self.amount == other.amount
    }
}

impl vstd::std_specs::cmp::PartialEqSpecImpl for Coin {
    open spec fn obeys_eq_spec() -> bool {
        true
    }

    open spec fn eq_spec(&self, other: &Coin) -> bool {
        self.spec_eq(*other)
    }
}

/// The denomination that the managers may burn; every other denomination is
/// always forwarded in full.
pub open spec fn spec_native_denom() -> Seq<char> {
    "uccat"@
}

pub fn native_denom() -> (r: &'static str)
    ensures
        r@ == spec_native_denom(),
{
    "uccat"
}

/// Why a payment was rejected before any state was touched.
#[derive(Clone, Copy, PartialEq, Eq, Structural, Debug)]
pub enum PaymentError {
    /// No coin attached, or a single coin with a zero amount.
    NoFunds,
    /// More than one coin attached.
    MultipleDenoms,
}

/// A fund list that `one_coin` accepts: exactly one coin, positive amount.
pub open spec fn spec_payment_ok(funds: Seq<Coin>) -> bool {
    funds.len() == 1 && funds[0].amount > 0
}

/// The error `one_coin` reports for a rejected fund list.
pub open spec fn spec_payment_error(funds: Seq<Coin>) -> PaymentError {
    if funds.len() > 1 {
        PaymentError::MultipleDenoms
    } else {
        PaymentError::NoFunds
    }
}

/// Extracts the exactly-one coin attached to a call: fails `NoFunds` on an
/// empty fund list or a zero amount, `MultipleDenoms` when more than one
/// coin is attached.
pub fn one_coin(funds: &Vec<Coin>) -> (r: Result<Coin, PaymentError>)
    ensures
        funds@.len() == 0 ==> r == Result::<Coin, PaymentError>::Err(PaymentError::NoFunds),
        funds@.len() > 1 ==> r == Result::<Coin, PaymentError>::Err(
            PaymentError::MultipleDenoms,
        ),
        funds@.len() == 1 && funds@[0].amount == 0 ==> r == Result::<
            Coin,
            PaymentError,
        >::Err(PaymentError::NoFunds),
        funds@.len() == 1 && funds@[0].amount > 0 ==> r.is_ok()
            && r.unwrap().spec_eq(funds@[0]),
{
    if funds.len() == 0 {
        Err(PaymentError::NoFunds)
    } else if funds.len() > 1 {
        Err(PaymentError::MultipleDenoms)
    } else {
        let coin = &funds[0];
        if coin.amount == 0 {
            Err(PaymentError::NoFunds)
        } else {
            Ok(coin.duplicate())
        }
    }
}

} // verus!
