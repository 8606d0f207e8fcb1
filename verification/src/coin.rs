//! Token amounts, the text they are written as, and the payment check.

use vstd::prelude::*;
use crate::error::PaymentError;

verus! {

/// An amount of one token denomination.
#[derive(Debug, PartialEq, Eq)]
pub struct Coin {
    pub denom: String,
    pub amount: u128,
}

/// The mathematical content of a [`Coin`].
pub struct CoinView {
    pub denom: Seq<char>,
    pub amount: u128,
}

impl View for Coin {
    type V = CoinView;

    open spec fn view(&self) -> CoinView {
        CoinView { denom: self.denom@, amount: self.amount }
    }
}

impl Clone for Coin {
    fn clone(&self) -> (c: Coin)
        ensures
            c == *self,
    {
        Coin { denom: self.denom.clone(), amount: self.amount }
    }
}

/// The views of a sequence of coins, in order.
pub open spec fn coins_view(coins: Seq<Coin>) -> Seq<CoinView> {
    coins.map_values(|c: Coin| c@)
}

/// The character that stands for a digit below ten.
pub open spec fn decimal_digit(d: nat) -> char {
    if d == 0 {
        '0'
    } else if d == 1 {
        '1'
    } else if d == 2 {
        '2'
    } else if d == 3 {
        '3'
    } else if d == 4 {
        '4'
    } else if d == 5 {
        '5'
    } else if d == 6 {
        '6'
    } else if d == 7 {
        '7'
    } else if d == 8 {
        '8'
    } else {
        '9'
    }
}

/// A natural number written in base ten, without sign or leading zeros.
pub open spec fn decimal_text(n: nat) -> Seq<char>
    decreases n,
{
    if n < 10 {
        seq![decimal_digit(n)]
    } else {
        decimal_text(n / 10).push(decimal_digit(n % 10))
    }
}

impl CoinView {
    /// The coin written as its amount in base ten directly followed by its
    /// denomination, as in `1234ucosm`.
    pub open spec fn text(self) -> Seq<char> {
        decimal_text(self.amount as nat) + self.denom
    }
}

/// The `Display` of `cosmwasm_std::Coin`, through `to_string`.
///
/// The outside type writes the amount, a 128-bit unsigned integer in base
/// ten, and then the denomination, with nothing between them.
#[verifier::external_body]
fn coin_display(amount: u128, denom: &str) -> (s: String)
    ensures
        s@ == decimal_text(amount as nat) + denom@,
{
    cosmwasm_std::Coin::new(amount, denom).to_string()
}

impl Coin {
    /// The coin of `amount` units of `denom`.
    pub fn new(amount: u128, denom: &str) -> (c: Coin)
        ensures
            c@ == (CoinView { denom: denom@, amount }),
    {
        Coin { denom: denom.to_owned(), amount }
    }

    /// The coin as text: the amount directly followed by the denomination.
    pub fn to_string(&self) -> (s: String)
        ensures
            s@ == self@.text(),
    {
        coin_display(self.amount, self.denom.as_str())
    }
}

/// The single coin of a payment: the one coin attached, where exactly one is
/// attached and its amount is positive. Nothing attached, or one coin of
/// amount zero, is `NoFunds`; two or more coins are `MultipleDenoms`.
pub open spec fn single_payment(funds: Seq<CoinView>) -> Result<CoinView, PaymentError> {
    if funds.len() == 0 {
        Err(PaymentError::NoFunds {  })
    } else if funds.len() == 1 {
        if funds[0].amount == 0 {
            Err(PaymentError::NoFunds {  })
        } else {
            Ok(funds[0])
        }
    } else {
        Err(PaymentError::MultipleDenoms {  })
    }
}

/// Checks that the attached funds are a payment in one denomination and
/// returns its coin.
pub fn one_coin(funds: &Vec<Coin>) -> (r: Result<Coin, PaymentError>)
    ensures
        match r {
            Ok(c) => single_payment(coins_view(funds@)) == Ok::<CoinView, PaymentError>(c@),
            Err(e) => single_payment(coins_view(funds@)) == Err::<CoinView, PaymentError>(e),
        },
{
    if funds.len() == 0 {
        Err(PaymentError::NoFunds {  })
    } else if funds.len() == 1 {
        if funds[0].amount == 0 {
            Err(PaymentError::NoFunds {  })
        } else {
            Ok(funds[0].clone())
        }
    } else {
        Err(PaymentError::MultipleDenoms {  })
    }
}

} // verus!
