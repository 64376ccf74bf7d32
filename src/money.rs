//! Monetary values and how they are read from text.

use vstd::prelude::*;

use crate::amount::{check_float_literal, is_float_literal};
use crate::currency::{currency_named, lower_of, Currency};
use crate::error::{
    formatting_message, invalid_amount_message, unknown_currency_message, MoneyError,
    MoneyErrorView,
};
use crate::text::{split_tokens, tokens};

verus! {

/// An amount in a currency.
///
/// The amount is kept as the float literal it was written as; its numeric
/// value is what `str::parse` gives for that literal. Equality compares the
/// literals: `100` and `100.0` differ, and a `NaN` amount equals itself.
#[derive(Debug, PartialEq, Eq)]
pub struct Money {
    amount: String,
    currency: Currency,
}

/// A `Money` as its amount literal and its currency.
pub struct MoneyView {
    pub amount: Seq<char>,
    pub currency: Currency,
}

impl View for Money {
    type V = MoneyView;

    closed spec fn view(&self) -> MoneyView {
        MoneyView { amount: self.amount@, currency: self.currency }
    }
}

/// What parsing `s` gives: the amount and currency when `s` is a float
/// literal and a currency name separated by whitespace, else the first error
/// met in the order format, amount, currency.
pub open spec fn parse_outcome(s: Seq<char>) -> Result<MoneyView, MoneyErrorView> {
    let t = tokens(s);
    if t.len() != 2 {
        Err(MoneyErrorView::ParseFormatting(formatting_message()))
    } else if !is_float_literal(t[0]) {
        Err(MoneyErrorView::ParseAmount(invalid_amount_message()))
    } else {
        match currency_named(lower_of(t[1])) {
            Some(c) => Ok(MoneyView { amount: t[0], currency: c }),
            None => Err(MoneyErrorView::ParseCurrency(unknown_currency_message())),
        }
    }
}

/// `r` seen through the views of its value and its error.
pub open spec fn money_viewed(r: Result<Money, MoneyError>) -> Result<MoneyView, MoneyErrorView> {
    match r {
        Ok(m) => Ok(m@),
        Err(e) => Err(e@),
    }
}

impl Money {
    #[verifier::type_invariant]
    spec fn amount_is_literal(self) -> bool {
        is_float_literal(self.amount@)
    }

    fn new(amount: String, currency: Currency) -> (r: Money)
        requires
            is_float_literal(amount@),
        ensures
            r@ == (MoneyView { amount: amount@, currency }),
    {
        Money { amount, currency }
    }

    /// The amount, as the float literal it was written as.
    pub fn amount(&self) -> (r: &str)
        ensures
            r@ == self@.amount,
            is_float_literal(r@),
    {
        proof {
            use_type_invariant(self);
        }
        self.amount.as_str()
    }

    /// The currency.
    pub fn currency(&self) -> (r: Currency)
        ensures
            r == self@.currency,
    {
        self.currency
    }

    /// Reads a monetary value written as an amount and a currency separated by
    /// whitespace, such as `100 Euro` or `42.4 DOLLAR`.
    pub fn parse(s: &str) -> (r: Result<Money, MoneyError>)
        ensures
            money_viewed(r) == parse_outcome(s@),
            tokens(s@).len() != 2 ==> r is Err && r->Err_0@ == MoneyErrorView::ParseFormatting(
                formatting_message(),
            ),
            tokens(s@).len() == 2 && !is_float_literal(tokens(s@)[0]) ==> r is Err && r->Err_0@
                == MoneyErrorView::ParseAmount(invalid_amount_message()),
            tokens(s@).len() == 2 && is_float_literal(tokens(s@)[0]) && currency_named(
                lower_of(tokens(s@)[1]),
            ) is None ==> r is Err && r->Err_0@ == MoneyErrorView::ParseCurrency(
                unknown_currency_message(),
            ),
            r is Ok <==> tokens(s@).len() == 2 && is_float_literal(tokens(s@)[0]) && currency_named(
                lower_of(tokens(s@)[1]),
            ) is Some,
            r is Ok ==> r->Ok_0@.amount == tokens(s@)[0] && Some(r->Ok_0@.currency)
                == currency_named(lower_of(tokens(s@)[1])),
    {
        let parts = split_tokens(s);
        if parts.len() != 2 {
            return Err(MoneyError::bad_formatting());
        }
        let amount = parts[0];
        let name = parts[1];
        if !check_float_literal(amount) {
            return Err(MoneyError::invalid_amount());
        }
        match Currency::parse(name) {
            Ok(c) => Ok(Money::new(String::from_str(amount), c)),
            Err(e) => Err(e),
        }
    }
}

impl std::str::FromStr for Money {
    type Err = MoneyError;

    fn from_str(s: &str) -> (r: Result<Money, MoneyError>)
        ensures
            money_viewed(r) == parse_outcome(s@),
    {
        Money::parse(s)
    }
}

/// Parsing depends on the text alone: two texts with the same characters
/// parse to the same value or to the same error.
pub proof fn parse_is_deterministic(s: Seq<char>, t: Seq<char>)
    requires
        s == t,
    ensures
        parse_outcome(s) == parse_outcome(t),
{
}

} // verus!
