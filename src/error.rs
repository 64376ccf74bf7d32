//! The ways in which parsing a monetary value can fail.

use vstd::prelude::*;

verus! {

/// Why a monetary value could not be parsed. Each kind carries a message.
#[derive(Debug, Clone, PartialEq, Eq)]
pub enum MoneyError {
    /// The amount is not a float literal.
    ParseAmount(String),
    /// The currency is not one of the known ones.
    ParseCurrency(String),
    /// The input is not made of an amount and a currency.
    ParseFormatting(String),
}

/// A `MoneyError` with its message as a sequence of characters.
pub enum MoneyErrorView {
    ParseAmount(Seq<char>),
    ParseCurrency(Seq<char>),
    ParseFormatting(Seq<char>),
}

impl View for MoneyError {
    type V = MoneyErrorView;

    open spec fn view(&self) -> MoneyErrorView {
        match self {
            MoneyError::ParseAmount(m) => MoneyErrorView::ParseAmount(m@),
            MoneyError::ParseCurrency(m) => MoneyErrorView::ParseCurrency(m@),
            MoneyError::ParseFormatting(m) => MoneyErrorView::ParseFormatting(m@),
        }
    }
}

/// The message of an amount that is not a float literal.
pub open spec fn invalid_amount_message() -> Seq<char> {
    "invalid float literal"@
}

/// The message of an unknown currency.
pub open spec fn unknown_currency_message() -> Seq<char> {
    "Unknown currency"@
}

/// The message of an input that is not an amount and a currency.
pub open spec fn formatting_message() -> Seq<char> {
    "Expecting amount and currency"@
}

/// `r` with its error, if any, seen through its view.
pub open spec fn error_viewed<T>(r: Result<T, MoneyError>) -> Result<T, MoneyErrorView> {
    match r {
        Ok(v) => Ok(v),
        Err(e) => Err(e@),
    }
}

impl MoneyError {
    /// An error for an amount that is not a float literal.
    pub(crate) fn invalid_amount() -> (r: MoneyError)
        ensures
            r@ == MoneyErrorView::ParseAmount(invalid_amount_message()),
    {
        MoneyError::ParseAmount(String::from_str("invalid float literal"))
    }

    /// An error for an unknown currency.
    pub(crate) fn unknown_currency() -> (r: MoneyError)
        ensures
            r@ == MoneyErrorView::ParseCurrency(unknown_currency_message()),
    {
        MoneyError::ParseCurrency(String::from_str("Unknown currency"))
    }

    /// An error for an input that is not an amount and a currency.
    pub(crate) fn bad_formatting() -> (r: MoneyError)
        ensures
            r@ == MoneyErrorView::ParseFormatting(formatting_message()),
    {
        MoneyError::ParseFormatting(String::from_str("Expecting amount and currency"))
    }
}

} // verus!
