//! The known currencies and how they are named.

use vstd::prelude::*;

use crate::error::{error_viewed, unknown_currency_message, MoneyError, MoneyErrorView};
use crate::text::char_vec;

verus! {

/// A currency that a monetary value can be in.
#[derive(Debug, Clone, Copy, PartialEq, Eq, Structural)]
pub enum Currency {
    Dollar,
    Euro,
}

/// What `str::to_lowercase` gives for `s`.
pub uninterp spec fn lower_of(s: Seq<char>) -> Seq<char>;

/// Relies on `str::to_lowercase`: the lower-case form of `s`, which depends
/// on the characters of `s` alone.
#[verifier::external_body]
fn lowercase(s: &str) -> (r: String)
    ensures
        r@ == lower_of(s@),
{
    s.to_lowercase()
}

/// The currency that the lower-case name `w` denotes, if any.
pub open spec fn currency_named(w: Seq<char>) -> Option<Currency> {
    if w == "dollar"@ || w == "$"@ {
        Some(Currency::Dollar)
    } else if w == "euro"@ || w == "eur"@ {
        Some(Currency::Euro)
    } else {
        None
    }
}

/// The outcome of looking up the lower-case name `w`.
pub open spec fn currency_outcome(w: Seq<char>) -> Result<Currency, MoneyErrorView> {
    match currency_named(w) {
        Some(c) => Ok(c),
        None => Err(MoneyErrorView::ParseCurrency(unknown_currency_message())),
    }
}

/// Whether `a` and `b` hold the same characters.
fn same_chars(a: &Vec<char>, b: &str) -> (r: bool)
    ensures
        r == (a@ == b@),
{
    let w = char_vec(b);
    if a.len() != w.len() {
        return false;
    }
    let mut i: usize = 0;
    while i < a.len()
        invariant
            a@.len() == w@.len(),
            w@ == b@,
            i <= a@.len(),
            forall|j: int| 0 <= j < i ==> a@[j] == w@[j],
        decreases a@.len() - i,
    {
        if a[i] != w[i] {
            return false;
        }
        i = i + 1;
    }
    assert(a@ == w@);
    true
}

impl Currency {
    /// The currency named by `name`, which is already in lower case.
    pub fn from_lowercase(name: &str) -> (r: Result<Currency, MoneyError>)
        ensures
            error_viewed(r) == currency_outcome(name@),
    {
        let v = char_vec(name);
        if same_chars(&v, "dollar") || same_chars(&v, "$") {
            Ok(Currency::Dollar)
        } else if same_chars(&v, "euro") || same_chars(&v, "eur") {
            Ok(Currency::Euro)
        } else {
            Err(MoneyError::unknown_currency())
        }
    }

    /// The currency named by `s`, in any case.
    pub fn parse(s: &str) -> (r: Result<Currency, MoneyError>)
        ensures
            error_viewed(r) == currency_outcome(lower_of(s@)),
    {
        let lowered = lowercase(s);
        Currency::from_lowercase(lowered.as_str())
    }
}

impl std::str::FromStr for Currency {
    type Err = MoneyError;

    fn from_str(s: &str) -> (r: Result<Currency, MoneyError>)
        ensures
            error_viewed(r) == currency_outcome(lower_of(s@)),
    {
        Currency::parse(s)
    }
}

} // verus!
