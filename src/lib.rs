//! Parsing of monetary values written as `<amount> <currency>`.

mod amount;
mod currency;
mod error;
mod money;
mod text;

pub use amount::{
    check_float_literal, is_digit, is_digits, is_exp_mark, is_exponent,
    is_float_literal, is_mantissa, is_number, is_sign, is_special, spells, unsigned,
};
pub use currency::{currency_named, currency_outcome, lower_of, Currency};
pub use error::{
    error_viewed, formatting_message, invalid_amount_message, unknown_currency_message, MoneyError,
    MoneyErrorView,
};
pub use money::{money_viewed, parse_is_deterministic, parse_outcome, Money, MoneyView};
pub use text::{is_space, split_tokens, tokens, views_of};
