use money::{Currency, Money, MoneyError};

fn amount_of(m: &Money) -> f32 {
    m.amount().parse::<f32>().unwrap()
}

#[test]
fn test_errors() {
    assert_eq!(
        "140.01".parse::<Money>(),
        Err(MoneyError::ParseFormatting(
            "Expecting amount and currency".into()
        ))
    );

    let result = "OneMillion Euro".parse::<Money>();
    assert!(result.is_err());
}

#[test]
fn test_successful_parsing() {
    let testcases = vec![
        ("100 Euro", 100.0, Currency::Euro),
        ("10 $", 10.0, Currency::Dollar),
        ("42.4 DOLLAR", 42.4, Currency::Dollar),
    ];

    for (input, amount, currency) in testcases {
        let m = input.parse::<Money>().unwrap();
        assert_eq!(amount_of(&m), amount);
        assert_eq!(m.currency(), currency);
    }
}

#[test]
fn wrong_token_counts_are_formatting_errors() {
    let expected = Err(MoneyError::ParseFormatting(
        "Expecting amount and currency".into(),
    ));
    for input in ["", "   ", "140.01", "Euro", "1 Euro extra", "1 2 3 4", " \t\n "] {
        assert_eq!(Money::parse(input), expected, "input {:?}", input);
    }
}

#[test]
fn formatting_is_checked_before_amount() {
    assert_eq!(
        Money::parse("x y z"),
        Err(MoneyError::ParseFormatting(
            "Expecting amount and currency".into()
        ))
    );
}

#[test]
fn invalid_amounts_are_amount_errors() {
    for input in [
        "OneMillion Euro",
        "1,000 $",
        "1.2.3 eur",
        "1e $",
        ". euro",
        "0x10 dollar",
        "1_000 euro",
    ] {
        assert_eq!(
            Money::parse(input),
            Err(MoneyError::ParseAmount("invalid float literal".into())),
            "input {:?}",
            input
        );
    }
}

#[test]
fn amount_is_checked_before_currency() {
    assert_eq!(
        Money::parse("abc xyz"),
        Err(MoneyError::ParseAmount("invalid float literal".into()))
    );
}

#[test]
fn order_of_fields_is_fixed() {
    let r = Money::parse("Euro 100");
    assert!(r.is_err());
    assert_eq!(
        r,
        Err(MoneyError::ParseAmount("invalid float literal".into()))
    );
}

#[test]
fn unknown_currencies_are_currency_errors() {
    for input in ["10 pounds", "10 usd", "10 dollars", "10 €", "10 e", "10 euros"] {
        assert_eq!(
            Money::parse(input),
            Err(MoneyError::ParseCurrency("Unknown currency".into())),
            "input {:?}",
            input
        );
    }
}

#[test]
fn currency_names_ignore_case() {
    for input in ["5 eur", "5 EUR", "5 Euro", "5 eUrO"] {
        let m = Money::parse(input).unwrap();
        assert_eq!(amount_of(&m), 5.0);
        assert_eq!(m.currency(), Currency::Euro);
    }
    for input in ["7 dollar", "7 Dollar", "7 DOLLAR", "7 $"] {
        let m = Money::parse(input).unwrap();
        assert_eq!(amount_of(&m), 7.0);
        assert_eq!(m.currency(), Currency::Dollar);
    }
}

#[test]
fn parsing_twice_gives_equal_results() {
    for input in ["100 Euro", "42.4 DOLLAR", "140.01", "OneMillion Euro", "10 pounds"] {
        assert_eq!(Money::parse(input), Money::parse(input));
    }
}

#[test]
fn amount_keeps_its_literal() {
    let m = Money::parse("  -12.50e1 \t eur\n").unwrap();
    assert_eq!(m.amount(), "-12.50e1");
    assert_eq!(amount_of(&m), -125.0);
    assert_eq!(m.currency(), Currency::Euro);
}

#[test]
fn special_amounts_are_accepted() {
    let m = Money::parse("NaN euro").unwrap();
    assert!(amount_of(&m).is_nan());
    let m = Money::parse("-inf $").unwrap();
    assert_eq!(amount_of(&m), f32::NEG_INFINITY);
    let m = Money::parse("+Infinity dollar").unwrap();
    assert_eq!(amount_of(&m), f32::INFINITY);
}

#[test]
fn unusual_whitespace_separates_tokens() {
    let m = Money::parse("3\u{3000}euro").unwrap();
    assert_eq!(m.amount(), "3");
    assert_eq!(m.currency(), Currency::Euro);
    assert!(Money::parse("3\u{200b}euro").is_err());
}
