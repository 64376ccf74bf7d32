use money::{check_float_literal, split_tokens, Currency, MoneyError};

#[test]
fn float_literals_match_std() {
    let cases = [
        "1", "-1", "+1", "1.", ".5", "-.5", "+0.25", ".", "", "+", "-", "e5", "1e5", "1E-5",
        "1e+7", "1e", "1e+", "1.5e3.2", "1ee5", "inf", "-INF", "+inf", "Infinity", "-iNfInItY",
        "infin", "nan", "NaN", "-nan", "nana", "1_000", "0x10", "1.2.3", "١", "12a", " 1", "1 ",
        "OneMillion", "Euro", "00012.3400", "1e0001",
    ];
    for s in cases {
        assert_eq!(
            check_float_literal(s),
            s.parse::<f32>().is_ok(),
            "literal {:?}",
            s
        );
    }
}

#[test]
fn tokens_match_std() {
    let cases = [
        "",
        " ",
        "a",
        " a  b ",
        "100 Euro",
        "a\tb\nc\rd",
        "x\u{a0}y\u{2003}z\u{3000}w",
        "x\u{200b}y",
        "\u{85}a\u{2028}b\u{2029}",
        "one  two   three",
    ];
    for s in cases {
        let ours: Vec<&str> = split_tokens(s);
        let std_tokens: Vec<&str> = s.split_whitespace().collect();
        assert_eq!(ours, std_tokens, "input {:?}", s);
    }
}

#[test]
fn lookup_of_lowercase_names() {
    assert_eq!(Currency::from_lowercase("dollar"), Ok(Currency::Dollar));
    assert_eq!(Currency::from_lowercase("$"), Ok(Currency::Dollar));
    assert_eq!(Currency::from_lowercase("euro"), Ok(Currency::Euro));
    assert_eq!(Currency::from_lowercase("eur"), Ok(Currency::Euro));
    assert_eq!(
        Currency::from_lowercase("Euro"),
        Err(MoneyError::ParseCurrency("Unknown currency".into()))
    );
    assert_eq!(
        Currency::from_lowercase(""),
        Err(MoneyError::ParseCurrency("Unknown currency".into()))
    );
}

#[test]
fn currency_parse_lowers_its_input() {
    assert_eq!(Currency::parse("EURO"), Ok(Currency::Euro));
    assert_eq!(Currency::parse("DoLLaR"), Ok(Currency::Dollar));
    assert_eq!("EUR".parse::<Currency>(), Ok(Currency::Euro));
    assert_eq!(
        Currency::parse("yen"),
        Err(MoneyError::ParseCurrency("Unknown currency".into()))
    );
}
