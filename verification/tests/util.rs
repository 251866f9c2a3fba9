use passgen::util::{password_length_validator, pin_length_validator};

#[test]
fn test_password_length_validator() {
    assert!(password_length_validator("7").is_err());
    assert!(password_length_validator("8").is_ok());
    assert!(password_length_validator("99").is_ok());
    assert!(password_length_validator("101").is_err());
    assert!(password_length_validator("test").is_err());
}

#[test]
fn test_pin_length_validator() {
    assert!(pin_length_validator("3").is_err());
    assert!(pin_length_validator("4").is_ok());
    assert!(pin_length_validator("10").is_ok());
    assert!(pin_length_validator("13").is_err());
    assert!(pin_length_validator("test").is_err());
}

#[test]
fn password_length_validator_accepts_exactly_8_to_100() {
    for n in 0u32..=300 {
        let answer = password_length_validator(&n.to_string());
        if (8..=100).contains(&n) {
            assert_eq!(answer, Ok(n));
        } else {
            assert_eq!(answer, Err("The number must be between 8 and 100".to_string()));
        }
    }
}

#[test]
fn pin_length_validator_accepts_exactly_4_to_12() {
    for n in 0u32..=300 {
        let answer = pin_length_validator(&n.to_string());
        if (4..=12).contains(&n) {
            assert_eq!(answer, Ok(n));
        } else {
            assert_eq!(answer, Err("The number must be between 4 and 12".to_string()));
        }
    }
}

#[test]
fn validators_return_the_number_written() {
    assert_eq!(password_length_validator("8"), Ok(8));
    assert_eq!(password_length_validator("100"), Ok(100));
    assert_eq!(password_length_validator("+12"), Ok(12));
    assert_eq!(password_length_validator("0012"), Ok(12));
    assert_eq!(pin_length_validator("4"), Ok(4));
    assert_eq!(pin_length_validator("12"), Ok(12));
    assert_eq!(pin_length_validator("+6"), Ok(6));
}

#[test]
fn validators_refuse_what_is_not_an_integer() {
    let not_an_integer = Err("Value must be an integer".to_string());
    for text in ["", "+", "-8", "-", " 8", "8 ", "1_0", "8.0", "0x10", "ten", "++8", "8+", "٨"] {
        assert_eq!(password_length_validator(text), not_an_integer, "{:?}", text);
        assert_eq!(pin_length_validator(text), not_an_integer, "{:?}", text);
    }
}

#[test]
fn validators_refuse_large_integers_for_their_value() {
    let password_range = Err("The number must be between 8 and 100".to_string());
    let pin_range = Err("The number must be between 4 and 12".to_string());
    let huge = "9".repeat(1000);
    let padded = format!("+{}", "0".repeat(50) + "4294967296");
    for text in [
        "4294967295",
        "4294967296",
        "+4294967296",
        "99999999999999999999",
        "18446744073709551616",
        huge.as_str(),
        padded.as_str(),
    ] {
        assert_eq!(password_length_validator(text), password_range, "{:?}", text);
        assert_eq!(pin_length_validator(text), pin_range, "{:?}", text);
    }
}

#[test]
fn validators_refuse_large_texts_that_are_no_integers() {
    let not_an_integer = Err("Value must be an integer".to_string());
    for text in [
        "4294967296x",
        "-4294967296",
        "42949 67296",
        "99999999999999999999.0",
        "+",
        "++4294967296",
        "4294967296+",
        "９９９９９９９９９９９９",
        "1e100",
    ] {
        assert_eq!(password_length_validator(text), not_an_integer, "{:?}", text);
        assert_eq!(pin_length_validator(text), not_an_integer, "{:?}", text);
    }
}

#[test]
fn validators_read_leading_zeros_as_part_of_the_number() {
    let zeros = "0".repeat(40);
    assert_eq!(password_length_validator(&format!("{}64", zeros)), Ok(64));
    assert_eq!(pin_length_validator(&format!("+{}7", zeros)), Ok(7));
    assert_eq!(
        password_length_validator(&zeros),
        Err("The number must be between 8 and 100".to_string())
    );
    assert_eq!(
        pin_length_validator("0"),
        Err("The number must be between 4 and 12".to_string())
    );
}
