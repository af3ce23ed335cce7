use clusterflux_coordinator::environment::{
    environment_flag, environment_optional_u64, environment_u64, environment_u64_allow_zero,
    environment_usize, optional_environment, parse_number, relay_callback_address,
    relay_callback_bearer, required_environment_token, split_list, validate_database_url,
    validate_listener_security, validated_optional_token, EnvironmentValue,
};

fn set(value: &str) -> EnvironmentValue {
    EnvironmentValue::Text(value.to_owned())
}

fn broken() -> EnvironmentValue {
    EnvironmentValue::NotUnicode("environment variable was not valid unicode".to_owned())
}

fn is_loopback(address: &str) -> bool {
    address.starts_with("127.") || address.starts_with("[::1]:")
}

#[test]
fn local_trusted_mode_is_loopback_only() {
    assert!(validate_listener_security(is_loopback("127.0.0.1:0"), true).is_ok());
    assert!(validate_listener_security(is_loopback("[::1]:0"), true).is_ok());
    assert!(validate_listener_security(is_loopback("0.0.0.0:7999"), true).is_err());
    assert!(validate_listener_security(is_loopback("0.0.0.0:7999"), false).is_ok());
}

#[test]
fn numbers_are_read_as_the_standard_library_reads_them() {
    for text in [
        "0", "7", "+7", "007", "18446744073709551615", "18446744073709551616", "", "+", "-", "-1",
        " 1", "1_0", "12a", "99999999999999999999999999",
    ] {
        assert_eq!(
            parse_number(text, u64::MAX),
            text.parse::<u64>().map_err(|error| error.to_string()),
            "{text:?}"
        );
    }
}

#[test]
fn figures_have_defaults_and_bounds() {
    assert_eq!(environment_u64("N", 5, EnvironmentValue::Missing), Ok(5));
    assert_eq!(environment_u64("N", 5, set("9")), Ok(9));
    assert_eq!(environment_u64("N", 5, set("0")), Err("N must be positive".to_owned()));
    assert_eq!(environment_u64_allow_zero("N", 5, set("0")), Ok(0));
    assert_eq!(
        environment_u64("N", 5, set("x")),
        Err("N is invalid: invalid digit found in string".to_owned())
    );
    assert_eq!(environment_usize("N", 5, set("8")), Ok(8));
    assert_eq!(environment_usize("N", 5, set("0")), Err("N must be positive".to_owned()));
    assert_eq!(environment_optional_u64("N", Some(4), EnvironmentValue::Missing), Ok(Some(4)));
    for unlimited in ["", " ", "0", "none", " unlimited "] {
        assert_eq!(environment_optional_u64("N", Some(4), set(unlimited)), Ok(None));
    }
    assert_eq!(environment_optional_u64("N", Some(4), set("6")), Ok(Some(6)));
}

#[test]
fn flags_and_texts_are_read() {
    assert_eq!(environment_flag("F", EnvironmentValue::Missing), Ok(false));
    assert_eq!(environment_flag("F", set("false")), Ok(false));
    assert_eq!(environment_flag("F", set("0")), Ok(false));
    assert_eq!(environment_flag("F", set("1")), Ok(true));
    assert_eq!(environment_flag("F", set("true")), Ok(true));
    assert!(environment_flag("F", set("yes")).is_err());
    assert_eq!(
        optional_environment("T", broken()),
        Err("T must contain valid Unicode".to_owned())
    );
    assert_eq!(optional_environment("T", set("t")), Ok(Some("t".to_owned())));
}

#[test]
fn tokens_are_required_and_checked() {
    assert_eq!(
        required_environment_token("T", EnvironmentValue::Missing, Ok(())),
        Err("T must be configured".to_owned())
    );
    assert_eq!(
        required_environment_token("T", set("x"), Err("too short".to_owned())),
        Err("T is invalid: too short".to_owned())
    );
    assert_eq!(required_environment_token("T", set("x"), Ok(())), Ok("x".to_owned()));
    assert_eq!(validated_optional_token("T", EnvironmentValue::Missing, Ok(())), Ok(None));
}

#[test]
fn the_relay_callback_needs_a_bearer_and_a_loopback_address() {
    assert_eq!(relay_callback_address(set(" ")), Ok(None));
    assert_eq!(relay_callback_address(set("a")), Ok(Some("a".to_owned())));
    assert_eq!(relay_callback_bearer(set("b"), Ok(()), Ok(true)), Ok("b".to_owned()));
    assert_eq!(
        relay_callback_bearer(set("b"), Ok(()), Ok(false)),
        Err("CLUSTERFLUX_RELAY_ACCESS_CALLBACK_LISTEN must bind a loopback address".to_owned())
    );
    assert_eq!(
        relay_callback_bearer(set("b"), Ok(()), Err("no address".to_owned())),
        Err("CLUSTERFLUX_RELAY_ACCESS_CALLBACK_LISTEN is invalid: no address".to_owned())
    );
}

#[test]
fn a_database_address_is_not_blank() {
    assert!(validate_database_url(&None).is_ok());
    assert!(validate_database_url(&Some("postgres://".to_owned())).is_ok());
    assert!(validate_database_url(&Some("\t ".to_owned())).is_err());
}

#[test]
fn lists_are_split_at_commas_without_blank_parts() {
    assert_eq!(split_list(" a, ,b,"), vec!["a".to_owned(), "b".to_owned()]);
    assert!(split_list("").is_empty());
}
