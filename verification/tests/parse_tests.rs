use perfmode::model::{Error, Operation, Operator};
use perfmode::parse::{parse_args, parse_fan_args, parse_led_args, parse_thermal_args};

fn argv(tokens: &[&str]) -> Vec<String> {
    tokens.iter().map(|t| t.to_string()).collect()
}

#[test]
fn no_args_defaults_to_help() {
    assert_eq!(
        parse_args(&argv(&["perfmode"])),
        Ok((Operator::Help, Operation::Get))
    );
    assert_eq!(parse_args(&argv(&[])), Ok((Operator::Help, Operation::Get)));
}

#[test]
fn no_args_matches_explicit_help() {
    let implicit = parse_args(&argv(&["perfmode"]));
    let explicit = parse_args(&argv(&["perfmode", "-help"]));
    let short = parse_args(&argv(&["perfmode", "-h"]));
    assert_eq!(implicit, explicit);
    assert_eq!(implicit, short);
    assert_eq!(explicit, Ok((Operator::Help, Operation::Get)));
}

#[test]
fn unrecognized_flag_is_invalid_arguments() {
    assert_eq!(
        parse_args(&argv(&["perfmode", "-bogus"])),
        Err(Error::InvalidArgv)
    );
    assert_eq!(
        parse_args(&argv(&["perfmode", "fan"])),
        Err(Error::InvalidArgv)
    );
    assert_eq!(
        parse_args(&argv(&["perfmode", ""])),
        Err(Error::InvalidArgv)
    );
}

#[test]
fn subsystem_flag_without_second_token_is_invalid_arguments() {
    assert_eq!(
        parse_args(&argv(&["perfmode", "-fan"])),
        Err(Error::InvalidArgv)
    );
    assert_eq!(
        parse_args(&argv(&["perfmode", "-thermal"])),
        Err(Error::InvalidArgv)
    );
    assert_eq!(
        parse_args(&argv(&["perfmode", "-led"])),
        Err(Error::InvalidArgv)
    );
}

#[test]
fn fan_tokens_long_and_short() {
    for (token, operation) in [
        ("silent", Operation::Silent),
        ("s", Operation::Silent),
        ("balanced", Operation::Balanced),
        ("b", Operation::Balanced),
        ("turbo", Operation::Turbo),
        ("t", Operation::Turbo),
        ("get", Operation::Get),
        ("g", Operation::Get),
    ] {
        assert_eq!(parse_fan_args(token), Ok((Operator::Fan, operation)));
        assert_eq!(
            parse_args(&argv(&["perfmode", "-fan", token])),
            Ok((Operator::Fan, operation))
        );
        assert_eq!(
            parse_args(&argv(&["perfmode", "-f", token])),
            Ok((Operator::Fan, operation))
        );
    }
    assert_eq!(parse_fan_args("max"), Err(Error::InvalidArgv));
    assert_eq!(parse_fan_args("Silent"), Err(Error::InvalidArgv));
}

#[test]
fn thermal_tokens_long_and_short() {
    for (token, operation) in [
        ("silent", Operation::Silent),
        ("s", Operation::Silent),
        ("default", Operation::Default),
        ("df", Operation::Default),
        ("overboost", Operation::Overboost),
        ("ob", Operation::Overboost),
        ("get", Operation::Get),
        ("g", Operation::Get),
    ] {
        assert_eq!(parse_thermal_args(token), Ok((Operator::Thermal, operation)));
        assert_eq!(
            parse_args(&argv(&["perfmode", "-thermal", token])),
            Ok((Operator::Thermal, operation))
        );
        assert_eq!(
            parse_args(&argv(&["perfmode", "-t", token])),
            Ok((Operator::Thermal, operation))
        );
    }
    assert_eq!(parse_thermal_args("balanced"), Err(Error::InvalidArgv));
}

#[test]
fn led_tokens() {
    for (token, operation) in [
        ("off", Operation::Off),
        ("min", Operation::Min),
        ("med", Operation::Med),
        ("max", Operation::Max),
        ("get", Operation::Get),
        ("g", Operation::Get),
    ] {
        assert_eq!(parse_led_args(token), Ok((Operator::Led, operation)));
        assert_eq!(
            parse_args(&argv(&["perfmode", "-led", token])),
            Ok((Operator::Led, operation))
        );
        assert_eq!(
            parse_args(&argv(&["perfmode", "-l", token])),
            Ok((Operator::Led, operation))
        );
    }
    assert_eq!(parse_led_args("o"), Err(Error::InvalidArgv));
    assert_eq!(parse_led_args("OFF"), Err(Error::InvalidArgv));
}

#[test]
fn tokens_are_case_sensitive_and_untrimmed() {
    assert_eq!(
        parse_args(&argv(&["perfmode", "-FAN", "turbo"])),
        Err(Error::InvalidArgv)
    );
    assert_eq!(
        parse_args(&argv(&["perfmode", "-fan", " turbo"])),
        Err(Error::InvalidArgv)
    );
}
