use speedtest::cli::{
    Args, ArgsError, FlagArg, Key, NumberError, ValueArg, DEFAULT_CONCURRENCY, DEFAULT_USER_AGENT,
};

fn argv(items: &[&str]) -> Vec<String> {
    items.iter().map(|s| s.to_string()).collect()
}

fn parse(items: &[&str]) -> Result<Args, ArgsError> {
    Args::try_parse_from(&argv(items))
}

fn parse_err(items: &[&str]) -> ArgsError {
    match parse(items) {
        Ok(_) => panic!("expected an error for {items:?}"),
        Err(e) => e,
    }
}

#[test]
fn display_flags_are_mutually_exclusive() {
    assert!(parse(&["SpeedTest", "--cli"]).unwrap().cli);
    assert!(parse(&["SpeedTest", "--tui"]).unwrap().tui);
    assert!(parse(&["SpeedTest", "--cli", "--tui"]).is_err());
}

#[test]
fn defaults_apply_when_nothing_is_given() {
    let args = parse(&["SpeedTest"]).unwrap();
    assert_eq!(args.url, "");
    assert_eq!(args.concurrency, DEFAULT_CONCURRENCY);
    assert_eq!(args.concurrency, 16);
    assert_eq!(args.ua, DEFAULT_USER_AGENT);
    assert!(!args.mainland && !args.overseas && !args.cli && !args.tui);
    let empty = Args::try_parse_from(&Vec::new()).unwrap();
    assert_eq!(empty.concurrency, 16);
}

#[test]
fn values_in_every_form() {
    let args = parse(&["SpeedTest", "--url", "https://example.com/a", "--concurrency", "8"]).unwrap();
    assert_eq!(args.url, "https://example.com/a");
    assert_eq!(args.concurrency, 8);
    let args = parse(&["SpeedTest", "--url=https://x/y=z", "-c=3", "--ua", "agent"]).unwrap();
    assert_eq!(args.url, "https://x/y=z");
    assert_eq!(args.concurrency, 3);
    assert_eq!(args.ua, "agent");
    let args = parse(&["SpeedTest", "-uhttp://h", "-c", "+12"]).unwrap();
    assert_eq!(args.url, "http://h");
    assert_eq!(args.concurrency, 12);
    let args = parse(&["SpeedTest", "-u", "-", "--mainland", "--overseas", "--"]).unwrap();
    assert_eq!(args.url, "-");
    assert!(args.mainland && args.overseas);
    let args = parse(&["SpeedTest", "--url="]).unwrap();
    assert_eq!(args.url, "");
}

#[test]
fn help_and_version_are_reported() {
    assert_eq!(parse_err(&["SpeedTest", "--help"]), ArgsError::DisplayHelp);
    assert_eq!(parse_err(&["SpeedTest", "-h"]), ArgsError::DisplayHelp);
    assert_eq!(parse_err(&["SpeedTest", "--cli", "--tui", "-h"]), ArgsError::DisplayHelp);
    assert_eq!(parse_err(&["SpeedTest", "-V"]), ArgsError::DisplayVersion);
    assert_eq!(parse_err(&["SpeedTest", "--version"]), ArgsError::DisplayVersion);
    assert_eq!(
        parse_err(&["SpeedTest", "--help=1"]),
        ArgsError::UnexpectedValue(Key::Help, "1".to_string())
    );
}

fn unknown(arg: &str) -> ArgsError {
    ArgsError::UnknownArgument(arg.to_string())
}

#[test]
fn each_error_kind_has_its_input() {
    assert_eq!(parse_err(&["SpeedTest", "--bogus"]), unknown("--bogus"));
    assert_eq!(parse_err(&["SpeedTest", "--bogus=3"]), unknown("--bogus"));
    assert_eq!(parse_err(&["SpeedTest", "-x"]), unknown("-x"));
    assert_eq!(parse_err(&["SpeedTest", "-xyz"]), unknown("-x"));
    assert_eq!(parse_err(&["SpeedTest", "stray"]), unknown("stray"));
    assert_eq!(parse_err(&["SpeedTest", "--", "--cli"]), unknown("--cli"));
    assert_eq!(parse_err(&["SpeedTest", "--url"]), ArgsError::MissingValue(ValueArg::Url));
    assert_eq!(parse_err(&["SpeedTest", "--url", "--cli"]), ArgsError::MissingValue(ValueArg::Url));
    assert_eq!(parse_err(&["SpeedTest", "-c", "-5"]), unknown("-5"));
    assert_eq!(
        parse_err(&["SpeedTest", "-c", "abc"]),
        ArgsError::InvalidNumber("abc".to_string(), NumberError::InvalidDigit)
    );
    assert_eq!(
        parse_err(&["SpeedTest", "-c", "99999999999999999999999"]),
        ArgsError::InvalidNumber("99999999999999999999999".to_string(), NumberError::TooLarge)
    );
    assert_eq!(
        parse_err(&["SpeedTest", "-c", "99999999999999999999x"]),
        ArgsError::InvalidNumber("99999999999999999999x".to_string(), NumberError::TooLarge)
    );
    assert_eq!(
        parse_err(&["SpeedTest", "-c", "+"]),
        ArgsError::InvalidNumber("+".to_string(), NumberError::InvalidDigit)
    );
    assert_eq!(
        parse_err(&["SpeedTest", "--concurrency="]),
        ArgsError::InvalidNumber(String::new(), NumberError::Empty)
    );
    assert_eq!(
        parse_err(&["SpeedTest", "--cli=yes"]),
        ArgsError::UnexpectedValue(Key::Flag(FlagArg::Cli), "yes".to_string())
    );
    assert_eq!(parse_err(&["SpeedTest", "--cli", "--cli"]), ArgsError::Repeated(Key::Flag(FlagArg::Cli)));
    assert_eq!(
        parse_err(&["SpeedTest", "-u", "a", "--url", "b"]),
        ArgsError::Repeated(Key::Value(ValueArg::Url))
    );
    assert_eq!(
        parse_err(&["SpeedTest", "--cli", "--tui"]),
        ArgsError::Conflict(FlagArg::Cli, FlagArg::Tui)
    );
    assert_eq!(
        parse_err(&["SpeedTest", "--tui", "--mainland", "--cli"]),
        ArgsError::Conflict(FlagArg::Tui, FlagArg::Cli)
    );
}

#[test]
fn the_first_problem_is_reported() {
    // the value of `-c` is settled before the next option is read
    assert_eq!(
        parse_err(&["SpeedTest", "-c", "abc", "--help"]),
        ArgsError::InvalidNumber("abc".to_string(), NumberError::InvalidDigit)
    );
    // an unknown option is reported before a repeated value is settled
    assert_eq!(parse_err(&["SpeedTest", "-c", "1", "-c", "2", "--bogus"]), unknown("--bogus"));
    assert_eq!(
        parse_err(&["SpeedTest", "-c", "1", "-c", "2"]),
        ArgsError::Repeated(Key::Value(ValueArg::Concurrency))
    );
}
