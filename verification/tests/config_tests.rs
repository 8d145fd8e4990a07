use batstat::config::{config_from_parts, parse_cli, CliError, PollConfig, DEFAULT_POLL_INTERVAL};

fn args(list: &[&str]) -> Vec<String> {
    list.iter().map(|s| s.to_string()).collect()
}

#[test]
fn no_arguments_means_a_single_poll() {
    let c = parse_cli(&args(&[])).unwrap();
    assert!(!c.continuous);
}

#[test]
fn short_flag_alone_defaults_the_interval() {
    let c = parse_cli(&args(&["-c"])).unwrap();
    assert_eq!(
        c,
        PollConfig { continuous: true, interval_secs: DEFAULT_POLL_INTERVAL }
    );
}

#[test]
fn long_flag_alone_defaults_the_interval() {
    let c = parse_cli(&args(&["--continuous"])).unwrap();
    assert_eq!(c, PollConfig { continuous: true, interval_secs: 1 });
}

#[test]
fn short_flag_with_attached_interval() {
    let c = parse_cli(&args(&["-c5"])).unwrap();
    assert_eq!(c, PollConfig { continuous: true, interval_secs: 5 });
}

#[test]
fn long_flag_with_attached_interval() {
    let c = parse_cli(&args(&["--continuous=30"])).unwrap();
    assert_eq!(c, PollConfig { continuous: true, interval_secs: 30 });
}

#[test]
fn short_flag_takes_a_following_word_as_interval() {
    let c = parse_cli(&args(&["-c", "5"])).unwrap();
    assert_eq!(c, PollConfig { continuous: true, interval_secs: 5 });
}

#[test]
fn long_flag_does_not_take_a_following_word() {
    // The long form only takes a value attached with `=`; a following word is
    // a free argument, so the interval stays at its default.
    let c = parse_cli(&args(&["--continuous", "5"])).unwrap();
    assert_eq!(c, PollConfig { continuous: true, interval_secs: 1 });
}

#[test]
fn unrecognized_flag_is_rejected() {
    let r = parse_cli(&args(&["-x"]));
    assert!(matches!(r, Err(CliError::BadArguments { .. })));
    let r2 = parse_cli(&args(&["--bogus"]));
    assert!(matches!(r2, Err(CliError::BadArguments { .. })));
}

#[test]
fn non_numeric_interval_is_rejected() {
    let r = parse_cli(&args(&["-cabc"]));
    match r {
        Err(CliError::BadInterval { text }) => assert_eq!(text, "abc"),
        other => panic!("expected a bad-interval error, got {:?}", other.is_ok()),
    }
    assert!(matches!(
        parse_cli(&args(&["--continuous=2s"])),
        Err(CliError::BadInterval { .. })
    ));
}

#[test]
fn interval_zero_is_accepted() {
    let c = parse_cli(&args(&["-c0"])).unwrap();
    assert_eq!(c.interval_secs, 0);
}

#[test]
fn parts_without_the_flag_ignore_the_argument() {
    let c = config_from_parts(false, Some("junk".to_string())).unwrap();
    assert!(!c.continuous);
    assert_eq!(c.interval_secs, DEFAULT_POLL_INTERVAL);
}

#[test]
fn parts_with_the_flag_parse_the_argument() {
    let c = config_from_parts(true, Some(" 12 ".to_string())).unwrap();
    assert_eq!(c, PollConfig { continuous: true, interval_secs: 12 });
    assert!(matches!(
        config_from_parts(true, Some("one".to_string())),
        Err(CliError::BadInterval { .. })
    ));
}
