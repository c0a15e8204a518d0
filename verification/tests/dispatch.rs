use shapeshift_rs::{dispatch, help_text, Command, Plan};

/// Everything one invocation writes before (and instead of) a response:
/// the diagnostic, then the help text if it is shown.
fn local_output(p: &Plan) -> String {
    let mut s = String::new();
    if let Some(n) = &p.notice {
        s.push_str(n);
    }
    if p.show_help {
        s.push_str(&help_text());
    }
    s
}

#[test]
fn get_online_selects_online_coins() {
    let p = dispatch(Some("get_online"));
    assert_eq!(p.command, Command::GetOnline);
    assert_eq!(p.url.as_deref(), Some("https://shapeshift.io/onlinecoins"));
    assert!(p.notice.is_none());
    assert!(!p.show_help);
}

#[test]
fn get_offline_selects_offline_coins() {
    let p = dispatch(Some("get_offline"));
    assert_eq!(p.command, Command::GetOffline);
    assert_eq!(p.url.as_deref(), Some("https://shapeshift.io/offlinecoins"));
    assert!(p.notice.is_none());
    assert!(!p.show_help);
}

#[test]
fn get_coins_selects_coins() {
    let p = dispatch(Some("get_coins"));
    assert_eq!(p.command, Command::GetCoins);
    assert_eq!(p.url.as_deref(), Some("https://shapeshift.io/getcoins"));
    assert!(p.notice.is_none());
    assert!(!p.show_help);
}

#[test]
fn valid_pairs_selects_pairs() {
    let p = dispatch(Some("valid_pairs"));
    assert_eq!(p.command, Command::ValidPairs);
    assert_eq!(p.url.as_deref(), Some("https://shapeshift.io/validpairs"));
    assert!(p.notice.is_none());
    assert!(!p.show_help);
}

#[test]
fn help_selects_help_alone() {
    let p = dispatch(Some("help"));
    assert_eq!(p.command, Command::Help);
    assert!(p.url.is_none());
    assert!(p.notice.is_none());
    assert!(p.show_help);
}

#[test]
fn each_recognized_token_selects_exactly_one_action() {
    for token in ["get_online", "get_offline", "get_coins", "valid_pairs", "help"] {
        let p = dispatch(Some(token));
        assert_ne!(p.command, Command::Unknown);
        assert_eq!(p.url.is_some(), !p.show_help);
    }
}

#[test]
fn unknown_token_prints_diagnostic_then_full_help() {
    let p = dispatch(Some("foobar"));
    assert_eq!(p.command, Command::Unknown);
    assert_eq!(p.notice.as_deref(), Some("Invalid command: foobar\n"));
    assert!(p.url.is_none());
    assert!(p.show_help);
    let expected = format!("Invalid command: foobar\n{}", help_text());
    assert_eq!(local_output(&p), expected);
}

#[test]
fn missing_argument_output_matches_help_byte_for_byte() {
    let none = dispatch(None);
    let help = dispatch(Some("help"));
    assert!(none.url.is_none());
    assert!(help.url.is_none());
    assert_eq!(local_output(&none), local_output(&help));
}

#[test]
fn from_token_parses_every_command() {
    assert_eq!(Command::from_token("get_online"), Command::GetOnline);
    assert_eq!(Command::from_token("get_offline"), Command::GetOffline);
    assert_eq!(Command::from_token("get_coins"), Command::GetCoins);
    assert_eq!(Command::from_token("valid_pairs"), Command::ValidPairs);
    assert_eq!(Command::from_token("help"), Command::Help);
    assert_eq!(Command::from_token(""), Command::Unknown);
    assert_eq!(Command::from_token("get_onlinee"), Command::Unknown);
    assert_eq!(Command::from_token("GET_ONLINE"), Command::Unknown);
}
