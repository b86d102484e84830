use tunnelit_agent::config::{relay_url, resolve_relay, resolve_token, settings_location, AgentConfig, SettingsLocation};
use tunnelit_agent::text::{push_decimal, trim_text};

#[test]
fn default_config_has_no_token_and_the_public_relay() {
    let cfg = AgentConfig::default();
    assert_eq!(cfg.token, None);
    assert_eq!(cfg.relay.as_deref(), Some("wss://ws.ezbchat.fun/ws"));
}

#[test]
fn command_line_token_wins_and_is_trimmed() {
    let t = resolve_token(Some("  abc123 \n".to_string()), Some("saved".to_string()));
    assert_eq!(t.as_deref(), Some("abc123"));
}

#[test]
fn saved_token_is_used_without_command_line_token() {
    let t = resolve_token(None, Some("\tsaved-token".to_string()));
    assert_eq!(t.as_deref(), Some("saved-token"));
}

#[test]
fn blank_token_is_dropped() {
    assert_eq!(resolve_token(Some("   ".to_string()), Some("saved".to_string())), None);
    assert_eq!(resolve_token(Some(String::new()), None), None);
    assert_eq!(resolve_token(None, None), None);
}

#[test]
fn placeholder_token_is_dropped() {
    assert_eq!(resolve_token(Some("YOUR_TOKEN_HERE".to_string()), None), None);
}

#[test]
fn placeholder_with_spaces_is_accepted_once_then_refused() {
    let first = resolve_token(Some(" YOUR_TOKEN_HERE ".to_string()), None);
    assert_eq!(first.as_deref(), Some("YOUR_TOKEN_HERE"));
    assert_eq!(resolve_token(first, None), None);
}

#[test]
fn accepted_token_is_stable() {
    let first = resolve_token(Some("\u{3000} tok en \u{2003}".to_string()), None);
    assert_eq!(first.as_deref(), Some("tok en"));
    let second = resolve_token(first.clone(), None);
    assert_eq!(second, first);
}

#[test]
fn relay_precedence() {
    assert_eq!(resolve_relay(Some("ws://a/ws".to_string()), Some("ws://b/ws".to_string())), "ws://a/ws");
    assert_eq!(resolve_relay(None, Some("ws://b/ws".to_string())), "ws://b/ws");
    assert_eq!(resolve_relay(None, None), "wss://ws.ezbchat.fun/ws");
}

#[test]
fn relay_url_parses_the_chosen_relay() {
    let url = relay_url(Some("ws://127.0.0.1:9090/ws".to_string()), None).unwrap();
    assert_eq!(url.as_str(), "ws://127.0.0.1:9090/ws");
    let default = relay_url(None, None).unwrap();
    assert_eq!(default.as_str(), "wss://ws.ezbchat.fun/ws");
}

#[test]
fn invalid_relay_url_is_reported_with_its_text() {
    let err = relay_url(None, Some("not a url".to_string())).unwrap_err();
    assert_eq!(err.text, "not a url");
    assert_eq!(err.reason, url::ParseError::RelativeUrlWithoutBase);
}

#[test]
fn trim_matches_std_trim() {
    for s in ["", "   ", " a ", "\u{85}x\u{a0}", "\u{1680}\u{2028}y z\u{202f}\u{205f}", "no-space", "\u{200b}a\u{200b}"] {
        assert_eq!(trim_text(s), s.trim(), "input {:?}", s);
    }
}

#[test]
fn decimal_rendering() {
    for n in [0u16, 7, 10, 99, 100, 25565, 65535] {
        let mut out = String::from("p=");
        push_decimal(&mut out, n);
        assert_eq!(out, format!("p={}", n));
    }
}

#[test]
fn settings_live_under_home() {
    match settings_location(Some("/home/u".to_string()), Some("C:/Users/u".to_string())) {
        SettingsLocation::InHome { home, dirs, file } => {
            assert_eq!(home, "/home/u");
            assert_eq!(dirs, vec![".config".to_string(), "tunnelit".to_string()]);
            assert_eq!(file, "agent.json");
        }
        SettingsLocation::InWorkingDir { .. } => panic!("home was given"),
    }
}

#[test]
fn settings_fall_back_to_second_home_then_working_dir() {
    match settings_location(None, Some("C:/Users/u".to_string())) {
        SettingsLocation::InHome { home, .. } => assert_eq!(home, "C:/Users/u"),
        SettingsLocation::InWorkingDir { .. } => panic!("a home was given"),
    }
    match settings_location::<String>(None, None) {
        SettingsLocation::InWorkingDir { file } => assert_eq!(file, "tunnelit-agent.json"),
        SettingsLocation::InHome { .. } => panic!("no home was given"),
    }
}
