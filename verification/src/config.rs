//! The agent's saved settings and the rules that pick the token and the relay
//! from the command line and the saved settings.

use vstd::prelude::*;
use crate::text::{lemma_trim_idempotent, trim_seq, trim_text};

verus! {

/// The relay used when neither the command line nor the saved settings name one.
pub open spec fn default_relay() -> Seq<char> {
    "wss://ws.ezbchat.fun/ws"@
}

/// The token value that sample configurations carry; it is never used as a token.
pub open spec fn placeholder_token() -> Seq<char> {
    "YOUR_TOKEN_HERE"@
}

/// Settings saved between runs.
#[derive(Debug, Clone)]
pub struct AgentConfig {
    pub token: Option<String>,
    pub relay: Option<String>,
}

impl Default for AgentConfig {
    /// No token, and the default relay.
    fn default() -> (r: Self)
        ensures
            r.token is None,
            r.relay matches Some(relay) && relay@ == default_relay(),
    {
        AgentConfig { token: None, relay: Some("wss://ws.ezbchat.fun/ws".to_owned()) }
    }
}

/// The views of an optional string.
pub open spec fn opt_chars(s: Option<String>) -> Option<Seq<char>> {
    match s {
        Some(t) => Some(t@),
        None => None,
    }
}

/// The first of the two that is present.
pub open spec fn first_present(a: Option<Seq<char>>, b: Option<Seq<char>>) -> Option<Seq<char>> {
    match a {
        Some(x) => Some(x),
        None => b,
    }
}

/// A raw token is used, trimmed, when it is not blank and not the placeholder.
pub open spec fn accepted_token(raw: Seq<char>) -> Option<Seq<char>> {
    if trim_seq(raw).len() > 0 && raw != placeholder_token() {
        Some(trim_seq(raw))
    } else {
        None
    }
}

/// The token the agent runs with, from the command line or else the saved settings.
pub open spec fn chosen_token(arg: Option<Seq<char>>, saved: Option<Seq<char>>) -> Option<
    Seq<char>,
> {
    match first_present(arg, saved) {
        Some(raw) => accepted_token(raw),
        None => None,
    }
}

/// The relay the agent connects to: the command line, else the saved settings,
/// else the default relay.
pub open spec fn chosen_relay(arg: Option<Seq<char>>, saved: Option<Seq<char>>) -> Seq<char> {
    match first_present(arg, saved) {
        Some(relay) => relay,
        None => default_relay(),
    }
}

#[verifier::external_type_specification]
#[verifier::external_body]
pub struct ExUrl(url::Url);

#[verifier::external_type_specification]
#[verifier::external_body]
pub struct ExUrlParseError(url::ParseError);

/// Whether `url::Url::parse` accepts `text` as an absolute URL.
pub uninterp spec fn url_parse_accepts(text: Seq<char>) -> bool;

/// The URL that `url::Url::parse` builds from `text`, where it accepts it.
pub uninterp spec fn parsed_url(text: Seq<char>) -> url::Url;

/// Calls `url::Url::parse`, which depends on its text alone. Claims: it
/// succeeds exactly when the name `url_parse_accepts` holds of the text, and
/// the URL it returns is the one the name `parsed_url` gives for the text.
#[verifier::external_body]
fn parse_url(text: &str) -> (r: Result<url::Url, url::ParseError>)
    ensures
        r is Ok <==> url_parse_accepts(text@),
        r matches Ok(u) ==> u == parsed_url(text@),
{
    url::Url::parse(text)
}

/// A relay address that does not parse as an absolute URL.
#[derive(Debug)]
pub struct InvalidRelayUrl {
    /// The address as given.
    pub text: String,
    /// Why `url` refused it.
    pub reason: url::ParseError,
}

/// The relay to connect to (see [`resolve_relay`]), parsed as a URL.
pub fn relay_url(arg: Option<String>, saved: Option<String>) -> (r: Result<url::Url, InvalidRelayUrl>)
    ensures
        r is Ok <==> url_parse_accepts(chosen_relay(opt_chars(arg), opt_chars(saved))),
        r matches Ok(u) ==> u == parsed_url(chosen_relay(opt_chars(arg), opt_chars(saved))),
        r matches Err(e) ==> e.text@ == chosen_relay(opt_chars(arg), opt_chars(saved)),
{
    let text = resolve_relay(arg, saved);
    match parse_url(text.as_str()) {
        Ok(url) => Ok(url),
        Err(reason) => Err(InvalidRelayUrl { text, reason }),
    }
}

/// Where the settings file lives.
pub enum SettingsLocation<H> {
    /// `<home>/<dirs…>/<file>`: `~/.config/tunnelit/agent.json`.
    InHome { home: H, dirs: Vec<String>, file: String },
    /// `<file>` in the working directory: `tunnelit-agent.json`.
    InWorkingDir { file: String },
}

/// Places the settings file under the home directory (`home`, else
/// `fallback_home`) at `.config/tunnelit/agent.json`, or, with no home
/// directory, at `tunnelit-agent.json` in the working directory.
pub fn settings_location<H>(home: Option<H>, fallback_home: Option<H>) -> (r: SettingsLocation<H>)
    ensures
        match (if home is Some { home } else { fallback_home }) {
            Some(h) => r matches SettingsLocation::InHome { home: rh, dirs, file } && rh == h
                && dirs@.len() == 2 && dirs@[0]@ == ".config"@ && dirs@[1]@ == "tunnelit"@ && file@
                == "agent.json"@,
            None => r matches SettingsLocation::InWorkingDir { file } && file@
                == "tunnelit-agent.json"@,
        },
{
    let chosen = match home {
        Some(h) => Some(h),
        None => fallback_home,
    };
    match chosen {
        Some(h) => {
            let mut dirs: Vec<String> = Vec::new();
            dirs.push(".config".to_owned());
            dirs.push("tunnelit".to_owned());
            SettingsLocation::InHome { home: h, dirs, file: "agent.json".to_owned() }
        },
        None => SettingsLocation::InWorkingDir { file: "tunnelit-agent.json".to_owned() },
    }
}

/// Picks the token: the command-line one if given, else the saved one; it is
/// trimmed, and dropped when blank or equal to the placeholder.
pub fn resolve_token(arg: Option<String>, saved: Option<String>) -> (r: Option<String>)
    ensures
        opt_chars(r) == chosen_token(opt_chars(arg), opt_chars(saved)),
{
    let raw = match arg {
        Some(t) => Some(t),
        None => saved,
    };
    match raw {
        Some(t) => {
            let trimmed = trim_text(t.as_str());
            let placeholder = "YOUR_TOKEN_HERE".to_owned();
            if !trimmed.as_str().is_empty() && !(t == placeholder) {
                Some(trimmed)
            } else {
                None
            }
        },
        None => None,
    }
}

/// Picks the relay: the command-line one, else the saved one, else the default.
pub fn resolve_relay(arg: Option<String>, saved: Option<String>) -> (r: String)
    ensures
        r@ == chosen_relay(opt_chars(arg), opt_chars(saved)),
{
    match arg {
        Some(relay) => relay,
        None => match saved {
            Some(relay) => relay,
            None => "wss://ws.ezbchat.fun/ws".to_owned(),
        },
    }
}

/// Law: a token, once accepted, is accepted again unchanged: feeding the
/// agent the token it settled on gives the same token. The one exception is a
/// raw token that trims to the placeholder text (such as the placeholder with
/// spaces around it): that one is accepted once and refused the second time.
pub proof fn law_accepted_token_is_stable(raw: Seq<char>)
    requires
        accepted_token(raw) is Some,
        accepted_token(raw)->0 != placeholder_token(),
    ensures
        accepted_token(accepted_token(raw)->0) == accepted_token(raw),
{
    lemma_trim_idempotent(raw);
}

} // verus!
