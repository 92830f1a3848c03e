//! The settings that the application takes from its environment.
//!
//! The host looks each variable up and hands over what it found: `Some` with
//! the value, or `None` where the variable is not set or is not text. What is
//! made of it is decided here: a setting that is missing or empty falls back
//! on its default, and a service counts as available when its key is set to
//! something.

use vstd::prelude::*;

verus! {

/// The address of the media server where none is configured.
pub open spec fn default_plex_server_url() -> Seq<char> {
    "http://localhost:32400"@
}

/// The address of the application where none is configured.
pub open spec fn default_app_url() -> Seq<char> {
    "http://localhost:3000"@
}

/// The value of a variable, or the empty text where it is not set.
pub open spec fn value_or_empty(value: Option<Seq<char>>) -> Seq<char> {
    match value {
        Some(text) => text,
        None => Seq::empty(),
    }
}

/// The value of a variable, or `default` where it is not set or is empty.
pub open spec fn value_or_default(value: Option<Seq<char>>, default: Seq<char>) -> Seq<char> {
    match value {
        Some(text) => if text.len() == 0 {
            default
        } else {
            text
        },
        None => default,
    }
}

/// Whether a variable is set to something.
pub open spec fn is_set(value: Option<Seq<char>>) -> bool {
    match value {
        Some(text) => text.len() > 0,
        None => false,
    }
}

/// What was found of a variable, as a sequence of characters.
pub open spec fn found(value: Option<String>) -> Option<Seq<char>> {
    match value {
        Some(text) => Some(text@),
        None => None,
    }
}

/// The configuration that the application runs with.
#[derive(Debug, PartialEq, Eq)]
pub struct AppConfig {
    /// Where the media server is.
    pub plex_server_url: String,
    /// Where the application itself is served.
    pub app_url: String,
    /// Whether a key for the OpenRouter service is set.
    pub openrouter_available: bool,
    /// Whether a key for the Last.fm service is set.
    pub lastfm_available: bool,
}

/// An `AppConfig` with its addresses as sequences of characters.
pub struct AppConfigView {
    pub plex_server_url: Seq<char>,
    pub app_url: Seq<char>,
    pub openrouter_available: bool,
    pub lastfm_available: bool,
}

impl View for AppConfig {
    type V = AppConfigView;

    open spec fn view(&self) -> AppConfigView {
        AppConfigView {
            plex_server_url: self.plex_server_url@,
            app_url: self.app_url@,
            openrouter_available: self.openrouter_available,
            lastfm_available: self.lastfm_available,
        }
    }
}

/// The value of an environment variable as the application sees it: what the
/// variable is set to, or the empty text where it is not set.
pub fn get_env_var(value: Option<String>) -> (text: String)
    ensures
        text@ == value_or_empty(found(value)),
{
    match value {
        Some(text) => text,
        None => String::new(),
    }
}

/// A setting taken from a variable: what the variable is set to, or
/// `default` where it is not set or is set to nothing.
pub fn setting_or_default(value: Option<String>, default: &str) -> (text: String)
    ensures
        text@ == value_or_default(found(value), default@),
{
    match value {
        Some(text) => {
            if text.as_str().is_empty() {
                String::from_str(default)
            } else {
                text
            }
        },
        None => String::from_str(default),
    }
}

/// Whether a variable is set to something: a key that is missing or empty
/// makes its service unavailable.
pub fn setting_is_set(value: &Option<String>) -> (set: bool)
    ensures
        set == is_set(found(*value)),
{
    match value {
        Some(text) => !text.as_str().is_empty(),
        None => false,
    }
}

/// The application's configuration, from what was found of the variables
/// `PLEX_SERVER_URL`, `APP_URL`, `OPENROUTER_API_KEY` and `LASTFM_API_KEY`.
pub fn get_app_config(
    plex_server_url: Option<String>,
    app_url: Option<String>,
    openrouter_api_key: Option<String>,
    lastfm_api_key: Option<String>,
) -> (config: AppConfig)
    ensures
        config@ == (AppConfigView {
            plex_server_url: value_or_default(found(plex_server_url), default_plex_server_url()),
            app_url: value_or_default(found(app_url), default_app_url()),
            openrouter_available: is_set(found(openrouter_api_key)),
            lastfm_available: is_set(found(lastfm_api_key)),
        }),
{
    let openrouter_available = setting_is_set(&openrouter_api_key);
    let lastfm_available = setting_is_set(&lastfm_api_key);
    AppConfig {
        plex_server_url: setting_or_default(plex_server_url, "http://localhost:32400"),
        app_url: setting_or_default(app_url, "http://localhost:3000"),
        openrouter_available,
        lastfm_available,
    }
}

} // verus!
