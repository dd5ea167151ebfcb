//! The settings that both elements share, and what they have to hold for a session.

use vstd::prelude::*;

use crate::outside::url_parsed;

verus! {

/// What the user has set so far.
#[derive(Debug)]
pub struct Settings {
    /// Where to connect to.
    pub url: Option<String>,
    /// The name of the broadcast.
    pub broadcast: Option<String>,
    /// Whether the peer's certificate goes unverified.
    pub tls_disable_verify: bool,
}

/// The value of `Settings`.
pub struct SettingsView {
    pub url: Option<Seq<char>>,
    pub broadcast: Option<Seq<char>>,
    pub tls_disable_verify: bool,
}

/// The characters of a text, where there is one.
pub open spec fn text_view(text: Option<String>) -> Option<Seq<char>> {
    match text {
        Some(text) => Some(text@),
        None => None,
    }
}

impl View for Settings {
    type V = SettingsView;

    open spec fn view(&self) -> SettingsView {
        SettingsView {
            url: text_view(self.url),
            broadcast: text_view(self.broadcast),
            tls_disable_verify: self.tls_disable_verify,
        }
    }
}

/// Settings that are complete, with the URL parsed.
#[derive(Debug)]
pub struct ResolvedSettings {
    pub url: url::Url,
    pub broadcast: String,
    pub tls_disable_verify: bool,
}

/// Why settings cannot be used.
#[derive(Debug)]
pub enum SettingsError {
    /// No URL was set.
    MissingUrl,
    /// The text that was set is no URL.
    InvalidUrl(url::ParseError),
    /// No broadcast name was set.
    MissingBroadcast,
}

/// What settings resolve to, given what their URL parses to. The URL is looked at first: a
/// missing or malformed one is reported even where the broadcast is missing too.
pub open spec fn resolution(
    value: Settings,
    parsed: Result<url::Url, url::ParseError>,
) -> Result<ResolvedSettings, SettingsError> {
    match (value.url, parsed, value.broadcast) {
        (None, _, _) => Err(SettingsError::MissingUrl),
        (Some(_), Err(error), _) => Err(SettingsError::InvalidUrl(error)),
        (Some(_), Ok(_), None) => Err(SettingsError::MissingBroadcast),
        (Some(_), Ok(url), Some(broadcast)) => Ok(
            ResolvedSettings { url, broadcast, tls_disable_verify: value.tls_disable_verify },
        ),
    }
}

impl ResolvedSettings {
    /// Resolves settings whose URL has been parsed already.
    pub fn with_parsed_url(
        value: Settings,
        parsed: Result<url::Url, url::ParseError>,
    ) -> (resolved: Result<ResolvedSettings, SettingsError>)
        ensures
            resolved == resolution(value, parsed),
    {
        if value.url.is_none() {
            return Err(SettingsError::MissingUrl);
        }
        match parsed {
            Err(error) => Err(SettingsError::InvalidUrl(error)),
            Ok(url) => match value.broadcast {
                None => Err(SettingsError::MissingBroadcast),
                Some(broadcast) => Ok(
                    ResolvedSettings {
                        url,
                        broadcast,
                        tls_disable_verify: value.tls_disable_verify,
                    },
                ),
            },
        }
    }
}

impl vstd::std_specs::convert::TryFromSpecImpl<Settings> for ResolvedSettings {
    open spec fn obeys_try_from_spec() -> bool {
        true
    }

    open spec fn try_from_spec(value: Settings) -> Result<ResolvedSettings, SettingsError> {
        resolution(value, url_parsed(value.url->0@))
    }
}

impl TryFrom<Settings> for ResolvedSettings {
    type Error = SettingsError;

    fn try_from(value: Settings) -> (resolved: Result<ResolvedSettings, SettingsError>) {
        match &value.url {
            None => Err(SettingsError::MissingUrl),
            Some(url) => {
                let parsed = url::Url::parse(url.as_str());
                ResolvedSettings::with_parsed_url(value, parsed)
            },
        }
    }
}

impl SettingsError {
    /// The message that reports the error.
    pub fn message(&self) -> (message: String)
        ensures
            *self is MissingUrl ==> message@ == "url property is required"@,
            *self is MissingBroadcast ==> message@ == "broadcast property is required"@,
            *self matches SettingsError::InvalidUrl(error)
                ==> vstd::string::to_string_from_display_ensures(&error, message),
    {
        match self {
            SettingsError::MissingUrl => "url property is required".to_string(),
            SettingsError::InvalidUrl(error) => error.to_string(),
            SettingsError::MissingBroadcast => "broadcast property is required".to_string(),
        }
    }
}

impl Default for Settings {
    fn default() -> (settings: Settings)
        ensures
            settings@ == (SettingsView {
                url: None,
                broadcast: None,
                tls_disable_verify: false,
            }),
            settings.url is None && settings.broadcast is None && !settings.tls_disable_verify,
    {
        Settings { url: None, broadcast: None, tls_disable_verify: false }
    }
}

impl Clone for Settings {
    fn clone(&self) -> (copy: Settings)
        ensures
            copy == *self,
    {
        Settings {
            url: self.url.clone(),
            broadcast: self.broadcast.clone(),
            tls_disable_verify: self.tls_disable_verify,
        }
    }
}

/// Settings resolve if and only if a URL and a broadcast are set and the URL parses; and then
/// nothing of them is lost.
pub proof fn law_complete_settings_resolve(
    value: Settings,
    parsed: Result<url::Url, url::ParseError>,
)
    ensures
        resolution(value, parsed) is Ok <==> value.url is Some && parsed is Ok
            && value.broadcast is Some,
        resolution(value, parsed) matches Ok(resolved) ==> resolved.url == parsed->Ok_0
            && value@.broadcast == Some(resolved.broadcast@) && resolved.tls_disable_verify
            == value.tls_disable_verify,
        resolution(value, parsed) matches Ok(resolved) ==> value.broadcast == Some(
            resolved.broadcast,
        ),
{
}

/// Settings that do not resolve are refused for the first thing that is wrong with them: that no
/// URL is set, then that the one which is set does not parse, then that no broadcast is set.
pub proof fn law_refused_settings_say_why(
    value: Settings,
    parsed: Result<url::Url, url::ParseError>,
)
    ensures
        match resolution(value, parsed) {
            Err(SettingsError::MissingUrl) => value.url is None,
            Err(SettingsError::InvalidUrl(error)) => value.url is Some && parsed == Err::<
                url::Url,
                url::ParseError,
            >(error),
            Err(SettingsError::MissingBroadcast) => value.url is Some && parsed is Ok
                && value.broadcast is None,
            Ok(_) => value.url is Some && parsed is Ok && value.broadcast is Some,
        },
{
}

/// The URL of settings is what the text that was set for it parses to, and the rest is taken over
/// as it is.
pub proof fn law_settings_resolve_from_their_text(value: Settings)
    ensures
        <ResolvedSettings as vstd::std_specs::convert::TryFromSpec<Settings>>::obeys_try_from_spec(),
        match <ResolvedSettings as vstd::std_specs::convert::TryFromSpec<Settings>>::try_from_spec(value) {
            Ok(resolved) => value.url is Some && url_parsed(value.url->0@) == Ok::<
                url::Url,
                url::ParseError,
            >(resolved.url) && value.broadcast == Some(resolved.broadcast)
                && resolved.tls_disable_verify == value.tls_disable_verify,
            Err(SettingsError::MissingUrl) => value.url is None,
            Err(SettingsError::InvalidUrl(error)) => value.url is Some && url_parsed(value.url->0@)
                == Err::<url::Url, url::ParseError>(error),
            Err(SettingsError::MissingBroadcast) => value.url is Some && url_parsed(
                value.url->0@,
            ) is Ok && value.broadcast is None,
        },
{
}

/// The value of settings has what each of them holds, in its own place.
pub proof fn law_settings_value_has_every_setting(settings: Settings)
    ensures
        settings@.url is Some <==> settings.url is Some,
        settings.url matches Some(url) ==> settings@.url == Some(url@),
        settings@.broadcast is Some <==> settings.broadcast is Some,
        settings.broadcast matches Some(broadcast) ==> settings@.broadcast == Some(broadcast@),
        settings@.tls_disable_verify == settings.tls_disable_verify,
{
}

} // verus!
