use moq_gst::properties::PropertyValue;
use moq_gst::settings::{ResolvedSettings, Settings, SettingsError};
use moq_gst::sink::{start_error_message, MoqSink};
use moq_gst::source::MoqSrc;

type Source = MoqSrc<u32, u32, u32, u32>;
type Sink = MoqSink<u32, u32>;

fn settings(url: Option<&str>, broadcast: Option<&str>, tls_disable_verify: bool) -> Settings {
    Settings {
        url: url.map(|text| text.to_string()),
        broadcast: broadcast.map(|text| text.to_string()),
        tls_disable_verify,
    }
}

fn text(value: PropertyValue) -> Option<String> {
    match value {
        PropertyValue::Text(text) => text,
        PropertyValue::Flag(_) => panic!("not a text"),
    }
}

fn flag(value: PropertyValue) -> bool {
    match value {
        PropertyValue::Text(_) => panic!("not a flag"),
        PropertyValue::Flag(flag) => flag,
    }
}

#[test]
fn complete_settings_resolve_with_a_normalised_url() {
    let complete = settings(Some("HTTPS://Relay.Example.COM:443/a/../anon"), Some("bbb"), true);
    let resolved = ResolvedSettings::try_from(complete).unwrap();
    assert_eq!(resolved.url.as_str(), "https://relay.example.com/anon");
    assert_eq!(resolved.broadcast, "bbb");
    assert!(resolved.tls_disable_verify);
}

#[test]
fn missing_url_is_reported_first() {
    let error = ResolvedSettings::try_from(settings(None, None, false)).unwrap_err();
    assert!(matches!(error, SettingsError::MissingUrl));
    assert_eq!(error.message(), "url property is required");
    let error = ResolvedSettings::try_from(settings(None, Some("bbb"), false)).unwrap_err();
    assert!(matches!(error, SettingsError::MissingUrl));
}

#[test]
fn malformed_url_is_reported_before_a_missing_broadcast() {
    let error = ResolvedSettings::try_from(settings(Some("relay/anon"), None, false)).unwrap_err();
    match error {
        SettingsError::InvalidUrl(parse_error) => {
            assert_eq!(parse_error, url::ParseError::RelativeUrlWithoutBase);
        }
        _ => panic!("wrong error"),
    }
    let error =
        ResolvedSettings::try_from(settings(Some("https://"), Some("b"), false)).unwrap_err();
    assert_eq!(error.message(), "empty host");
}

#[test]
fn missing_broadcast_is_reported() {
    let error =
        ResolvedSettings::try_from(settings(Some("https://localhost"), None, false)).unwrap_err();
    assert!(matches!(error, SettingsError::MissingBroadcast));
    assert_eq!(error.message(), "broadcast property is required");
}

#[test]
fn parsed_url_decides_the_resolution() {
    let url = url::Url::parse("https://example.com/").unwrap();
    let resolved =
        ResolvedSettings::with_parsed_url(settings(Some("ignored"), Some("b"), false), Ok(url));
    assert_eq!(resolved.unwrap().url.as_str(), "https://example.com/");
    let refused = ResolvedSettings::with_parsed_url(
        settings(Some("https://example.com/"), Some("b"), false),
        Err(url::ParseError::InvalidPort),
    );
    assert!(matches!(
        refused,
        Err(SettingsError::InvalidUrl(url::ParseError::InvalidPort))
    ));
    let url = url::Url::parse("https://example.com/").unwrap();
    let missing = ResolvedSettings::with_parsed_url(settings(None, Some("b"), false), Ok(url));
    assert!(matches!(missing, Err(SettingsError::MissingUrl)));
}

#[test]
fn start_error_is_prefixed() {
    assert_eq!(
        start_error_message(&SettingsError::MissingUrl),
        "failed to start MoQ session: url property is required"
    );
    assert_eq!(
        start_error_message(&SettingsError::MissingBroadcast),
        "failed to start MoQ session: broadcast property is required"
    );
    assert_eq!(
        start_error_message(&SettingsError::InvalidUrl(url::ParseError::InvalidPort)),
        "failed to start MoQ session: invalid port number"
    );
}

#[test]
fn properties_read_as_set_and_leave_each_other_alone() {
    let mut element = Source::new();
    element.set_property("url", PropertyValue::Text(Some("https://a".to_string())));
    element.set_property("broadcast", PropertyValue::Text(Some("b".to_string())));
    element.set_property("tls-disable-verify", PropertyValue::Flag(true));
    assert_eq!(text(element.property("url")), Some("https://a".to_string()));
    assert_eq!(text(element.property("broadcast")), Some("b".to_string()));
    assert!(flag(element.property("tls-disable-verify")));
    element.set_property("url", PropertyValue::Text(None));
    assert_eq!(text(element.property("url")), None);
    assert_eq!(text(element.property("broadcast")), Some("b".to_string()));
}

#[test]
fn property_names_and_types_are_checked() {
    let some_text = PropertyValue::Text(None);
    let some_flag = PropertyValue::Flag(true);
    assert!(Settings::accepts_property("url", &some_text));
    assert!(Settings::accepts_property("broadcast", &some_text));
    assert!(Settings::accepts_property("tls-disable-verify", &some_flag));
    assert!(!Settings::accepts_property("url", &some_flag));
    assert!(!Settings::accepts_property("tls-disable-verify", &some_text));
    assert!(!Settings::accepts_property("latency", &some_text));
    assert!(Settings::has_property("url"));
    assert!(!Settings::has_property("URL"));
}

#[test]
fn source_properties_have_their_defaults() {
    let element = Source::new();
    let properties = Source::properties();
    let names: Vec<&str> = properties.iter().map(|property| property.name).collect();
    assert_eq!(names, vec!["url", "broadcast", "tls-disable-verify"]);
    assert_eq!(properties[0].nick, "Source URL");
    assert_eq!(properties[1].blurb, "The broadcast name to subscribe to");
    assert_eq!(text(element.property("url")), None);
    assert_eq!(text(element.property("broadcast")), None);
    assert!(!flag(element.property("tls-disable-verify")));
}

#[test]
fn sink_properties_have_their_defaults() {
    let mut element = Sink::new();
    let properties = Sink::properties();
    assert_eq!(properties.len(), 3);
    assert_eq!(properties[0].nick, "Relay URL");
    assert_eq!(properties[1].blurb, "Broadcast name to publish");
    assert_eq!(properties[2].name, "tls-disable-verify");
    assert_eq!(text(element.property("url")), None);
    assert!(!flag(element.property("tls-disable-verify")));
    element.set_property("tls-disable-verify", PropertyValue::Flag(true));
    assert!(flag(element.property("tls-disable-verify")));
}
