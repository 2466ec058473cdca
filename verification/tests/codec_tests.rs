use browserware::codec::browser_from_wire;
use browserware::codec::browser_to_wire;
use browserware::Browser;
use browserware::BrowserFamily;
use browserware::BrowserVariant;
use browserware::ChromiumChannel;
use browserware::FirefoxChannel;
use browserware::WebKitChannel;

fn all_variants() -> Vec<BrowserVariant> {
    vec![
        BrowserVariant::Chromium(ChromiumChannel::Stable),
        BrowserVariant::Chromium(ChromiumChannel::Beta),
        BrowserVariant::Chromium(ChromiumChannel::Dev),
        BrowserVariant::Chromium(ChromiumChannel::Canary),
        BrowserVariant::Firefox(FirefoxChannel::Stable),
        BrowserVariant::Firefox(FirefoxChannel::Beta),
        BrowserVariant::Firefox(FirefoxChannel::Dev),
        BrowserVariant::Firefox(FirefoxChannel::Nightly),
        BrowserVariant::Firefox(FirefoxChannel::Esr),
        BrowserVariant::WebKit(WebKitChannel::Stable),
        BrowserVariant::WebKit(WebKitChannel::TechnologyPreview),
        BrowserVariant::Single(BrowserFamily::Chromium),
        BrowserVariant::Single(BrowserFamily::Firefox),
        BrowserVariant::Single(BrowserFamily::WebKit),
        BrowserVariant::Single(BrowserFamily::Other),
    ]
}

#[test]
fn variant_wire_round_trip() {
    for v in all_variants() {
        let tag = v.wire_tag();
        let value = v.wire_value();
        let back = BrowserVariant::from_wire(tag, value);
        assert_eq!(back, Some(v));
    }
}

#[test]
fn variant_wire_values_match_serialized_names() {
    let beta = BrowserVariant::Chromium(ChromiumChannel::Beta);
    assert_eq!(beta.wire_tag(), "Chromium");
    assert_eq!(beta.wire_value(), "beta");

    let preview = BrowserVariant::WebKit(WebKitChannel::TechnologyPreview);
    assert_eq!(preview.wire_value(), "technology-preview");

    let arc = BrowserVariant::Single(BrowserFamily::Chromium);
    assert_eq!(arc.wire_tag(), "Single");
    assert_eq!(arc.wire_value(), "chromium");
}

#[test]
fn variant_from_wire_rejects_unknown_names() {
    assert_eq!(BrowserVariant::from_wire("Gecko", "stable"), None);
    assert_eq!(BrowserVariant::from_wire("Chromium", "nightly"), None);
    assert_eq!(BrowserVariant::from_wire("WebKit", "beta"), None);
    assert_eq!(BrowserVariant::from_wire("Single", "blink"), None);
}

#[test]
fn browser_wire_round_trip() {
    let browser = Browser::new(
        "firefox".to_string(),
        "Firefox".to_string(),
        "/usr/bin/firefox".to_string(),
    )
    .with_variant(BrowserVariant::Firefox(FirefoxChannel::Stable))
    .with_version("120.0".to_string())
    .with_bundle_id("org.mozilla.firefox".to_string());

    let wire = browser_to_wire(&browser);
    assert_eq!(wire.id, "firefox");
    assert_eq!(wire.variant_type, "Firefox");
    assert_eq!(wire.variant_value, "stable");

    let back = browser_from_wire(&wire).unwrap();
    assert_eq!(back.id.0, browser.id.0);
    assert_eq!(back.name, browser.name);
    assert_eq!(back.variant, browser.variant);
    assert_eq!(back.version, browser.version);
    assert_eq!(back.executable, browser.executable);
    assert_eq!(back.bundle_id, browser.bundle_id);
}
