use browserware::BrowserFamily;
use browserware::BrowserVariant;
use browserware::ChromiumChannel;
use browserware::FirefoxChannel;
use browserware::WebKitChannel;

#[test]
fn chromium_channel_canonical_names() {
    assert_eq!(ChromiumChannel::Stable.canonical_name(), "stable");
    assert_eq!(ChromiumChannel::Beta.canonical_name(), "beta");
    assert_eq!(ChromiumChannel::Dev.canonical_name(), "dev");
    assert_eq!(ChromiumChannel::Canary.canonical_name(), "canary");
}

#[test]
fn firefox_channel_canonical_names() {
    assert_eq!(FirefoxChannel::Stable.canonical_name(), "stable");
    assert_eq!(FirefoxChannel::Beta.canonical_name(), "beta");
    assert_eq!(FirefoxChannel::Dev.canonical_name(), "dev");
    assert_eq!(FirefoxChannel::Nightly.canonical_name(), "nightly");
    assert_eq!(FirefoxChannel::Esr.canonical_name(), "esr");
}

#[test]
fn webkit_channel_canonical_names() {
    assert_eq!(WebKitChannel::Stable.canonical_name(), "stable");
    assert_eq!(
        WebKitChannel::TechnologyPreview.canonical_name(),
        "technology-preview"
    );
}

#[test]
fn browser_variant_canonical_names() {
    assert_eq!(
        BrowserVariant::Chromium(ChromiumChannel::Canary).canonical_name(),
        "canary"
    );
    assert_eq!(
        BrowserVariant::Firefox(FirefoxChannel::Nightly).canonical_name(),
        "nightly"
    );
    assert_eq!(
        BrowserVariant::WebKit(WebKitChannel::TechnologyPreview).canonical_name(),
        "technology-preview"
    );
    assert_eq!(
        BrowserVariant::Single(BrowserFamily::Chromium).canonical_name(),
        "stable"
    );
}

#[test]
fn browser_variant_display() {
    assert_eq!(BrowserVariant::chromium_stable().canonical_name(), "stable");
    assert_eq!(
        BrowserVariant::Firefox(FirefoxChannel::Esr).canonical_name(),
        "esr"
    );
}

#[test]
fn browser_variant_family() {
    assert_eq!(
        BrowserVariant::Chromium(ChromiumChannel::Stable).family(),
        BrowserFamily::Chromium
    );
    assert_eq!(
        BrowserVariant::Firefox(FirefoxChannel::Nightly).family(),
        BrowserFamily::Firefox
    );
    assert_eq!(
        BrowserVariant::WebKit(WebKitChannel::TechnologyPreview).family(),
        BrowserFamily::WebKit
    );

    assert_eq!(
        BrowserVariant::Single(BrowserFamily::Chromium).family(),
        BrowserFamily::Chromium
    );
    assert_eq!(
        BrowserVariant::Single(BrowserFamily::Other).family(),
        BrowserFamily::Other
    );
}

#[test]
fn variant_constructors() {
    assert_eq!(
        BrowserVariant::chromium_stable(),
        BrowserVariant::Chromium(ChromiumChannel::Stable)
    );
    assert_eq!(
        BrowserVariant::firefox_stable(),
        BrowserVariant::Firefox(FirefoxChannel::Stable)
    );
    assert_eq!(
        BrowserVariant::webkit_stable(),
        BrowserVariant::WebKit(WebKitChannel::Stable)
    );
    assert_eq!(
        BrowserVariant::single(BrowserFamily::WebKit),
        BrowserVariant::Single(BrowserFamily::WebKit)
    );
}

#[test]
fn family_names() {
    assert_eq!(BrowserFamily::Chromium.name(), "chromium");
    assert_eq!(BrowserFamily::Firefox.name(), "firefox");
    assert_eq!(BrowserFamily::WebKit.name(), "webkit");
    assert_eq!(BrowserFamily::Other.name(), "other");
}
