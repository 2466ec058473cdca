use browserware::Browser;
use browserware::BrowserFamily;
use browserware::BrowserId;
use browserware::BrowserVariant;
use browserware::ChromiumChannel;
use browserware::FirefoxChannel;

#[test]
fn browser_id_display() {
    let id = BrowserId::new("chrome".to_string());
    assert_eq!(id.0, "chrome");
}

#[test]
fn browser_family_display() {
    assert_eq!(BrowserFamily::Chromium.name(), "chromium");
    assert_eq!(BrowserFamily::Firefox.name(), "firefox");
}

#[test]
fn browser_builder_pattern() {
    let browser = Browser::new(
        "chrome".to_string(),
        "Google Chrome".to_string(),
        "/usr/bin/chrome".to_string(),
    )
    .with_variant(BrowserVariant::Chromium(ChromiumChannel::Stable))
    .with_version("120.0.0".to_string());

    assert_eq!(browser.name, "Google Chrome");
    assert_eq!(browser.family(), BrowserFamily::Chromium);
    assert_eq!(browser.version, Some("120.0.0".to_string()));
}

#[test]
fn browser_family_derived_from_variant() {
    let chrome = Browser::new(
        "chrome".to_string(),
        "Chrome".to_string(),
        "/usr/bin/chrome".to_string(),
    )
    .with_variant(BrowserVariant::Chromium(ChromiumChannel::Canary));
    assert_eq!(chrome.family(), BrowserFamily::Chromium);

    let firefox = Browser::new(
        "firefox".to_string(),
        "Firefox".to_string(),
        "/usr/bin/firefox".to_string(),
    )
    .with_variant(BrowserVariant::Firefox(FirefoxChannel::Nightly));
    assert_eq!(firefox.family(), BrowserFamily::Firefox);

    // Arc is a single-channel Chromium-based browser
    let arc = Browser::new(
        "arc".to_string(),
        "Arc".to_string(),
        "/Applications/Arc.app".to_string(),
    )
    .with_variant(BrowserVariant::Single(BrowserFamily::Chromium));
    assert_eq!(arc.family(), BrowserFamily::Chromium);

    let other = Browser::new(
        "other".to_string(),
        "Other".to_string(),
        "/usr/bin/other".to_string(),
    )
    .with_variant(BrowserVariant::Single(BrowserFamily::Other));
    assert_eq!(other.family(), BrowserFamily::Other);
}

#[test]
fn browser_bundle_id_and_maybe_version() {
    let b = Browser::new(
        "safari".to_string(),
        "Safari".to_string(),
        String::new(),
    )
    .with_bundle_id("com.apple.Safari".to_string())
    .maybe_with_version(None);
    assert_eq!(b.bundle_id, Some("com.apple.Safari".to_string()));
    assert_eq!(b.version, None);

    let b2 = b.maybe_with_version(Some("17.0".to_string()));
    assert_eq!(b2.version, Some("17.0".to_string()));
}
