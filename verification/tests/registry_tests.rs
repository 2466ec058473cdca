use browserware::registry::find_by_bundle_id;
use browserware::registry::find_by_desktop_id;
use browserware::registry::find_by_id;
use browserware::registry::find_by_registry_key;
use browserware::registry::known_browsers;
use browserware::BrowserFamily;

#[test]
fn known_browsers_not_empty() {
    assert!(!known_browsers().is_empty());
}

#[test]
fn all_browsers_have_unique_ids() {
    let mut ids: Vec<&str> = known_browsers().iter().map(|m| m.id).collect();
    ids.sort_unstable();
    let original_len = ids.len();
    ids.dedup();
    assert_eq!(ids.len(), original_len, "Duplicate browser IDs found");
}

#[test]
fn all_browsers_have_at_least_one_platform() {
    for meta in known_browsers() {
        assert!(
            meta.available_on_macos() || meta.available_on_windows() || meta.available_on_linux(),
            "Browser '{}' has no platform identifiers",
            meta.id
        );
    }
}

#[test]
fn find_chrome_by_id() {
    let chrome = find_by_id("chrome");
    assert!(chrome.is_some());
    assert_eq!(chrome.unwrap().name, "Google Chrome");
}

#[test]
fn find_chrome_by_bundle_id() {
    let chrome = find_by_bundle_id("com.google.Chrome");
    assert!(chrome.is_some());
    assert_eq!(chrome.unwrap().id, "chrome");
}

#[test]
fn find_chrome_by_registry_key() {
    let chrome = find_by_registry_key("Google Chrome");
    assert!(chrome.is_some());
    assert_eq!(chrome.unwrap().id, "chrome");
}

#[test]
fn find_firefox_by_desktop_id() {
    let firefox = find_by_desktop_id("firefox");
    assert!(firefox.is_some());
    assert_eq!(firefox.unwrap().id, "firefox");
}

#[test]
fn find_nonexistent_returns_none() {
    assert!(find_by_id("nonexistent-browser").is_none());
    assert!(find_by_bundle_id("com.nonexistent.browser").is_none());
    assert!(find_by_registry_key("Nonexistent Browser").is_none());
    assert!(find_by_desktop_id("nonexistent-browser").is_none());
}

#[test]
fn browser_families_correct() {
    let chrome = find_by_id("chrome").unwrap();
    assert_eq!(chrome.family(), BrowserFamily::Chromium);

    let firefox = find_by_id("firefox").unwrap();
    assert_eq!(firefox.family(), BrowserFamily::Firefox);

    let safari = find_by_id("safari").unwrap();
    assert_eq!(safari.family(), BrowserFamily::WebKit);

    let arc = find_by_id("arc").unwrap();
    assert_eq!(arc.family(), BrowserFamily::Chromium);
}

#[test]
fn safari_only_on_macos() {
    let safari = find_by_id("safari").unwrap();
    assert!(safari.available_on_macos());
    assert!(!safari.available_on_windows());
    assert!(!safari.available_on_linux());
}

#[test]
fn gnome_web_only_on_linux() {
    let gnome_web = find_by_id("gnome-web").unwrap();
    assert!(!gnome_web.available_on_macos());
    assert!(!gnome_web.available_on_windows());
    assert!(gnome_web.available_on_linux());
}

#[test]
fn chrome_on_all_platforms() {
    let chrome = find_by_id("chrome").unwrap();
    assert!(chrome.available_on_macos());
    assert!(chrome.available_on_windows());
    assert!(chrome.available_on_linux());
}

#[test]
fn alternative_desktop_ids_work() {
    let by_google_chrome = find_by_desktop_id("google-chrome");
    let by_google_chrome_stable = find_by_desktop_id("google-chrome-stable");
    assert!(by_google_chrome.is_some());
    assert!(by_google_chrome_stable.is_some());
    assert_eq!(
        by_google_chrome.unwrap().id,
        by_google_chrome_stable.unwrap().id
    );
}
