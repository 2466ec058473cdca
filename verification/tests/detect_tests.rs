use browserware::detect_browser;
use browserware::detect_browsers;
use browserware::detect_browsers_by_family;
use browserware::detect_default_browser;
use browserware::platform::linux::DesktopCandidate;
use browserware::BrowserFamily;
use browserware::PlatformSignals;

fn candidate(desktop_id: &str, name: &str, exec: &str, extra: &str) -> DesktopCandidate {
    DesktopCandidate {
        desktop_id: desktop_id.to_string(),
        content: format!(
            "[Desktop Entry]\nName={}\nExec={}\n{}\n",
            name, exec, extra
        ),
        which_results: vec![],
        version_output: None,
    }
}

fn mixed_signals() -> PlatformSignals {
    PlatformSignals::Linux {
        candidates: vec![
            candidate(
                "google-chrome",
                "Google Chrome",
                "/usr/bin/google-chrome %U",
                "MimeType=x-scheme-handler/http;",
            ),
            candidate(
                "firefox",
                "Firefox",
                "/usr/bin/firefox %u",
                "Categories=Network;WebBrowser;",
            ),
            candidate(
                "brave-browser",
                "Brave",
                "/usr/bin/brave %U",
                "MimeType=x-scheme-handler/https;",
            ),
            candidate(
                "org.gnome.Epiphany",
                "Web",
                "/usr/bin/epiphany %u",
                "Categories=WebBrowser;",
            ),
            candidate(
                "editor",
                "Text Editor",
                "/usr/bin/gedit %u",
                "MimeType=text/plain;",
            ),
        ],
        default_setting: Some("firefox.desktop".to_string()),
    }
}

#[test]
fn detect_browsers_returns_vec() {
    // Should not panic, whatever the signals hold.
    let _browsers = detect_browsers(&PlatformSignals::Unsupported);
    let _browsers = detect_browsers(&mixed_signals());
}

#[test]
fn detect_browser_unknown_id_returns_none() {
    let result = detect_browser(&mixed_signals(), "nonexistent-browser-xyz-12345");
    assert!(result.is_none());
}

#[test]
fn detect_browsers_by_family_filters_correctly() {
    let chromium = detect_browsers_by_family(&mixed_signals(), BrowserFamily::Chromium);
    for browser in chromium {
        assert_eq!(browser.family(), BrowserFamily::Chromium);
    }
}

#[test]
fn family_filter_returns_exact_subset_in_order() {
    // Of the mixed list, exactly chrome and brave are Chromium-engined, and
    // they come back in their original relative order, once each.
    let chromium = detect_browsers_by_family(&mixed_signals(), BrowserFamily::Chromium);
    let ids: Vec<&str> = chromium.iter().map(|b| b.id.0.as_str()).collect();
    assert_eq!(ids, vec!["chrome", "brave"]);

    let webkit = detect_browsers_by_family(&mixed_signals(), BrowserFamily::WebKit);
    let ids: Vec<&str> = webkit.iter().map(|b| b.id.0.as_str()).collect();
    assert_eq!(ids, vec!["gnome-web"]);
}

#[test]
fn detect_whole_list_in_order() {
    let browsers = detect_browsers(&mixed_signals());
    let ids: Vec<&str> = browsers.iter().map(|b| b.id.0.as_str()).collect();
    assert_eq!(ids, vec!["chrome", "firefox", "brave", "gnome-web"]);
}

#[test]
fn detect_browser_finds_by_canonical_id() {
    let brave = detect_browser(&mixed_signals(), "brave").unwrap();
    assert_eq!(brave.name, "Brave Browser");
    assert_eq!(brave.executable, "/usr/bin/brave");
}

#[test]
fn detect_default_browser_follows_setting() {
    let default = detect_default_browser(&mixed_signals()).unwrap();
    assert_eq!(default.id.0, "firefox");

    assert!(detect_default_browser(&PlatformSignals::Unsupported).is_none());
    assert!(detect_default_browser(&PlatformSignals::Windows).is_none());
}

#[test]
fn windows_and_unsupported_are_empty() {
    assert!(detect_browsers(&PlatformSignals::Windows).is_empty());
    assert!(detect_browsers(&PlatformSignals::Unsupported).is_empty());
}
