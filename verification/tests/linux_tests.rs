use browserware::platform::linux::build_browser;
use browserware::platform::linux::detect_browsers;
use browserware::platform::linux::detect_default_browser;
use browserware::platform::linux::parse_desktop_content;
use browserware::platform::linux::parse_exec_to_path;
use browserware::platform::linux::parse_version_string;
use browserware::platform::linux::resolve_exec_path;
use browserware::platform::linux::should_probe_version;
use browserware::platform::linux::DesktopCandidate;
use browserware::platform::linux::DesktopEntry;
use browserware::BrowserFamily;

#[test]
fn parse_exec_absolute_path() {
    assert_eq!(
        parse_exec_to_path("/usr/bin/firefox %u"),
        Some("/usr/bin/firefox".to_string())
    );
}

#[test]
fn parse_exec_with_env() {
    // When env is used, we skip it and find the actual command
    let result = parse_exec_to_path("env VAR=value /usr/bin/browser %U");
    assert_eq!(result, Some("/usr/bin/browser".to_string()));
}

#[test]
fn parse_exec_flatpak() {
    let result = parse_exec_to_path("flatpak run org.mozilla.firefox %u");
    assert!(result.is_some());
    // Returns a flatpak command string
    let path = result.unwrap();
    assert!(path.contains("flatpak"));
}

#[test]
fn parse_exec_snap() {
    let result = parse_exec_to_path("snap run firefox");
    assert_eq!(result, Some("/snap/bin/firefox".to_string()));
}

#[test]
fn parse_exec_bare_token_kept() {
    // A relative command with no path search available stands as it is.
    assert_eq!(
        parse_exec_to_path("firefox %u"),
        Some("firefox".to_string())
    );
}

#[test]
fn resolve_exec_uses_path_search() {
    let result = resolve_exec_path("firefox %u", &vec![Some("/opt/bin/firefox".to_string())]);
    assert_eq!(result, Some("/opt/bin/firefox".to_string()));

    // A failed search falls back to the bare token.
    let fallback = resolve_exec_path("firefox %u", &vec![None]);
    assert_eq!(fallback, Some("firefox".to_string()));
}

#[test]
fn parse_version_firefox() {
    let output = "Mozilla Firefox 120.0";
    assert_eq!(parse_version_string(output), Some("120.0".to_string()));
}

#[test]
fn parse_version_chrome() {
    let output = "Google Chrome 120.0.6099.109";
    assert_eq!(
        parse_version_string(output),
        Some("120.0.6099.109".to_string())
    );
}

#[test]
fn parse_version_chromium_verbose() {
    let output = "Chromium 120.0.6099.109 built on Debian 12.4";
    assert_eq!(
        parse_version_string(output),
        Some("120.0.6099.109".to_string())
    );
}

#[test]
fn parse_version_none_without_dotted_token() {
    assert_eq!(parse_version_string("no version here"), None);
    assert_eq!(parse_version_string(""), None);
}

#[test]
fn parse_version_trims_trailing_punctuation() {
    assert_eq!(
        parse_version_string("browser 1.2.3,"),
        Some("1.2.3".to_string())
    );
}

#[test]
fn desktop_entry_is_browser_with_http_handler() {
    let entry = DesktopEntry {
        name: Some("Firefox".to_string()),
        exec_cmd: Some("/usr/bin/firefox %u".to_string()),
        mime_types: vec!["x-scheme-handler/http".to_string()],
        categories: vec![],
    };
    assert!(entry.is_browser());
}

#[test]
fn desktop_entry_is_browser_with_category() {
    let entry = DesktopEntry {
        name: Some("Firefox".to_string()),
        exec_cmd: Some("/usr/bin/firefox %u".to_string()),
        mime_types: vec![],
        categories: vec!["WebBrowser".to_string(), "Network".to_string()],
    };
    assert!(entry.is_browser());
}

#[test]
fn desktop_entry_not_browser() {
    let entry = DesktopEntry {
        name: Some("Text Editor".to_string()),
        exec_cmd: Some("/usr/bin/gedit %u".to_string()),
        mime_types: vec!["text/plain".to_string()],
        categories: vec!["TextEditor".to_string()],
    };
    assert!(!entry.is_browser());
}

#[test]
fn parse_desktop_file_reads_recognized_keys() {
    let content = "\
[Desktop Entry]
# a comment
Name=Firefox
Exec=/usr/bin/firefox %u
MimeType=x-scheme-handler/http;x-scheme-handler/https;;
Categories=Network;WebBrowser;

[Other Section]
Name=Ignored
";
    let entry = parse_desktop_content(content).unwrap();
    assert_eq!(entry.name, Some("Firefox".to_string()));
    assert_eq!(entry.exec_cmd, Some("/usr/bin/firefox %u".to_string()));
    assert_eq!(
        entry.mime_types,
        vec![
            "x-scheme-handler/http".to_string(),
            "x-scheme-handler/https".to_string()
        ]
    );
    assert_eq!(
        entry.categories,
        vec!["Network".to_string(), "WebBrowser".to_string()]
    );
}

#[test]
fn parse_desktop_file_requires_name_and_exec() {
    assert!(parse_desktop_content("[Desktop Entry]\nName=NoExec\n").is_none());
    assert!(parse_desktop_content("[Desktop Entry]\nExec=/bin/x\n").is_none());
    assert!(parse_desktop_content("").is_none());
}

#[test]
fn parse_desktop_file_ignores_keys_outside_section() {
    let content = "Name=Outside\nExec=/bin/out\n[Desktop Entry]\nName=In\nExec=/bin/in\n";
    let entry = parse_desktop_content(content).unwrap();
    assert_eq!(entry.name, Some("In".to_string()));
    assert_eq!(entry.exec_cmd, Some("/bin/in".to_string()));
}

#[test]
fn should_probe_version_skips_launcher_forms() {
    assert!(should_probe_version("/usr/bin/firefox"));
    assert!(!should_probe_version(""));
    assert!(!should_probe_version("/usr/bin/flatpak run org.mozilla.firefox"));
    assert!(!should_probe_version("/snap/bin/firefox"));
}

fn chrome_candidate() -> DesktopCandidate {
    DesktopCandidate {
        desktop_id: "google-chrome".to_string(),
        content: "[Desktop Entry]\nName=Google Chrome\nExec=/usr/bin/google-chrome %U\nMimeType=x-scheme-handler/http;text/html;\n".to_string(),
        which_results: vec![],
        version_output: Some("Google Chrome 120.0.6099.109".to_string()),
    }
}

fn firefox_candidate(desktop_id: &str) -> DesktopCandidate {
    DesktopCandidate {
        desktop_id: desktop_id.to_string(),
        content: "[Desktop Entry]\nName=Firefox\nExec=/usr/bin/firefox %u\nCategories=Network;WebBrowser;\n".to_string(),
        which_results: vec![],
        version_output: None,
    }
}

fn editor_candidate() -> DesktopCandidate {
    DesktopCandidate {
        desktop_id: "editor".to_string(),
        content: "[Desktop Entry]\nName=Text Editor\nExec=/usr/bin/gedit %u\nMimeType=text/plain;\nCategories=TextEditor;\n".to_string(),
        which_results: vec![],
        version_output: None,
    }
}

#[test]
fn detect_browsers_enriches_and_skips_non_browsers() {
    let candidates = vec![chrome_candidate(), editor_candidate(), firefox_candidate("firefox")];
    let browsers = detect_browsers(&candidates);
    assert_eq!(browsers.len(), 2);
    assert_eq!(browsers[0].id.0, "chrome");
    assert_eq!(browsers[0].name, "Google Chrome");
    assert_eq!(browsers[0].family(), BrowserFamily::Chromium);
    assert_eq!(browsers[0].version, Some("120.0.6099.109".to_string()));
    assert_eq!(browsers[0].executable, "/usr/bin/google-chrome");
    assert_eq!(browsers[1].id.0, "firefox");
    assert_eq!(browsers[1].family(), BrowserFamily::Firefox);
}

#[test]
fn detect_browsers_deduplicates_by_canonical_id() {
    // The same browser registered under two desktop ids is kept once.
    let candidates = vec![firefox_candidate("firefox"), firefox_candidate("firefox")];
    let browsers = detect_browsers(&candidates);
    assert_eq!(browsers.len(), 1);
    assert_eq!(browsers[0].id.0, "firefox");
}

#[test]
fn detect_browsers_derives_metadata_for_unknown() {
    let unknown = DesktopCandidate {
        desktop_id: "shinybrowser".to_string(),
        content: "[Desktop Entry]\nName=Shiny Browser\nExec=/opt/shiny/shiny %u\nCategories=WebBrowser;\n".to_string(),
        which_results: vec![],
        version_output: None,
    };
    let browsers = detect_browsers(&vec![unknown]);
    assert_eq!(browsers.len(), 1);
    assert_eq!(browsers[0].id.0, "shinybrowser");
    assert_eq!(browsers[0].name, "Shiny Browser");
    assert_eq!(browsers[0].family(), BrowserFamily::Other);
}

#[test]
fn detect_default_browser_matches_aliases() {
    let candidates = vec![chrome_candidate(), firefox_candidate("firefox")];
    // The settings query names an alias of the same registry entry.
    let default = detect_default_browser(&candidates, Some("google-chrome-stable.desktop\n"));
    assert!(default.is_some());
    assert_eq!(default.unwrap().id.0, "chrome");
}

#[test]
fn detect_default_browser_absent_cases() {
    let candidates = vec![firefox_candidate("firefox")];
    assert!(detect_default_browser(&candidates, None).is_none());
    assert!(detect_default_browser(&candidates, Some("")).is_none());
    assert!(detect_default_browser(&candidates, Some("not-installed.desktop")).is_none());
}

#[test]
fn build_browser_unknown_uses_entry_name() {
    let entry = DesktopEntry {
        name: Some("My Browser".to_string()),
        exec_cmd: Some("/opt/my %u".to_string()),
        mime_types: vec!["text/html".to_string()],
        categories: vec![],
    };
    let b = build_browser("mybrowser", &entry, Some("/opt/my".to_string()), None);
    assert_eq!(b.id.0, "mybrowser");
    assert_eq!(b.name, "My Browser");
    assert_eq!(b.family(), BrowserFamily::Other);
    assert_eq!(b.executable, "/opt/my");
    assert_eq!(b.version, None);
}
