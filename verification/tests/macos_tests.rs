use browserware::platform::macos::derive_name_from_bundle_id;
use browserware::platform::macos::detect_browsers;
use browserware::platform::macos::detect_default_browser;
use browserware::platform::macos::extract_name_from_plist;
use browserware::platform::macos::extract_version_from_plist;
use browserware::platform::macos::find_executable;
use browserware::platform::macos::get_executable_name_from_plist;
use browserware::platform::macos::is_nested_app;
use browserware::platform::macos::macos_executable_candidate;
use browserware::platform::macos::MacosCandidate;
use browserware::BrowserFamily;

#[test]
fn derive_name_from_bundle_id_works() {
    assert_eq!(
        derive_name_from_bundle_id("com.google.Chrome"),
        Some("Chrome".to_string())
    );
    assert_eq!(
        derive_name_from_bundle_id("org.mozilla.firefox"),
        Some("firefox".to_string())
    );
}

#[test]
fn is_nested_app_detects_nested_apps() {
    // Nested app inside Contents/Support/
    assert!(is_nested_app(
        "/Applications/ChatGPT Atlas.app/Contents/Support/ChatGPT Atlas.app"
    ));

    // Nested app inside Contents/Frameworks/
    assert!(is_nested_app(
        "/Applications/Foo.app/Contents/Frameworks/Helper.app"
    ));

    // Top-level app - not nested
    assert!(!is_nested_app("/Applications/Safari.app"));
    assert!(!is_nested_app("/Applications/Google Chrome.app"));
    assert!(!is_nested_app(
        "/System/Volumes/Preboot/Cryptexes/App/System/Applications/Safari.app"
    ));
}

fn plist_xml(entries: &[(&str, &str)]) -> Vec<u8> {
    let mut body = String::new();
    for (k, v) in entries {
        body.push_str(&format!("<key>{}</key><string>{}</string>", k, v));
    }
    format!(
        "<?xml version=\"1.0\" encoding=\"UTF-8\"?>\n<plist version=\"1.0\"><dict>{}</dict></plist>",
        body
    )
    .into_bytes()
}

#[test]
fn plist_version_prefers_short_version_string() {
    let bytes = plist_xml(&[
        ("CFBundleShortVersionString", "120.0.1"),
        ("CFBundleVersion", "6099.109"),
    ]);
    assert_eq!(extract_version_from_plist(&bytes), Some("120.0.1".to_string()));

    let only_build = plist_xml(&[("CFBundleVersion", "6099.109")]);
    assert_eq!(
        extract_version_from_plist(&only_build),
        Some("6099.109".to_string())
    );

    let neither = plist_xml(&[("CFBundleName", "Thing")]);
    assert_eq!(extract_version_from_plist(&neither), None);

    let garbage = b"not a plist".to_vec();
    assert_eq!(extract_version_from_plist(&garbage), None);
}

#[test]
fn plist_name_prefers_display_name() {
    let bytes = plist_xml(&[
        ("CFBundleDisplayName", "Google Chrome"),
        ("CFBundleName", "Chrome"),
    ]);
    assert_eq!(
        extract_name_from_plist(&bytes),
        Some("Google Chrome".to_string())
    );

    let only_name = plist_xml(&[("CFBundleName", "Chrome")]);
    assert_eq!(extract_name_from_plist(&only_name), Some("Chrome".to_string()));
}

#[test]
fn find_executable_uses_manifest_when_path_exists() {
    let bytes = plist_xml(&[("CFBundleExecutable", "Google Chrome")]);
    assert_eq!(
        get_executable_name_from_plist(&bytes),
        Some("Google Chrome".to_string())
    );
    assert_eq!(
        find_executable("/Applications/Google Chrome.app", Some(&bytes), true),
        "/Applications/Google Chrome.app/Contents/MacOS/Google Chrome"
    );
    // When the declared executable does not exist, fall back to the bundle's
    // own stem, even unverified.
    assert_eq!(
        find_executable("/Applications/Google Chrome.app", Some(&bytes), false),
        "/Applications/Google Chrome.app/Contents/MacOS/Google Chrome"
    );
    assert_eq!(
        find_executable("/Applications/Safari.app", None, false),
        "/Applications/Safari.app/Contents/MacOS/Safari"
    );
}

#[test]
fn executable_candidate_joins_binary_dir() {
    assert_eq!(
        macos_executable_candidate("/Applications/Safari.app", "Safari"),
        "/Applications/Safari.app/Contents/MacOS/Safari"
    );
}

fn chrome_handler() -> MacosCandidate {
    MacosCandidate {
        bundle_id: "com.google.Chrome".to_string(),
        app_path: Some("/Applications/Google Chrome.app".to_string()),
        plist: Some(plist_xml(&[
            ("CFBundleShortVersionString", "120.0.6099.109"),
            ("CFBundleExecutable", "Google Chrome"),
        ])),
        plist_exec_exists: true,
    }
}

fn nested_helper() -> MacosCandidate {
    MacosCandidate {
        bundle_id: "com.example.Helper".to_string(),
        app_path: Some("/Applications/Foo.app/Contents/Support/Helper.app".to_string()),
        plist: None,
        plist_exec_exists: false,
    }
}

#[test]
fn detect_browsers_builds_known_and_skips_nested() {
    let unknown = MacosCandidate {
        bundle_id: "com.example.MyBrowser".to_string(),
        app_path: Some("/Applications/MyBrowser.app".to_string()),
        plist: None,
        plist_exec_exists: false,
    };
    let unresolved = MacosCandidate {
        bundle_id: "com.example.Ghost".to_string(),
        app_path: None,
        plist: None,
        plist_exec_exists: false,
    };
    let handlers = vec![chrome_handler(), nested_helper(), unknown, unresolved];
    let browsers = detect_browsers(&handlers);
    assert_eq!(browsers.len(), 2);

    assert_eq!(browsers[0].id.0, "chrome");
    assert_eq!(browsers[0].name, "Google Chrome");
    assert_eq!(browsers[0].family(), BrowserFamily::Chromium);
    assert_eq!(browsers[0].version, Some("120.0.6099.109".to_string()));
    assert_eq!(browsers[0].bundle_id, Some("com.google.Chrome".to_string()));
    assert_eq!(
        browsers[0].executable,
        "/Applications/Google Chrome.app/Contents/MacOS/Google Chrome"
    );

    // Unknown browser: name derived from the bundle id's last segment.
    assert_eq!(browsers[1].id.0, "com.example.MyBrowser");
    assert_eq!(browsers[1].name, "MyBrowser");
    assert_eq!(browsers[1].family(), BrowserFamily::Other);
}

#[test]
fn default_browser_nested_is_discarded() {
    assert!(detect_default_browser(Some(&nested_helper())).is_none());
    assert!(detect_default_browser(None).is_none());
    let default = detect_default_browser(Some(&chrome_handler()));
    assert_eq!(default.unwrap().id.0, "chrome");
}
