//! The known-browser registry: static metadata used to enrich detection.
//!
//! The registry is not the source of browsers to detect. Platform detection
//! enumerates the handlers the operating system reports, then matches each
//! candidate against this table for metadata enrichment; unknown candidates
//! are still reported with derived metadata.

use vstd::prelude::*;
use vstd::string::StringExecFns;

use crate::text::str_eq;
use crate::variant::BrowserFamily;
use crate::variant::BrowserVariant;
use crate::variant::ChromiumChannel;
use crate::variant::FirefoxChannel;
use crate::variant::WebKitChannel;

verus! {

/// The mathematical value of a [`BrowserMeta`]: every string as a character
/// sequence.
#[verifier::ext_equal]
pub struct MetaModel {
    /// Canonical identifier.
    pub id: Seq<char>,
    /// Display name.
    pub name: Seq<char>,
    /// Engine family and release channel.
    pub variant: BrowserVariant,
    /// macOS bundle identifiers.
    pub macos_bundle_ids: Seq<Seq<char>>,
    /// Windows registry key names.
    pub windows_registry_keys: Seq<Seq<char>>,
    /// Linux desktop-file basenames.
    pub linux_desktop_ids: Seq<Seq<char>>,
}

/// Static metadata for a known browser: the canonical identity plus the
/// platform-specific identifiers under which installations of it appear.
#[derive(Debug)]
pub struct BrowserMeta {
    /// Canonical identifier used in configurations (e.g. "chrome").
    pub id: &'static str,
    /// Human-readable display name (e.g. "Google Chrome").
    pub name: &'static str,
    /// Browser variant encoding engine family and release channel.
    pub variant: BrowserVariant,
    /// macOS bundle identifiers; empty when the browser is not available on
    /// macOS. Multiple entries handle renamed bundles.
    pub macos_bundle_ids: Vec<&'static str>,
    /// Windows registry key names; empty when the browser is not available
    /// on Windows.
    pub windows_registry_keys: Vec<&'static str>,
    /// Linux desktop-file basenames (without the `.desktop` extension);
    /// empty when the browser is not available on Linux.
    pub linux_desktop_ids: Vec<&'static str>,
}

/// The views of a sequence of string slices.
pub open spec fn strs_model(l: Seq<&str>) -> Seq<Seq<char>> {
    l.map_values(|s: &str| s@)
}

/// The views of a sequence of registry entries.
pub open spec fn metas_model(s: Seq<BrowserMeta>) -> Seq<MetaModel> {
    s.map_values(|m: BrowserMeta| m@)
}

impl View for BrowserMeta {
    type V = MetaModel;

    open spec fn view(&self) -> MetaModel {
        MetaModel {
            id: self.id@,
            name: self.name@,
            variant: self.variant,
            macos_bundle_ids: strs_model(self.macos_bundle_ids@),
            windows_registry_keys: strs_model(self.windows_registry_keys@),
            linux_desktop_ids: strs_model(self.linux_desktop_ids@),
        }
    }
}

/// Copies a vector of string slices.
fn clone_strs(v: &Vec<&'static str>) -> (r: Vec<&'static str>)
    ensures
        r@ == v@,
{
    let mut r: Vec<&'static str> = Vec::new();
    let mut i: usize = 0;
    while i < v.len()
        invariant
            0 <= i <= v.len(),
            r@ == v@.subrange(0, i as int),
        decreases v.len() - i,
    {
        r.push(v[i]);
        proof {
            assert(r@ =~= v@.subrange(0, i + 1 as int));
        }
        i += 1;
    }
    proof {
        assert(r@ =~= v@);
    }
    r
}

impl Clone for BrowserMeta {
    /// Copies the entry; the copy has the same view.
    fn clone(&self) -> (r: Self)
        ensures
            r@ == self@,
    {
        BrowserMeta {
            id: self.id,
            name: self.name,
            variant: self.variant,
            macos_bundle_ids: clone_strs(&self.macos_bundle_ids),
            windows_registry_keys: clone_strs(&self.windows_registry_keys),
            linux_desktop_ids: clone_strs(&self.linux_desktop_ids),
        }
    }
}

impl BrowserMeta {
    /// Returns true if this browser is available on macOS.
    pub fn available_on_macos(&self) -> (r: bool)
        ensures
            r == (self@.macos_bundle_ids.len() > 0),
    {
        self.macos_bundle_ids.len() > 0
    }

    /// Returns true if this browser is available on Windows.
    pub fn available_on_windows(&self) -> (r: bool)
        ensures
            r == (self@.windows_registry_keys.len() > 0),
    {
        self.windows_registry_keys.len() > 0
    }

    /// Returns true if this browser is available on Linux.
    pub fn available_on_linux(&self) -> (r: bool)
        ensures
            r == (self@.linux_desktop_ids.len() > 0),
    {
        self.linux_desktop_ids.len() > 0
    }

    /// Returns whether `x` is one of this entry's Linux desktop ids.
    pub fn linux_ids_contain(&self, x: &str) -> (r: bool)
        ensures
            r == seq_contains_str(self@.linux_desktop_ids, x@),
    {
        list_contains(&self.linux_desktop_ids, x)
    }

    /// Returns the browser engine family.
    pub fn family(&self) -> (r: BrowserFamily)
        ensures
            r == self@.variant.spec_family(),
    {
        self.variant.family()
    }
}

/// The registry content: each known browser's canonical identity and the
/// platform identifiers under which it appears.
pub open spec fn registry_model() -> Seq<MetaModel> {
    seq![
        MetaModel {
            id: "chrome"@,
            name: "Google Chrome"@,
            variant: BrowserVariant::Chromium(ChromiumChannel::Stable),
            macos_bundle_ids: seq!["com.google.Chrome"@],
            windows_registry_keys: seq!["Google Chrome"@],
            linux_desktop_ids: seq!["google-chrome"@, "google-chrome-stable"@],
        },
        MetaModel {
            id: "chrome-beta"@,
            name: "Google Chrome Beta"@,
            variant: BrowserVariant::Chromium(ChromiumChannel::Beta),
            macos_bundle_ids: seq!["com.google.Chrome.beta"@],
            windows_registry_keys: seq!["Google Chrome Beta"@],
            linux_desktop_ids: seq!["google-chrome-beta"@],
        },
        MetaModel {
            id: "chrome-dev"@,
            name: "Google Chrome Dev"@,
            variant: BrowserVariant::Chromium(ChromiumChannel::Dev),
            macos_bundle_ids: seq!["com.google.Chrome.dev"@],
            windows_registry_keys: seq!["Google Chrome Dev"@],
            linux_desktop_ids: seq!["google-chrome-unstable"@],
        },
        MetaModel {
            id: "chrome-canary"@,
            name: "Google Chrome Canary"@,
            variant: BrowserVariant::Chromium(ChromiumChannel::Canary),
            macos_bundle_ids: seq!["com.google.Chrome.canary"@],
            windows_registry_keys: seq!["Google Chrome Canary"@],
            linux_desktop_ids: Seq::empty(),
        },
        MetaModel {
            id: "edge"@,
            name: "Microsoft Edge"@,
            variant: BrowserVariant::Chromium(ChromiumChannel::Stable),
            macos_bundle_ids: seq!["com.microsoft.edgemac"@],
            windows_registry_keys: seq!["Microsoft Edge"@],
            linux_desktop_ids: seq!["microsoft-edge"@, "microsoft-edge-stable"@],
        },
        MetaModel {
            id: "edge-beta"@,
            name: "Microsoft Edge Beta"@,
            variant: BrowserVariant::Chromium(ChromiumChannel::Beta),
            macos_bundle_ids: seq!["com.microsoft.edgemac.Beta"@],
            windows_registry_keys: seq!["Microsoft Edge Beta"@],
            linux_desktop_ids: seq!["microsoft-edge-beta"@],
        },
        MetaModel {
            id: "edge-dev"@,
            name: "Microsoft Edge Dev"@,
            variant: BrowserVariant::Chromium(ChromiumChannel::Dev),
            macos_bundle_ids: seq!["com.microsoft.edgemac.Dev"@],
            windows_registry_keys: seq!["Microsoft Edge Dev"@],
            linux_desktop_ids: seq!["microsoft-edge-dev"@],
        },
        MetaModel {
            id: "edge-canary"@,
            name: "Microsoft Edge Canary"@,
            variant: BrowserVariant::Chromium(ChromiumChannel::Canary),
            macos_bundle_ids: seq!["com.microsoft.edgemac.Canary"@],
            windows_registry_keys: seq!["Microsoft Edge Canary"@],
            linux_desktop_ids: Seq::empty(),
        },
        MetaModel {
            id: "brave"@,
            name: "Brave Browser"@,
            variant: BrowserVariant::Chromium(ChromiumChannel::Stable),
            macos_bundle_ids: seq!["com.brave.Browser"@],
            windows_registry_keys: seq!["BraveSoftware Brave-Browser"@],
            linux_desktop_ids: seq!["brave-browser"@, "brave"@],
        },
        MetaModel {
            id: "brave-beta"@,
            name: "Brave Browser Beta"@,
            variant: BrowserVariant::Chromium(ChromiumChannel::Beta),
            macos_bundle_ids: seq!["com.brave.Browser.beta"@],
            windows_registry_keys: seq!["BraveSoftware Brave-Browser-Beta"@],
            linux_desktop_ids: seq!["brave-browser-beta"@],
        },
        MetaModel {
            id: "brave-nightly"@,
            name: "Brave Browser Nightly"@,
            variant: BrowserVariant::Chromium(ChromiumChannel::Canary),
            macos_bundle_ids: seq!["com.brave.Browser.nightly"@],
            windows_registry_keys: seq!["BraveSoftware Brave-Browser-Nightly"@],
            linux_desktop_ids: seq!["brave-browser-nightly"@],
        },
        MetaModel {
            id: "arc"@,
            name: "Arc"@,
            variant: BrowserVariant::Single(BrowserFamily::Chromium),
            macos_bundle_ids: seq!["company.thebrowser.Browser"@],
            windows_registry_keys: seq!["Arc"@],
            linux_desktop_ids: Seq::empty(),
        },
        MetaModel {
            id: "vivaldi"@,
            name: "Vivaldi"@,
            variant: BrowserVariant::Chromium(ChromiumChannel::Stable),
            macos_bundle_ids: seq!["com.vivaldi.Vivaldi"@],
            windows_registry_keys: seq!["Vivaldi"@],
            linux_desktop_ids: seq!["vivaldi"@, "vivaldi-stable"@],
        },
        MetaModel {
            id: "vivaldi-snapshot"@,
            name: "Vivaldi Snapshot"@,
            variant: BrowserVariant::Chromium(ChromiumChannel::Dev),
            macos_bundle_ids: seq!["com.vivaldi.Vivaldi.snapshot"@],
            windows_registry_keys: seq!["Vivaldi Snapshot"@],
            linux_desktop_ids: seq!["vivaldi-snapshot"@],
        },
        MetaModel {
            id: "opera"@,
            name: "Opera"@,
            variant: BrowserVariant::Chromium(ChromiumChannel::Stable),
            macos_bundle_ids: seq!["com.operasoftware.Opera"@],
            windows_registry_keys: seq!["Opera Stable"@],
            linux_desktop_ids: seq!["opera"@],
        },
        MetaModel {
            id: "opera-beta"@,
            name: "Opera Beta"@,
            variant: BrowserVariant::Chromium(ChromiumChannel::Beta),
            macos_bundle_ids: seq!["com.operasoftware.OperaNext"@],
            windows_registry_keys: seq!["Opera Beta"@],
            linux_desktop_ids: seq!["opera-beta"@],
        },
        MetaModel {
            id: "opera-developer"@,
            name: "Opera Developer"@,
            variant: BrowserVariant::Chromium(ChromiumChannel::Dev),
            macos_bundle_ids: seq!["com.operasoftware.OperaDeveloper"@],
            windows_registry_keys: seq!["Opera Developer"@],
            linux_desktop_ids: seq!["opera-developer"@],
        },
        MetaModel {
            id: "opera-gx"@,
            name: "Opera GX"@,
            variant: BrowserVariant::Single(BrowserFamily::Chromium),
            macos_bundle_ids: seq!["com.operasoftware.OperaGX"@],
            windows_registry_keys: seq!["Opera GX Stable"@],
            linux_desktop_ids: Seq::empty(),
        },
        MetaModel {
            id: "chromium"@,
            name: "Chromium"@,
            variant: BrowserVariant::Chromium(ChromiumChannel::Stable),
            macos_bundle_ids: seq!["org.chromium.Chromium"@],
            windows_registry_keys: seq!["Chromium"@],
            linux_desktop_ids: seq!["chromium"@, "chromium-browser"@],
        },
        MetaModel {
            id: "firefox"@,
            name: "Firefox"@,
            variant: BrowserVariant::Firefox(FirefoxChannel::Stable),
            macos_bundle_ids: seq!["org.mozilla.firefox"@],
            windows_registry_keys: seq!["Firefox"@],
            linux_desktop_ids: seq!["firefox"@],
        },
        MetaModel {
            id: "firefox-beta"@,
            name: "Firefox Beta"@,
            variant: BrowserVariant::Firefox(FirefoxChannel::Beta),
            macos_bundle_ids: seq!["org.mozilla.firefoxbeta"@],
            windows_registry_keys: seq!["Firefox Beta"@],
            linux_desktop_ids: seq!["firefox-beta"@],
        },
        MetaModel {
            id: "firefox-dev"@,
            name: "Firefox Developer Edition"@,
            variant: BrowserVariant::Firefox(FirefoxChannel::Dev),
            macos_bundle_ids: seq!["org.mozilla.firefoxdeveloperedition"@],
            windows_registry_keys: seq!["Firefox Developer Edition"@],
            linux_desktop_ids: seq!["firefox-developer-edition"@, "firefoxdeveloperedition"@],
        },
        MetaModel {
            id: "firefox-nightly"@,
            name: "Firefox Nightly"@,
            variant: BrowserVariant::Firefox(FirefoxChannel::Nightly),
            macos_bundle_ids: seq!["org.mozilla.nightly"@],
            windows_registry_keys: seq!["Firefox Nightly"@],
            linux_desktop_ids: seq!["firefox-nightly"@],
        },
        MetaModel {
            id: "firefox-esr"@,
            name: "Firefox ESR"@,
            variant: BrowserVariant::Firefox(FirefoxChannel::Esr),
            macos_bundle_ids: seq!["org.mozilla.firefoxesr"@],
            windows_registry_keys: seq!["Firefox ESR"@],
            linux_desktop_ids: seq!["firefox-esr"@],
        },
        MetaModel {
            id: "librewolf"@,
            name: "LibreWolf"@,
            variant: BrowserVariant::Single(BrowserFamily::Firefox),
            macos_bundle_ids: seq!["io.gitlab.LibreWolf"@],
            windows_registry_keys: seq!["LibreWolf"@],
            linux_desktop_ids: seq!["librewolf"@, "io.gitlab.librewolf"@],
        },
        MetaModel {
            id: "waterfox"@,
            name: "Waterfox"@,
            variant: BrowserVariant::Single(BrowserFamily::Firefox),
            macos_bundle_ids: seq!["net.waterfox.waterfox"@],
            windows_registry_keys: seq!["Waterfox"@],
            linux_desktop_ids: seq!["waterfox"@, "waterfox-current"@],
        },
        MetaModel {
            id: "floorp"@,
            name: "Floorp"@,
            variant: BrowserVariant::Single(BrowserFamily::Firefox),
            macos_bundle_ids: seq!["one.ablaze.floorp"@],
            windows_registry_keys: seq!["Floorp"@],
            linux_desktop_ids: seq!["floorp"@, "one.ablaze.floorp"@],
        },
        MetaModel {
            id: "safari"@,
            name: "Safari"@,
            variant: BrowserVariant::WebKit(WebKitChannel::Stable),
            macos_bundle_ids: seq!["com.apple.Safari"@],
            windows_registry_keys: Seq::empty(),
            linux_desktop_ids: Seq::empty(),
        },
        MetaModel {
            id: "safari-preview"@,
            name: "Safari Technology Preview"@,
            variant: BrowserVariant::WebKit(WebKitChannel::TechnologyPreview),
            macos_bundle_ids: seq!["com.apple.SafariTechnologyPreview"@],
            windows_registry_keys: Seq::empty(),
            linux_desktop_ids: Seq::empty(),
        },
        MetaModel {
            id: "gnome-web"@,
            name: "GNOME Web"@,
            variant: BrowserVariant::Single(BrowserFamily::WebKit),
            macos_bundle_ids: Seq::empty(),
            windows_registry_keys: Seq::empty(),
            linux_desktop_ids: seq!["org.gnome.Epiphany"@, "epiphany"@, "epiphany-browser"@],
        },    ]
}

/// Returns the registry of known browsers, in registry order.
pub fn known_browsers() -> (r: Vec<BrowserMeta>)
    ensures
        metas_model(r@) == registry_model(),
{
    let r: Vec<BrowserMeta> = vec![
        BrowserMeta {
            id: "chrome",
            name: "Google Chrome",
            variant: BrowserVariant::Chromium(ChromiumChannel::Stable),
            macos_bundle_ids: vec!["com.google.Chrome"],
            windows_registry_keys: vec!["Google Chrome"],
            linux_desktop_ids: vec!["google-chrome", "google-chrome-stable"],
        },
        BrowserMeta {
            id: "chrome-beta",
            name: "Google Chrome Beta",
            variant: BrowserVariant::Chromium(ChromiumChannel::Beta),
            macos_bundle_ids: vec!["com.google.Chrome.beta"],
            windows_registry_keys: vec!["Google Chrome Beta"],
            linux_desktop_ids: vec!["google-chrome-beta"],
        },
        BrowserMeta {
            id: "chrome-dev",
            name: "Google Chrome Dev",
            variant: BrowserVariant::Chromium(ChromiumChannel::Dev),
            macos_bundle_ids: vec!["com.google.Chrome.dev"],
            windows_registry_keys: vec!["Google Chrome Dev"],
            linux_desktop_ids: vec!["google-chrome-unstable"],
        },
        BrowserMeta {
            id: "chrome-canary",
            name: "Google Chrome Canary",
            variant: BrowserVariant::Chromium(ChromiumChannel::Canary),
            macos_bundle_ids: vec!["com.google.Chrome.canary"],
            windows_registry_keys: vec!["Google Chrome Canary"],
            linux_desktop_ids: vec![],
        },
        BrowserMeta {
            id: "edge",
            name: "Microsoft Edge",
            variant: BrowserVariant::Chromium(ChromiumChannel::Stable),
            macos_bundle_ids: vec!["com.microsoft.edgemac"],
            windows_registry_keys: vec!["Microsoft Edge"],
            linux_desktop_ids: vec!["microsoft-edge", "microsoft-edge-stable"],
        },
        BrowserMeta {
            id: "edge-beta",
            name: "Microsoft Edge Beta",
            variant: BrowserVariant::Chromium(ChromiumChannel::Beta),
            macos_bundle_ids: vec!["com.microsoft.edgemac.Beta"],
            windows_registry_keys: vec!["Microsoft Edge Beta"],
            linux_desktop_ids: vec!["microsoft-edge-beta"],
        },
        BrowserMeta {
            id: "edge-dev",
            name: "Microsoft Edge Dev",
            variant: BrowserVariant::Chromium(ChromiumChannel::Dev),
            macos_bundle_ids: vec!["com.microsoft.edgemac.Dev"],
            windows_registry_keys: vec!["Microsoft Edge Dev"],
            linux_desktop_ids: vec!["microsoft-edge-dev"],
        },
        BrowserMeta {
            id: "edge-canary",
            name: "Microsoft Edge Canary",
            variant: BrowserVariant::Chromium(ChromiumChannel::Canary),
            macos_bundle_ids: vec!["com.microsoft.edgemac.Canary"],
            windows_registry_keys: vec!["Microsoft Edge Canary"],
            linux_desktop_ids: vec![],
        },
        BrowserMeta {
            id: "brave",
            name: "Brave Browser",
            variant: BrowserVariant::Chromium(ChromiumChannel::Stable),
            macos_bundle_ids: vec!["com.brave.Browser"],
            windows_registry_keys: vec!["BraveSoftware Brave-Browser"],
            linux_desktop_ids: vec!["brave-browser", "brave"],
        },
        BrowserMeta {
            id: "brave-beta",
            name: "Brave Browser Beta",
            variant: BrowserVariant::Chromium(ChromiumChannel::Beta),
            macos_bundle_ids: vec!["com.brave.Browser.beta"],
            windows_registry_keys: vec!["BraveSoftware Brave-Browser-Beta"],
            linux_desktop_ids: vec!["brave-browser-beta"],
        },
        BrowserMeta {
            id: "brave-nightly",
            name: "Brave Browser Nightly",
            variant: BrowserVariant::Chromium(ChromiumChannel::Canary),
            macos_bundle_ids: vec!["com.brave.Browser.nightly"],
            windows_registry_keys: vec!["BraveSoftware Brave-Browser-Nightly"],
            linux_desktop_ids: vec!["brave-browser-nightly"],
        },
        BrowserMeta {
            id: "arc",
            name: "Arc",
            variant: BrowserVariant::Single(BrowserFamily::Chromium),
            macos_bundle_ids: vec!["company.thebrowser.Browser"],
            windows_registry_keys: vec!["Arc"],
            linux_desktop_ids: vec![],
        },
        BrowserMeta {
            id: "vivaldi",
            name: "Vivaldi",
            variant: BrowserVariant::Chromium(ChromiumChannel::Stable),
            macos_bundle_ids: vec!["com.vivaldi.Vivaldi"],
            windows_registry_keys: vec!["Vivaldi"],
            linux_desktop_ids: vec!["vivaldi", "vivaldi-stable"],
        },
        BrowserMeta {
            id: "vivaldi-snapshot",
            name: "Vivaldi Snapshot",
            variant: BrowserVariant::Chromium(ChromiumChannel::Dev),
            macos_bundle_ids: vec!["com.vivaldi.Vivaldi.snapshot"],
            windows_registry_keys: vec!["Vivaldi Snapshot"],
            linux_desktop_ids: vec!["vivaldi-snapshot"],
        },
        BrowserMeta {
            id: "opera",
            name: "Opera",
            variant: BrowserVariant::Chromium(ChromiumChannel::Stable),
            macos_bundle_ids: vec!["com.operasoftware.Opera"],
            windows_registry_keys: vec!["Opera Stable"],
            linux_desktop_ids: vec!["opera"],
        },
        BrowserMeta {
            id: "opera-beta",
            name: "Opera Beta",
            variant: BrowserVariant::Chromium(ChromiumChannel::Beta),
            macos_bundle_ids: vec!["com.operasoftware.OperaNext"],
            windows_registry_keys: vec!["Opera Beta"],
            linux_desktop_ids: vec!["opera-beta"],
        },
        BrowserMeta {
            id: "opera-developer",
            name: "Opera Developer",
            variant: BrowserVariant::Chromium(ChromiumChannel::Dev),
            macos_bundle_ids: vec!["com.operasoftware.OperaDeveloper"],
            windows_registry_keys: vec!["Opera Developer"],
            linux_desktop_ids: vec!["opera-developer"],
        },
        BrowserMeta {
            id: "opera-gx",
            name: "Opera GX",
            variant: BrowserVariant::Single(BrowserFamily::Chromium),
            macos_bundle_ids: vec!["com.operasoftware.OperaGX"],
            windows_registry_keys: vec!["Opera GX Stable"],
            linux_desktop_ids: vec![],
        },
        BrowserMeta {
            id: "chromium",
            name: "Chromium",
            variant: BrowserVariant::Chromium(ChromiumChannel::Stable),
            macos_bundle_ids: vec!["org.chromium.Chromium"],
            windows_registry_keys: vec!["Chromium"],
            linux_desktop_ids: vec!["chromium", "chromium-browser"],
        },
        BrowserMeta {
            id: "firefox",
            name: "Firefox",
            variant: BrowserVariant::Firefox(FirefoxChannel::Stable),
            macos_bundle_ids: vec!["org.mozilla.firefox"],
            windows_registry_keys: vec!["Firefox"],
            linux_desktop_ids: vec!["firefox"],
        },
        BrowserMeta {
            id: "firefox-beta",
            name: "Firefox Beta",
            variant: BrowserVariant::Firefox(FirefoxChannel::Beta),
            macos_bundle_ids: vec!["org.mozilla.firefoxbeta"],
            windows_registry_keys: vec!["Firefox Beta"],
            linux_desktop_ids: vec!["firefox-beta"],
        },
        BrowserMeta {
            id: "firefox-dev",
            name: "Firefox Developer Edition",
            variant: BrowserVariant::Firefox(FirefoxChannel::Dev),
            macos_bundle_ids: vec!["org.mozilla.firefoxdeveloperedition"],
            windows_registry_keys: vec!["Firefox Developer Edition"],
            linux_desktop_ids: vec!["firefox-developer-edition", "firefoxdeveloperedition"],
        },
        BrowserMeta {
            id: "firefox-nightly",
            name: "Firefox Nightly",
            variant: BrowserVariant::Firefox(FirefoxChannel::Nightly),
            macos_bundle_ids: vec!["org.mozilla.nightly"],
            windows_registry_keys: vec!["Firefox Nightly"],
            linux_desktop_ids: vec!["firefox-nightly"],
        },
        BrowserMeta {
            id: "firefox-esr",
            name: "Firefox ESR",
            variant: BrowserVariant::Firefox(FirefoxChannel::Esr),
            macos_bundle_ids: vec!["org.mozilla.firefoxesr"],
            windows_registry_keys: vec!["Firefox ESR"],
            linux_desktop_ids: vec!["firefox-esr"],
        },
        BrowserMeta {
            id: "librewolf",
            name: "LibreWolf",
            variant: BrowserVariant::Single(BrowserFamily::Firefox),
            macos_bundle_ids: vec!["io.gitlab.LibreWolf"],
            windows_registry_keys: vec!["LibreWolf"],
            linux_desktop_ids: vec!["librewolf", "io.gitlab.librewolf"],
        },
        BrowserMeta {
            id: "waterfox",
            name: "Waterfox",
            variant: BrowserVariant::Single(BrowserFamily::Firefox),
            macos_bundle_ids: vec!["net.waterfox.waterfox"],
            windows_registry_keys: vec!["Waterfox"],
            linux_desktop_ids: vec!["waterfox", "waterfox-current"],
        },
        BrowserMeta {
            id: "floorp",
            name: "Floorp",
            variant: BrowserVariant::Single(BrowserFamily::Firefox),
            macos_bundle_ids: vec!["one.ablaze.floorp"],
            windows_registry_keys: vec!["Floorp"],
            linux_desktop_ids: vec!["floorp", "one.ablaze.floorp"],
        },
        BrowserMeta {
            id: "safari",
            name: "Safari",
            variant: BrowserVariant::WebKit(WebKitChannel::Stable),
            macos_bundle_ids: vec!["com.apple.Safari"],
            windows_registry_keys: vec![],
            linux_desktop_ids: vec![],
        },
        BrowserMeta {
            id: "safari-preview",
            name: "Safari Technology Preview",
            variant: BrowserVariant::WebKit(WebKitChannel::TechnologyPreview),
            macos_bundle_ids: vec!["com.apple.SafariTechnologyPreview"],
            windows_registry_keys: vec![],
            linux_desktop_ids: vec![],
        },
        BrowserMeta {
            id: "gnome-web",
            name: "GNOME Web",
            variant: BrowserVariant::Single(BrowserFamily::WebKit),
            macos_bundle_ids: vec![],
            windows_registry_keys: vec![],
            linux_desktop_ids: vec!["org.gnome.Epiphany", "epiphany", "epiphany-browser"],
        },
    ];
    proof {
        assert(metas_model(r@) =~~= registry_model());
    }
    r
}

/// Whether the list `l` holds the string `x`.
pub open spec fn seq_contains_str(l: Seq<Seq<char>>, x: Seq<char>) -> bool {
    exists|k: int| 0 <= k < l.len() && l[k] == x
}

/// Returns whether some element of `l` equals `x`.
fn list_contains(l: &Vec<&'static str>, x: &str) -> (r: bool)
    ensures
        r == seq_contains_str(strs_model(l@), x@),
{
    let mut i: usize = 0;
    while i < l.len()
        invariant
            0 <= i <= l.len(),
            forall|j: int| 0 <= j < i ==> strs_model(l@)[j] != x@,
        decreases l.len() - i,
    {
        if str_eq(l[i], x) {
            assert(strs_model(l@)[i as int] == x@);
            return true;
        }
        assert(strs_model(l@)[i as int] != x@);
        i += 1;
    }
    false
}

/// The first entry of `t` whose canonical id is `id`, if any.
pub open spec fn find_id_in(t: Seq<MetaModel>, id: Seq<char>) -> Option<MetaModel>
    decreases t.len(),
{
    if t.len() == 0 {
        None
    } else if t[0].id == id {
        Some(t[0])
    } else {
        find_id_in(t.drop_first(), id)
    }
}

/// The first entry of `t` whose macOS bundle-identifier list holds `b`, if
/// any.
pub open spec fn find_bundle_in(t: Seq<MetaModel>, b: Seq<char>) -> Option<MetaModel>
    decreases t.len(),
{
    if t.len() == 0 {
        None
    } else if seq_contains_str(t[0].macos_bundle_ids, b) {
        Some(t[0])
    } else {
        find_bundle_in(t.drop_first(), b)
    }
}

/// The first entry of `t` whose Windows registry-key list holds `k`, if any.
pub open spec fn find_regkey_in(t: Seq<MetaModel>, k: Seq<char>) -> Option<MetaModel>
    decreases t.len(),
{
    if t.len() == 0 {
        None
    } else if seq_contains_str(t[0].windows_registry_keys, k) {
        Some(t[0])
    } else {
        find_regkey_in(t.drop_first(), k)
    }
}

/// The first entry of `t` whose Linux desktop-id list holds `d`, if any.
pub open spec fn find_desktop_in(t: Seq<MetaModel>, d: Seq<char>) -> Option<MetaModel>
    decreases t.len(),
{
    if t.len() == 0 {
        None
    } else if seq_contains_str(t[0].linux_desktop_ids, d) {
        Some(t[0])
    } else {
        find_desktop_in(t.drop_first(), d)
    }
}

/// The registry entry with canonical id `id`, if any.
pub open spec fn spec_find_by_id(id: Seq<char>) -> Option<MetaModel> {
    find_id_in(registry_model(), id)
}

/// The registry entry listing the macOS bundle id `b`, if any.
pub open spec fn spec_find_by_bundle_id(b: Seq<char>) -> Option<MetaModel> {
    find_bundle_in(registry_model(), b)
}

/// The registry entry listing the Windows registry key `k`, if any.
pub open spec fn spec_find_by_registry_key(k: Seq<char>) -> Option<MetaModel> {
    find_regkey_in(registry_model(), k)
}

/// The registry entry listing the Linux desktop id `d`, if any.
pub open spec fn spec_find_by_desktop_id(d: Seq<char>) -> Option<MetaModel> {
    find_desktop_in(registry_model(), d)
}

/// Find browser metadata by canonical ID: the first registry entry whose id
/// equals `id`, or `None` if no entry matches.
pub fn find_by_id(id: &str) -> (r: Option<BrowserMeta>)
    ensures
        match r {
            Some(m) => spec_find_by_id(id@) == Some(m@),
            None => spec_find_by_id(id@) is None,
        },
{
    let t = known_browsers();
    let ghost model = registry_model();
    proof {
        assert(metas_model(t@).len() == t@.len());
        assert(model.skip(0) =~= model);
    }
    let mut i: usize = 0;
    while i < t.len()
        invariant
            0 <= i <= t.len(),
            model == registry_model(),
            metas_model(t@) == registry_model(),
            t.len() == registry_model().len(),
            find_id_in(registry_model().skip(i as int), id@) == spec_find_by_id(id@),
        decreases t.len() - i,
    {
        assert(metas_model(t@)[i as int] == t@[i as int]@);
        assert(t@[i as int]@ == model[i as int]);
        assert(model.skip(i as int)[0] == model[i as int]);
        if str_eq(t[i].id, id) {
            return Some(t[i].clone());
        }
        assert(model.skip(i as int).drop_first() =~= model.skip(i + 1));
        i += 1;
    }
    assert(model.skip(i as int) =~= Seq::<MetaModel>::empty());
    None
}

/// Find browser metadata by macOS bundle identifier: the first registry
/// entry whose bundle-id list holds `bundle_id`, or `None` if none does.
pub fn find_by_bundle_id(bundle_id: &str) -> (r: Option<BrowserMeta>)
    ensures
        match r {
            Some(m) => spec_find_by_bundle_id(bundle_id@) == Some(m@),
            None => spec_find_by_bundle_id(bundle_id@) is None,
        },
{
    let t = known_browsers();
    let ghost model = registry_model();
    proof {
        assert(metas_model(t@).len() == t@.len());
        assert(model.skip(0) =~= model);
    }
    let mut i: usize = 0;
    while i < t.len()
        invariant
            0 <= i <= t.len(),
            model == registry_model(),
            metas_model(t@) == registry_model(),
            t.len() == registry_model().len(),
            find_bundle_in(registry_model().skip(i as int), bundle_id@) == spec_find_by_bundle_id(
                bundle_id@,
            ),
        decreases t.len() - i,
    {
        assert(metas_model(t@)[i as int] == t@[i as int]@);
        assert(t@[i as int]@ == model[i as int]);
        assert(model.skip(i as int)[0] == model[i as int]);
        if list_contains(&t[i].macos_bundle_ids, bundle_id) {
            return Some(t[i].clone());
        }
        assert(model.skip(i as int).drop_first() =~= model.skip(i + 1));
        i += 1;
    }
    assert(model.skip(i as int) =~= Seq::<MetaModel>::empty());
    None
}

/// Find browser metadata by Windows registry key: the first registry entry
/// whose key list holds `key`, or `None` if none does.
pub fn find_by_registry_key(key: &str) -> (r: Option<BrowserMeta>)
    ensures
        match r {
            Some(m) => spec_find_by_registry_key(key@) == Some(m@),
            None => spec_find_by_registry_key(key@) is None,
        },
{
    let t = known_browsers();
    let ghost model = registry_model();
    proof {
        assert(metas_model(t@).len() == t@.len());
        assert(model.skip(0) =~= model);
    }
    let mut i: usize = 0;
    while i < t.len()
        invariant
            0 <= i <= t.len(),
            model == registry_model(),
            metas_model(t@) == registry_model(),
            t.len() == registry_model().len(),
            find_regkey_in(registry_model().skip(i as int), key@) == spec_find_by_registry_key(
                key@,
            ),
        decreases t.len() - i,
    {
        assert(metas_model(t@)[i as int] == t@[i as int]@);
        assert(t@[i as int]@ == model[i as int]);
        assert(model.skip(i as int)[0] == model[i as int]);
        if list_contains(&t[i].windows_registry_keys, key) {
            return Some(t[i].clone());
        }
        assert(model.skip(i as int).drop_first() =~= model.skip(i + 1));
        i += 1;
    }
    assert(model.skip(i as int) =~= Seq::<MetaModel>::empty());
    None
}

/// Find browser metadata by Linux desktop ID: the first registry entry whose
/// desktop-id list holds `desktop_id`, or `None` if none does.
pub fn find_by_desktop_id(desktop_id: &str) -> (r: Option<BrowserMeta>)
    ensures
        match r {
            Some(m) => spec_find_by_desktop_id(desktop_id@) == Some(m@),
            None => spec_find_by_desktop_id(desktop_id@) is None,
        },
{
    let t = known_browsers();
    let ghost model = registry_model();
    proof {
        assert(metas_model(t@).len() == t@.len());
        assert(model.skip(0) =~= model);
    }
    let mut i: usize = 0;
    while i < t.len()
        invariant
            0 <= i <= t.len(),
            model == registry_model(),
            metas_model(t@) == registry_model(),
            t.len() == registry_model().len(),
            find_desktop_in(registry_model().skip(i as int), desktop_id@) == spec_find_by_desktop_id(
                desktop_id@,
            ),
        decreases t.len() - i,
    {
        assert(metas_model(t@)[i as int] == t@[i as int]@);
        assert(t@[i as int]@ == model[i as int]);
        assert(model.skip(i as int)[0] == model[i as int]);
        if list_contains(&t[i].linux_desktop_ids, desktop_id) {
            return Some(t[i].clone());
        }
        assert(model.skip(i as int).drop_first() =~= model.skip(i + 1));
        i += 1;
    }
    assert(model.skip(i as int) =~= Seq::<MetaModel>::empty());
    None
}

/// The canonical ids of the registry are pairwise distinct: two different
/// entries never share an id.
#[verifier::rlimit(100)]
pub proof fn lemma_registry_ids_distinct(i: int, j: int)
    requires
        0 <= i < registry_model().len(),
        0 <= j < registry_model().len(),
        i != j,
    ensures
        registry_model()[i].id != registry_model()[j].id,
{
    reveal_strlit("chrome");
    reveal_strlit("chrome-beta");
    reveal_strlit("chrome-dev");
    reveal_strlit("chrome-canary");
    reveal_strlit("edge");
    reveal_strlit("edge-beta");
    reveal_strlit("edge-dev");
    reveal_strlit("edge-canary");
    reveal_strlit("brave");
    reveal_strlit("brave-beta");
    reveal_strlit("brave-nightly");
    reveal_strlit("arc");
    reveal_strlit("vivaldi");
    reveal_strlit("vivaldi-snapshot");
    reveal_strlit("opera");
    reveal_strlit("opera-beta");
    reveal_strlit("opera-developer");
    reveal_strlit("opera-gx");
    reveal_strlit("chromium");
    reveal_strlit("firefox");
    reveal_strlit("firefox-beta");
    reveal_strlit("firefox-dev");
    reveal_strlit("firefox-nightly");
    reveal_strlit("firefox-esr");
    reveal_strlit("librewolf");
    reveal_strlit("waterfox");
    reveal_strlit("floorp");
    reveal_strlit("safari");
    reveal_strlit("safari-preview");
    reveal_strlit("gnome-web");
    let a = registry_model()[i].id;
    let b = registry_model()[j].id;
    assert(a.len() != b.len() || a[0] != b[0] || a[8] != b[8]);
    assert(a != b);
}

/// Every registry entry is reachable on at least one platform: at least one
/// of its platform-identifier lists is non-empty.
#[verifier::rlimit(100)]
pub proof fn lemma_registry_entries_reachable(i: int)
    requires
        0 <= i < registry_model().len(),
    ensures
        registry_model()[i].macos_bundle_ids.len() > 0
            || registry_model()[i].windows_registry_keys.len() > 0
            || registry_model()[i].linux_desktop_ids.len() > 0,
{
}

} // verus!
