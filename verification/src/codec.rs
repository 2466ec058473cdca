//! The wire form of the data model.
//!
//! Browsers are exchanged with collaborators as records of plain strings; a
//! variant travels as a tag naming its engine line and a value naming its
//! channel (or, for single-line browsers, the engine family). The encoding
//! and decoding here are total over the model and inverse to each other.

use vstd::prelude::*;
use vstd::string::StringExecFns;

use crate::browser::Browser;
use crate::browser::BrowserId;
use crate::browser::BrowserModel;
use crate::text::str_eq;
use crate::variant::BrowserFamily;
use crate::variant::BrowserVariant;
use crate::variant::ChromiumChannel;
use crate::variant::FirefoxChannel;
use crate::variant::WebKitChannel;

verus! {

/// The Chromium channel a channel name denotes, if any.
pub open spec fn spec_chromium_from_name(s: Seq<char>) -> Option<ChromiumChannel> {
    if s == "stable"@ {
        Some(ChromiumChannel::Stable)
    } else if s == "beta"@ {
        Some(ChromiumChannel::Beta)
    } else if s == "dev"@ {
        Some(ChromiumChannel::Dev)
    } else if s == "canary"@ {
        Some(ChromiumChannel::Canary)
    } else {
        None
    }
}

/// The Firefox channel a channel name denotes, if any.
pub open spec fn spec_firefox_from_name(s: Seq<char>) -> Option<FirefoxChannel> {
    if s == "stable"@ {
        Some(FirefoxChannel::Stable)
    } else if s == "beta"@ {
        Some(FirefoxChannel::Beta)
    } else if s == "dev"@ {
        Some(FirefoxChannel::Dev)
    } else if s == "nightly"@ {
        Some(FirefoxChannel::Nightly)
    } else if s == "esr"@ {
        Some(FirefoxChannel::Esr)
    } else {
        None
    }
}

/// The WebKit channel a channel name denotes, if any.
pub open spec fn spec_webkit_from_name(s: Seq<char>) -> Option<WebKitChannel> {
    if s == "stable"@ {
        Some(WebKitChannel::Stable)
    } else if s == "technology-preview"@ {
        Some(WebKitChannel::TechnologyPreview)
    } else {
        None
    }
}

/// The family a family name denotes, if any.
pub open spec fn spec_family_from_name(s: Seq<char>) -> Option<BrowserFamily> {
    if s == "chromium"@ {
        Some(BrowserFamily::Chromium)
    } else if s == "firefox"@ {
        Some(BrowserFamily::Firefox)
    } else if s == "webkit"@ {
        Some(BrowserFamily::WebKit)
    } else if s == "other"@ {
        Some(BrowserFamily::Other)
    } else {
        None
    }
}

/// The wire tag of a variant: the name of its engine line.
pub open spec fn spec_variant_tag(v: BrowserVariant) -> Seq<char> {
    match v {
        BrowserVariant::Chromium(_) => "Chromium"@,
        BrowserVariant::Firefox(_) => "Firefox"@,
        BrowserVariant::WebKit(_) => "WebKit"@,
        BrowserVariant::Single(_) => "Single"@,
    }
}

/// The wire value of a variant: its channel name, or the family name for a
/// single-line browser.
pub open spec fn spec_variant_value(v: BrowserVariant) -> Seq<char> {
    match v {
        BrowserVariant::Chromium(c) => c.spec_canonical_name(),
        BrowserVariant::Firefox(c) => c.spec_canonical_name(),
        BrowserVariant::WebKit(c) => c.spec_canonical_name(),
        BrowserVariant::Single(f) => f.spec_name(),
    }
}

/// The variant a wire tag and value denote, if any.
pub open spec fn spec_variant_from_wire(tag: Seq<char>, value: Seq<char>) -> Option<
    BrowserVariant,
> {
    if tag == "Chromium"@ {
        match spec_chromium_from_name(value) {
            Some(c) => Some(BrowserVariant::Chromium(c)),
            None => None,
        }
    } else if tag == "Firefox"@ {
        match spec_firefox_from_name(value) {
            Some(c) => Some(BrowserVariant::Firefox(c)),
            None => None,
        }
    } else if tag == "WebKit"@ {
        match spec_webkit_from_name(value) {
            Some(c) => Some(BrowserVariant::WebKit(c)),
            None => None,
        }
    } else if tag == "Single"@ {
        match spec_family_from_name(value) {
            Some(f) => Some(BrowserVariant::Single(f)),
            None => None,
        }
    } else {
        None
    }
}

impl BrowserVariant {
    /// The wire tag of this variant: the name of its engine line.
    pub fn wire_tag(self) -> (r: &'static str)
        ensures
            r@ == spec_variant_tag(self),
    {
        match self {
            BrowserVariant::Chromium(_) => "Chromium",
            BrowserVariant::Firefox(_) => "Firefox",
            BrowserVariant::WebKit(_) => "WebKit",
            BrowserVariant::Single(_) => "Single",
        }
    }

    /// The wire value of this variant: its channel name, or the family name
    /// for a single-line browser.
    pub fn wire_value(self) -> (r: &'static str)
        ensures
            r@ == spec_variant_value(self),
    {
        match self {
            BrowserVariant::Chromium(c) => c.canonical_name(),
            BrowserVariant::Firefox(c) => c.canonical_name(),
            BrowserVariant::WebKit(c) => c.canonical_name(),
            BrowserVariant::Single(f) => f.name(),
        }
    }

    /// The variant a wire tag and value denote: `None` exactly when the tag
    /// names no engine line or the value no channel of it.
    pub fn from_wire(tag: &str, value: &str) -> (r: Option<BrowserVariant>)
        ensures
            r == spec_variant_from_wire(tag@, value@),
    {
        if str_eq(tag, "Chromium") {
            if str_eq(value, "stable") {
                Some(BrowserVariant::Chromium(ChromiumChannel::Stable))
            } else if str_eq(value, "beta") {
                Some(BrowserVariant::Chromium(ChromiumChannel::Beta))
            } else if str_eq(value, "dev") {
                Some(BrowserVariant::Chromium(ChromiumChannel::Dev))
            } else if str_eq(value, "canary") {
                Some(BrowserVariant::Chromium(ChromiumChannel::Canary))
            } else {
                None
            }
        } else if str_eq(tag, "Firefox") {
            if str_eq(value, "stable") {
                Some(BrowserVariant::Firefox(FirefoxChannel::Stable))
            } else if str_eq(value, "beta") {
                Some(BrowserVariant::Firefox(FirefoxChannel::Beta))
            } else if str_eq(value, "dev") {
                Some(BrowserVariant::Firefox(FirefoxChannel::Dev))
            } else if str_eq(value, "nightly") {
                Some(BrowserVariant::Firefox(FirefoxChannel::Nightly))
            } else if str_eq(value, "esr") {
                Some(BrowserVariant::Firefox(FirefoxChannel::Esr))
            } else {
                None
            }
        } else if str_eq(tag, "WebKit") {
            if str_eq(value, "stable") {
                Some(BrowserVariant::WebKit(WebKitChannel::Stable))
            } else if str_eq(value, "technology-preview") {
                Some(BrowserVariant::WebKit(WebKitChannel::TechnologyPreview))
            } else {
                None
            }
        } else if str_eq(tag, "Single") {
            if str_eq(value, "chromium") {
                Some(BrowserVariant::Single(BrowserFamily::Chromium))
            } else if str_eq(value, "firefox") {
                Some(BrowserVariant::Single(BrowserFamily::Firefox))
            } else if str_eq(value, "webkit") {
                Some(BrowserVariant::Single(BrowserFamily::WebKit))
            } else if str_eq(value, "other") {
                Some(BrowserVariant::Single(BrowserFamily::Other))
            } else {
                None
            }
        } else {
            None
        }
    }
}

/// Decoding a variant's wire form yields the variant back, for every
/// variant: the wire codec loses nothing.
pub proof fn lemma_variant_wire_round_trip(v: BrowserVariant)
    ensures
        spec_variant_from_wire(spec_variant_tag(v), spec_variant_value(v)) == Some(v),
{
    reveal_strlit("Chromium");
    reveal_strlit("Firefox");
    reveal_strlit("WebKit");
    reveal_strlit("Single");
    reveal_strlit("stable");
    reveal_strlit("beta");
    reveal_strlit("dev");
    reveal_strlit("canary");
    reveal_strlit("nightly");
    reveal_strlit("esr");
    reveal_strlit("technology-preview");
    reveal_strlit("chromium");
    reveal_strlit("firefox");
    reveal_strlit("webkit");
    reveal_strlit("other");
    assert("Chromium"@.len() == 8 && "Firefox"@.len() == 7 && "WebKit"@.len() == 6
        && "Single"@.len() == 6);
    assert("WebKit"@[0] == 'W' && "Single"@[0] == 'S');
    assert("stable"@.len() == 6 && "beta"@.len() == 4 && "dev"@.len() == 3 && "canary"@.len() == 6
        && "nightly"@.len() == 7 && "esr"@.len() == 3 && "technology-preview"@.len() == 18);
    assert("stable"@[0] == 's' && "canary"@[0] == 'c' && "dev"@[0] == 'd' && "esr"@[0] == 'e');
    assert("chromium"@.len() == 8 && "firefox"@.len() == 7 && "webkit"@.len() == 6
        && "other"@.len() == 5);
    match v {
        BrowserVariant::Chromium(c) => match c {
            ChromiumChannel::Stable => {},
            ChromiumChannel::Beta => {},
            ChromiumChannel::Dev => {},
            ChromiumChannel::Canary => {},
        },
        BrowserVariant::Firefox(c) => match c {
            FirefoxChannel::Stable => {},
            FirefoxChannel::Beta => {},
            FirefoxChannel::Dev => {},
            FirefoxChannel::Nightly => {},
            FirefoxChannel::Esr => {},
        },
        BrowserVariant::WebKit(c) => match c {
            WebKitChannel::Stable => {},
            WebKitChannel::TechnologyPreview => {},
        },
        BrowserVariant::Single(f) => match f {
            BrowserFamily::Chromium => {},
            BrowserFamily::Firefox => {},
            BrowserFamily::WebKit => {},
            BrowserFamily::Other => {},
        },
    }
}

/// The wire record of a browser: every field a plain string, the variant
/// split into its tag and value.
pub struct WireBrowserModel {
    /// Canonical identifier.
    pub id: Seq<char>,
    /// Display name.
    pub name: Seq<char>,
    /// The variant's engine-line tag.
    pub variant_type: Seq<char>,
    /// The variant's channel (or family) value.
    pub variant_value: Seq<char>,
    /// Version string, if any.
    pub version: Option<Seq<char>>,
    /// Executable path.
    pub executable: Seq<char>,
    /// Bundle identifier, if any.
    pub bundle_id: Option<Seq<char>>,
}

/// A browser as exchanged with collaborators: plain strings only, the
/// variant split into its engine-line tag and channel value.
pub struct WireBrowser {
    /// Canonical identifier.
    pub id: String,
    /// Display name.
    pub name: String,
    /// The variant's engine-line tag.
    pub variant_type: String,
    /// The variant's channel (or family) value.
    pub variant_value: String,
    /// Version string, if any.
    pub version: Option<String>,
    /// Executable path.
    pub executable: String,
    /// Bundle identifier, if any.
    pub bundle_id: Option<String>,
}

impl View for WireBrowser {
    type V = WireBrowserModel;

    open spec fn view(&self) -> WireBrowserModel {
        WireBrowserModel {
            id: self.id@,
            name: self.name@,
            variant_type: self.variant_type@,
            variant_value: self.variant_value@,
            version: match self.version {
                Some(v) => Some(v@),
                None => None,
            },
            executable: self.executable@,
            bundle_id: match self.bundle_id {
                Some(b) => Some(b@),
                None => None,
            },
        }
    }
}

/// The wire record of a browser.
pub open spec fn spec_browser_to_wire(b: BrowserModel) -> WireBrowserModel {
    WireBrowserModel {
        id: b.id,
        name: b.name,
        variant_type: spec_variant_tag(b.variant),
        variant_value: spec_variant_value(b.variant),
        version: b.version,
        executable: b.executable,
        bundle_id: b.bundle_id,
    }
}

/// The browser a wire record denotes, if its variant decodes.
pub open spec fn spec_browser_from_wire(w: WireBrowserModel) -> Option<BrowserModel> {
    match spec_variant_from_wire(w.variant_type, w.variant_value) {
        None => None,
        Some(variant) => Some(
            BrowserModel {
                id: w.id,
                name: w.name,
                variant,
                version: w.version,
                executable: w.executable,
                bundle_id: w.bundle_id,
            },
        ),
    }
}

/// Encode a browser for exchange with collaborators.
pub fn browser_to_wire(b: &Browser) -> (w: WireBrowser)
    ensures
        w@ == spec_browser_to_wire(b@),
{
    WireBrowser {
        id: b.id.0.clone(),
        name: b.name.clone(),
        variant_type: String::from_str(b.variant.wire_tag()),
        variant_value: String::from_str(b.variant.wire_value()),
        version: match &b.version {
            Some(v) => Some(v.clone()),
            None => None,
        },
        executable: b.executable.clone(),
        bundle_id: match &b.bundle_id {
            Some(v) => Some(v.clone()),
            None => None,
        },
    }
}

/// Decode a browser from its wire record: `None` exactly when the variant
/// tag or value is not one the model knows.
pub fn browser_from_wire(w: &WireBrowser) -> (r: Option<Browser>)
    ensures
        match r {
            Some(b) => spec_browser_from_wire(w@) == Some(b@),
            None => spec_browser_from_wire(w@) is None,
        },
{
    match BrowserVariant::from_wire(w.variant_type.as_str(), w.variant_value.as_str()) {
        None => None,
        Some(variant) => Some(
            Browser {
                id: BrowserId(w.id.clone()),
                name: w.name.clone(),
                variant,
                version: match &w.version {
                    Some(v) => Some(v.clone()),
                    None => None,
                },
                executable: w.executable.clone(),
                bundle_id: match &w.bundle_id {
                    Some(v) => Some(v.clone()),
                    None => None,
                },
            },
        ),
    }
}

/// Decoding a browser's wire record yields the browser back, for every
/// browser: the wire codec loses nothing.
pub proof fn lemma_browser_wire_round_trip(b: BrowserModel)
    ensures
        spec_browser_from_wire(spec_browser_to_wire(b)) == Some(b),
{
    lemma_variant_wire_round_trip(b.variant);
}

} // verus!
