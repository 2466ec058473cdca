//! Browser engine families, release channels, and the combined variant type.
//!
//! Each engine family has its own closed set of release channels. A
//! `BrowserVariant` pairs an engine family with a channel; the family is
//! always derivable from the variant and is never stored independently.

use vstd::prelude::*;

verus! {

/// Browser engine family.
#[derive(Debug, Clone, Copy, PartialEq, Eq, Hash, Structural)]
pub enum BrowserFamily {
    /// Chromium-based browsers (Chrome, Edge, Brave, Arc, and others).
    Chromium,
    /// Firefox-based browsers (Firefox, LibreWolf, Waterfox, and others).
    Firefox,
    /// WebKit-based browsers (Safari, GNOME Web, and others).
    WebKit,
    /// Unknown or other browser engines.
    Other,
}

impl Default for BrowserFamily {
    fn default() -> (r: Self)
        ensures
            r == BrowserFamily::Other,
    {
        BrowserFamily::Other
    }
}

impl BrowserFamily {
    /// The lower-case name under which the family is printed and serialized.
    pub open spec fn spec_name(self) -> Seq<char> {
        match self {
            BrowserFamily::Chromium => "chromium"@,
            BrowserFamily::Firefox => "firefox"@,
            BrowserFamily::WebKit => "webkit"@,
            BrowserFamily::Other => "other"@,
        }
    }

    /// Returns the lower-case name of the family.
    pub fn name(&self) -> (r: &'static str)
        ensures
            r@ == self.spec_name(),
    {
        match self {
            BrowserFamily::Chromium => "chromium",
            BrowserFamily::Firefox => "firefox",
            BrowserFamily::WebKit => "webkit",
            BrowserFamily::Other => "other",
        }
    }
}

/// Release channels for Chromium-based browsers.
#[derive(Debug, Clone, Copy, PartialEq, Eq, Hash, Structural)]
pub enum ChromiumChannel {
    /// Stable release channel.
    Stable,
    /// Beta release channel.
    Beta,
    /// Developer release channel.
    Dev,
    /// Canary (bleeding edge) release channel.
    Canary,
}

impl Default for ChromiumChannel {
    fn default() -> (r: Self)
        ensures
            r == ChromiumChannel::Stable,
    {
        ChromiumChannel::Stable
    }
}

impl ChromiumChannel {
    /// The canonical string name of the channel.
    pub open spec fn spec_canonical_name(self) -> Seq<char> {
        match self {
            ChromiumChannel::Stable => "stable"@,
            ChromiumChannel::Beta => "beta"@,
            ChromiumChannel::Dev => "dev"@,
            ChromiumChannel::Canary => "canary"@,
        }
    }

    /// Returns the canonical string name for this channel.
    pub fn canonical_name(self) -> (r: &'static str)
        ensures
            r@ == self.spec_canonical_name(),
    {
        match self {
            ChromiumChannel::Stable => "stable",
            ChromiumChannel::Beta => "beta",
            ChromiumChannel::Dev => "dev",
            ChromiumChannel::Canary => "canary",
        }
    }
}

/// Release channels for Firefox-based browsers.
#[derive(Debug, Clone, Copy, PartialEq, Eq, Hash, Structural)]
pub enum FirefoxChannel {
    /// Stable release channel.
    Stable,
    /// Beta release channel.
    Beta,
    /// Developer Edition release channel.
    Dev,
    /// Nightly (bleeding edge) release channel.
    Nightly,
    /// Extended Support Release channel.
    Esr,
}

impl Default for FirefoxChannel {
    fn default() -> (r: Self)
        ensures
            r == FirefoxChannel::Stable,
    {
        FirefoxChannel::Stable
    }
}

impl FirefoxChannel {
    /// The canonical string name of the channel.
    pub open spec fn spec_canonical_name(self) -> Seq<char> {
        match self {
            FirefoxChannel::Stable => "stable"@,
            FirefoxChannel::Beta => "beta"@,
            FirefoxChannel::Dev => "dev"@,
            FirefoxChannel::Nightly => "nightly"@,
            FirefoxChannel::Esr => "esr"@,
        }
    }

    /// Returns the canonical string name for this channel.
    pub fn canonical_name(self) -> (r: &'static str)
        ensures
            r@ == self.spec_canonical_name(),
    {
        match self {
            FirefoxChannel::Stable => "stable",
            FirefoxChannel::Beta => "beta",
            FirefoxChannel::Dev => "dev",
            FirefoxChannel::Nightly => "nightly",
            FirefoxChannel::Esr => "esr",
        }
    }
}

/// Release channels for WebKit-based browsers.
#[derive(Debug, Clone, Copy, PartialEq, Eq, Hash, Structural)]
pub enum WebKitChannel {
    /// Stable release channel.
    Stable,
    /// Safari Technology Preview.
    TechnologyPreview,
}

impl Default for WebKitChannel {
    fn default() -> (r: Self)
        ensures
            r == WebKitChannel::Stable,
    {
        WebKitChannel::Stable
    }
}

impl WebKitChannel {
    /// The canonical string name of the channel.
    pub open spec fn spec_canonical_name(self) -> Seq<char> {
        match self {
            WebKitChannel::Stable => "stable"@,
            WebKitChannel::TechnologyPreview => "technology-preview"@,
        }
    }

    /// Returns the canonical string name for this channel.
    pub fn canonical_name(self) -> (r: &'static str)
        ensures
            r@ == self.spec_canonical_name(),
    {
        match self {
            WebKitChannel::Stable => "stable",
            WebKitChannel::TechnologyPreview => "technology-preview",
        }
    }
}

/// Browser variant combining engine family and release channel.
#[derive(Debug, Clone, Copy, PartialEq, Eq, Hash, Structural)]
pub enum BrowserVariant {
    /// Chromium-based browser with a specific release channel.
    Chromium(ChromiumChannel),
    /// Firefox-based browser with a specific release channel.
    Firefox(FirefoxChannel),
    /// WebKit-based browser with a specific release channel.
    WebKit(WebKitChannel),
    /// Browser with a single release line, carrying only its engine family.
    Single(BrowserFamily),
}

impl Default for BrowserVariant {
    fn default() -> (r: Self)
        ensures
            r == BrowserVariant::Single(BrowserFamily::Other),
    {
        BrowserVariant::Single(BrowserFamily::Other)
    }
}

impl BrowserVariant {
    /// The engine family implied by the variant's tag: each engine-specific
    /// tag maps to its own family, and `Single(f)` maps to `f`.
    pub open spec fn spec_family(self) -> BrowserFamily {
        match self {
            BrowserVariant::Chromium(_) => BrowserFamily::Chromium,
            BrowserVariant::Firefox(_) => BrowserFamily::Firefox,
            BrowserVariant::WebKit(_) => BrowserFamily::WebKit,
            BrowserVariant::Single(family) => family,
        }
    }

    /// Returns the browser engine family for this variant.
    pub fn family(self) -> (r: BrowserFamily)
        ensures
            r == self.spec_family(),
    {
        match self {
            BrowserVariant::Chromium(_) => BrowserFamily::Chromium,
            BrowserVariant::Firefox(_) => BrowserFamily::Firefox,
            BrowserVariant::WebKit(_) => BrowserFamily::WebKit,
            BrowserVariant::Single(family) => family,
        }
    }

    /// The canonical channel name of the variant; single-line browsers
    /// report the stable channel.
    pub open spec fn spec_canonical_name(self) -> Seq<char> {
        match self {
            BrowserVariant::Chromium(c) => c.spec_canonical_name(),
            BrowserVariant::Firefox(c) => c.spec_canonical_name(),
            BrowserVariant::WebKit(c) => c.spec_canonical_name(),
            BrowserVariant::Single(_) => "stable"@,
        }
    }

    /// Returns the canonical string name for this variant's channel.
    pub fn canonical_name(self) -> (r: &'static str)
        ensures
            r@ == self.spec_canonical_name(),
    {
        match self {
            BrowserVariant::Chromium(c) => c.canonical_name(),
            BrowserVariant::Firefox(c) => c.canonical_name(),
            BrowserVariant::WebKit(c) => c.canonical_name(),
            BrowserVariant::Single(_) => "stable",
        }
    }

    /// Creates a default Chromium variant (stable channel).
    pub fn chromium_stable() -> (r: Self)
        ensures
            r == BrowserVariant::Chromium(ChromiumChannel::Stable),
    {
        BrowserVariant::Chromium(ChromiumChannel::Stable)
    }

    /// Creates a default Firefox variant (stable channel).
    pub fn firefox_stable() -> (r: Self)
        ensures
            r == BrowserVariant::Firefox(FirefoxChannel::Stable),
    {
        BrowserVariant::Firefox(FirefoxChannel::Stable)
    }

    /// Creates a default WebKit variant (stable channel).
    pub fn webkit_stable() -> (r: Self)
        ensures
            r == BrowserVariant::WebKit(WebKitChannel::Stable),
    {
        BrowserVariant::WebKit(WebKitChannel::Stable)
    }

    /// Creates a single-channel browser variant with the given family.
    pub fn single(family: BrowserFamily) -> (r: Self)
        ensures
            r == BrowserVariant::Single(family),
    {
        BrowserVariant::Single(family)
    }
}

/// The family of a variant is total and matches the engine implied by the
/// variant's tag: `Chromium(_)` maps to the Chromium family, `Firefox(_)` to
/// Firefox, `WebKit(_)` to WebKit, and `Single(f)` to `f` itself.
pub proof fn lemma_family_matches_tag(v: BrowserVariant)
    ensures
        v matches BrowserVariant::Chromium(_) ==> v.spec_family() == BrowserFamily::Chromium,
        v matches BrowserVariant::Firefox(_) ==> v.spec_family() == BrowserFamily::Firefox,
        v matches BrowserVariant::WebKit(_) ==> v.spec_family() == BrowserFamily::WebKit,
        forall|f: BrowserFamily| v == BrowserVariant::Single(f) ==> v.spec_family() == f,
{
}

} // verus!
