//! The browser data model: identity and per-installation metadata.

use vstd::prelude::*;

use crate::variant::BrowserFamily;
use crate::variant::BrowserVariant;

verus! {

/// Unique identifier for a browser installation: an opaque string identity,
/// stable across platforms and releases.
#[derive(Debug, Hash)]
pub struct BrowserId(pub String);

impl Clone for BrowserId {
    /// Copies the identifier; the copy has the same view.
    fn clone(&self) -> (r: Self)
        ensures
            r@ == self@,
    {
        BrowserId(self.0.clone())
    }
}

impl View for BrowserId {
    type V = Seq<char>;

    open spec fn view(&self) -> Seq<char> {
        self.0@
    }
}

impl BrowserId {
    /// Create a new browser ID.
    pub fn new(id: String) -> (r: Self)
        ensures
            r@ == id@,
    {
        BrowserId(id)
    }
}

/// The mathematical value of a [`Browser`]: every string field as a
/// character sequence.
pub struct BrowserModel {
    /// Canonical identifier.
    pub id: Seq<char>,
    /// Display name.
    pub name: Seq<char>,
    /// Engine family and release channel.
    pub variant: BrowserVariant,
    /// Version string, if one was found.
    pub version: Option<Seq<char>>,
    /// Path of the browser executable; may be empty when unresolved.
    pub executable: Seq<char>,
    /// Bundle identifier (macOS), if any.
    pub bundle_id: Option<Seq<char>>,
}

/// Information about an installed browser.
#[derive(Debug)]
pub struct Browser {
    /// Unique identifier for this browser.
    pub id: BrowserId,
    /// Display name.
    pub name: String,
    /// Browser variant (engine family and release channel).
    pub variant: BrowserVariant,
    /// Version string, if available.
    pub version: Option<String>,
    /// Path to the browser executable; empty when the platform could not
    /// resolve one.
    pub executable: String,
    /// Bundle identifier (macOS), if any.
    pub bundle_id: Option<String>,
}

impl View for Browser {
    type V = BrowserModel;

    open spec fn view(&self) -> BrowserModel {
        BrowserModel {
            id: self.id@,
            name: self.name@,
            variant: self.variant,
            version: match self.version {
                Some(v) => Some(v@),
                None => None,
            },
            executable: self.executable@,
            bundle_id: match self.bundle_id {
                Some(b) => Some(b@),
                None => None,
            },
        }
    }
}

impl Browser {
    /// Create a new browser with minimal information: the default variant,
    /// no version, and no bundle identifier.
    pub fn new(id: String, name: String, executable: String) -> (r: Self)
        ensures
            r@ == (BrowserModel {
                id: id@,
                name: name@,
                variant: BrowserVariant::Single(BrowserFamily::Other),
                version: None,
                executable: executable@,
                bundle_id: None,
            }),
    {
        Browser {
            id: BrowserId::new(id),
            name,
            variant: BrowserVariant::Single(BrowserFamily::Other),
            version: None,
            executable,
            bundle_id: None,
        }
    }

    /// Returns the browser engine family, derived from the variant.
    pub fn family(&self) -> (r: BrowserFamily)
        ensures
            r == self@.variant.spec_family(),
    {
        self.variant.family()
    }

    /// Set the browser variant.
    pub fn with_variant(self, variant: BrowserVariant) -> (r: Self)
        ensures
            r@ == (BrowserModel { variant, ..self@ }),
    {
        Browser { variant, ..self }
    }

    /// Set the browser version.
    pub fn with_version(self, version: String) -> (r: Self)
        ensures
            r@ == (BrowserModel { version: Some(version@), ..self@ }),
    {
        Browser { version: Some(version), ..self }
    }

    /// Set the browser version if one is given; leave it unchanged otherwise.
    pub fn maybe_with_version(self, version: Option<String>) -> (r: Self)
        ensures
            r@ == (BrowserModel {
                version: match version {
                    Some(v) => Some(v@),
                    None => self@.version,
                },
                ..self@
            }),
    {
        match version {
            Some(v) => self.with_version(v),
            None => self,
        }
    }

    /// Set the bundle identifier (macOS).
    pub fn with_bundle_id(self, bundle_id: String) -> (r: Self)
        ensures
            r@ == (BrowserModel { bundle_id: Some(bundle_id@), ..self@ }),
    {
        Browser { bundle_id: Some(bundle_id), ..self }
    }
}

/// A browser profile: a named per-user data directory of one installation.
#[derive(Debug)]
pub struct Profile {
    /// Profile name.
    pub name: String,
    /// Path of the profile directory.
    pub path: String,
    /// Whether this is the browser's default profile.
    pub is_default: bool,
}

impl Clone for Browser {
    /// Copies the browser record; the copy has the same view.
    fn clone(&self) -> (r: Self)
        ensures
            r@ == self@,
    {
        Browser {
            id: self.id.clone(),
            name: self.name.clone(),
            variant: self.variant,
            version: match &self.version {
                Some(v) => Some(v.clone()),
                None => None,
            },
            executable: self.executable.clone(),
            bundle_id: match &self.bundle_id {
                Some(b) => Some(b.clone()),
                None => None,
            },
        }
    }
}

/// The views of a sequence of browsers.
pub open spec fn browsers_model(s: Seq<Browser>) -> Seq<BrowserModel> {
    s.map_values(|b: Browser| b@)
}

} // verus!
