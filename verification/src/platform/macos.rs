//! macOS browser detection over launch-handler records.
//!
//! A candidate browser is an application the launch-services registry
//! reports as an HTTPS handler: a bundle identifier, the bundle's resolved
//! location, and the bundle's property-list manifest. Nested bundles (helper
//! applications inside another bundle) are filtered out; the rest are
//! matched against the known-browser registry by bundle identifier.

use vstd::prelude::*;
use vstd::string::StrSliceExecFns;
use vstd::string::StringExecFns;

use crate::browser::browsers_model;
use crate::browser::Browser;
use crate::browser::BrowserModel;
use crate::registry::find_by_bundle_id;
use crate::registry::spec_find_by_bundle_id;
use crate::text::contains_seq;
use crate::text::contains_str;
use crate::text::lemma_rfind_from;
use crate::text::rfind_seq;
use crate::text::rfind_str;
use crate::variant::BrowserFamily;
use crate::variant::BrowserVariant;

verus! {

/// The string stored under `key` in the top-level dictionary of the
/// property list `bytes`, if the bytes parse to a dictionary holding a
/// string there; a function of the bytes and the key alone.
pub uninterp spec fn plist_string_of(bytes: Seq<u8>, key: Seq<char>) -> Option<Seq<char>>;

/// Relies on plist::Value::from_reader, Value::as_dictionary,
/// Dictionary::get and Value::as_string: reads the string stored under
/// `key` in the top-level dictionary of the property list `bytes`. The
/// result depends on the bytes and the key alone.
#[verifier::external_body]
fn plist_string_value(bytes: &Vec<u8>, key: &str) -> (r: Option<String>)
    ensures
        match r {
            Some(s) => plist_string_of(bytes@, key@) == Some(s@),
            None => plist_string_of(bytes@, key@) is None,
        },
{
    let value = plist::Value::from_reader(std::io::Cursor::new(bytes.as_slice())).ok()?;
    let dict = value.as_dictionary()?;
    dict.get(key).and_then(plist::Value::as_string).map(str::to_owned)
}

/// The version a bundle manifest declares: its short version string, or its
/// build version when no short version is present.
pub open spec fn plist_version_of(bytes: Seq<u8>) -> Option<Seq<char>> {
    match plist_string_of(bytes, "CFBundleShortVersionString"@) {
        Some(v) => Some(v),
        None => plist_string_of(bytes, "CFBundleVersion"@),
    }
}

/// Extract the application version from manifest bytes:
/// `CFBundleShortVersionString`, falling back to `CFBundleVersion`.
pub fn extract_version_from_plist(bytes: &Vec<u8>) -> (r: Option<String>)
    ensures
        match r {
            Some(v) => plist_version_of(bytes@) == Some(v@),
            None => plist_version_of(bytes@) is None,
        },
{
    match plist_string_value(bytes, "CFBundleShortVersionString") {
        Some(v) => Some(v),
        None => plist_string_value(bytes, "CFBundleVersion"),
    }
}

/// The display name a bundle manifest declares: its display name, or its
/// bundle name when no display name is present.
pub open spec fn plist_name_of(bytes: Seq<u8>) -> Option<Seq<char>> {
    match plist_string_of(bytes, "CFBundleDisplayName"@) {
        Some(n) => Some(n),
        None => plist_string_of(bytes, "CFBundleName"@),
    }
}

/// Extract the application display name from manifest bytes:
/// `CFBundleDisplayName`, falling back to `CFBundleName`.
pub fn extract_name_from_plist(bytes: &Vec<u8>) -> (r: Option<String>)
    ensures
        match r {
            Some(n) => plist_name_of(bytes@) == Some(n@),
            None => plist_name_of(bytes@) is None,
        },
{
    match plist_string_value(bytes, "CFBundleDisplayName") {
        Some(n) => Some(n),
        None => plist_string_value(bytes, "CFBundleName"),
    }
}

/// Extract the declared executable name (`CFBundleExecutable`) from
/// manifest bytes.
pub fn get_executable_name_from_plist(bytes: &Vec<u8>) -> (r: Option<String>)
    ensures
        match r {
            Some(e) => plist_string_of(bytes@, "CFBundleExecutable"@) == Some(e@),
            None => plist_string_of(bytes@, "CFBundleExecutable"@) is None,
        },
{
    plist_string_value(bytes, "CFBundleExecutable")
}

/// Whether a bundle path lies inside another bundle: the path before its
/// last `.app` still holds an earlier `.app/` boundary.
pub open spec fn nested_app(path: Seq<char>) -> bool {
    match rfind_seq(path, ".app"@) {
        Some(p) => contains_seq(path.take(p), ".app/"@),
        None => false,
    }
}

/// Check if an application bundle is nested inside another bundle, as
/// helper applications are: whether the path before its final `.app`
/// segment still holds an earlier `.app/` boundary.
pub fn is_nested_app(app_path: &str) -> (r: bool)
    ensures
        r == nested_app(app_path@),
{
    match rfind_str(app_path, ".app") {
        None => false,
        Some(p) => {
            proof {
                lemma_rfind_from(app_path@, ".app"@, app_path@.len() as int);
            }
            let before = app_path.substring_char(0, p);
            contains_str(before, ".app/")
        },
    }
}

/// The part of `s` after its last dot, or all of `s` if it has none.
pub open spec fn last_dot_segment(s: Seq<char>) -> Seq<char> {
    match rfind_seq(s, "."@) {
        Some(p) => s.skip(p + 1),
        None => s,
    }
}

/// Derive a display name from a bundle identifier: its last dot-separated
/// segment (`com.example.MyBrowser` yields `MyBrowser`).
pub fn derive_name_from_bundle_id(bundle_id: &str) -> (r: Option<String>)
    ensures
        match r {
            Some(n) => n@ == last_dot_segment(bundle_id@),
            None => false,
        },
{
    match rfind_str(bundle_id, ".") {
        None => Some(bundle_id.to_owned()),
        Some(p) => {
            proof {
                reveal_strlit(".");
                lemma_rfind_from(bundle_id@, "."@, bundle_id@.len() as int);
            }
            let n = bundle_id.unicode_len();
            Some(bundle_id.substring_char(p + 1, n).to_owned())
        },
    }
}

/// The part of `s` after its last slash, or all of `s` if it has none.
pub open spec fn last_path_segment(s: Seq<char>) -> Seq<char> {
    match rfind_seq(s, "/"@) {
        Some(p) => s.skip(p + 1),
        None => s,
    }
}

/// The file stem of a name: the part before its last dot, except that a
/// name whose only dot leads it is kept whole.
pub open spec fn stem_of(name: Seq<char>) -> Seq<char> {
    match rfind_seq(name, "."@) {
        None => name,
        Some(p) => if p == 0 {
            name
        } else {
            name.take(p)
        },
    }
}

/// The name used for the fallback executable path: the bundle directory's
/// stem, or `executable` when that stem is empty.
pub open spec fn macos_fallback_name(path: Seq<char>) -> Seq<char> {
    let st = stem_of(last_path_segment(path));
    if st.len() == 0 {
        "executable"@
    } else {
        st
    }
}

/// Returns `macos_fallback_name(app_path@)`.
fn fallback_executable_name(app_path: &str) -> (r: String)
    ensures
        r@ == macos_fallback_name(app_path@),
{
    let seg = match rfind_str(app_path, "/") {
        None => app_path.to_owned(),
        Some(p) => {
            proof {
                reveal_strlit("/");
                lemma_rfind_from(app_path@, "/"@, app_path@.len() as int);
            }
            let n = app_path.unicode_len();
            app_path.substring_char(p + 1, n).to_owned()
        },
    };
    let st = match rfind_str(seg.as_str(), ".") {
        None => seg,
        Some(p) => {
            proof {
                lemma_rfind_from(seg@, "."@, seg@.len() as int);
            }
            if p == 0 {
                seg
            } else {
                seg.as_str().substring_char(0, p).to_owned()
            }
        },
    };
    if st.as_str().unicode_len() == 0 {
        String::from_str("executable")
    } else {
        st
    }
}

/// Joins an application path and an executable name into the bundle's
/// binary path.
pub fn macos_executable_candidate(app_path: &str, exec_name: &str) -> (r: String)
    ensures
        r@ == app_path@ + "/Contents/MacOS/"@ + exec_name@,
{
    String::from_str(app_path).concat("/Contents/MacOS/").concat(exec_name)
}

/// The executable path recorded for a bundle: the manifest's declared
/// executable joined to the bundle's binary directory when that path
/// exists, else a path built from the bundle directory's own name (kept
/// even if unverified: executable existence is advisory).
pub open spec fn executable_path_spec(
    app_path: Seq<char>,
    plist: Option<Seq<u8>>,
    plist_exec_exists: bool,
) -> Seq<char> {
    let exec_name = match plist {
        Some(b) => plist_string_of(b, "CFBundleExecutable"@),
        None => None,
    };
    match exec_name {
        Some(e) => if plist_exec_exists {
            app_path + "/Contents/MacOS/"@ + e
        } else {
            app_path + "/Contents/MacOS/"@ + macos_fallback_name(app_path)
        },
        None => app_path + "/Contents/MacOS/"@ + macos_fallback_name(app_path),
    }
}

/// Find the main executable inside an application bundle. The caller states
/// with `plist_exec_exists` whether the path named by the manifest's
/// `CFBundleExecutable` exists on disk; when it does not, the fallback path
/// built from the bundle's own name is used.
pub fn find_executable(app_path: &str, plist: Option<&Vec<u8>>, plist_exec_exists: bool) -> (r:
    String)
    ensures
        r@ == executable_path_spec(
            app_path@,
            match plist {
                Some(b) => Some(b@),
                None => None,
            },
            plist_exec_exists,
        ),
{
    let exec_name = match plist {
        Some(b) => get_executable_name_from_plist(b),
        None => None,
    };
    match exec_name {
        Some(e) => if plist_exec_exists {
            macos_executable_candidate(app_path, e.as_str())
        } else {
            let name = fallback_executable_name(app_path);
            macos_executable_candidate(app_path, name.as_str())
        },
        None => {
            let name = fallback_executable_name(app_path);
            macos_executable_candidate(app_path, name.as_str())
        },
    }
}

/// The mathematical value of a [`MacosCandidate`].
pub struct MacosCandidateModel {
    /// The handler's bundle identifier.
    pub bundle_id: Seq<char>,
    /// The bundle's resolved location, `None` when resolution failed.
    pub app_path: Option<Seq<char>>,
    /// The bytes of the bundle's `Info.plist`, if readable.
    pub plist: Option<Seq<u8>>,
    /// Whether the executable path named by the manifest exists on disk.
    pub plist_exec_exists: bool,
}

/// One HTTPS-handler record as the launch-services registry reports it,
/// together with the bundle's manifest bytes. The caller gathers these;
/// everything else is computed here.
pub struct MacosCandidate {
    /// The handler's bundle identifier.
    pub bundle_id: String,
    /// The bundle's resolved location, `None` when resolution failed.
    pub app_path: Option<String>,
    /// The bytes of the bundle's `Info.plist`, if readable.
    pub plist: Option<Vec<u8>>,
    /// Whether the executable path named by the manifest exists on disk.
    pub plist_exec_exists: bool,
}

impl View for MacosCandidate {
    type V = MacosCandidateModel;

    open spec fn view(&self) -> MacosCandidateModel {
        MacosCandidateModel {
            bundle_id: self.bundle_id@,
            app_path: match self.app_path {
                Some(p) => Some(p@),
                None => None,
            },
            plist: match self.plist {
                Some(b) => Some(b@),
                None => None,
            },
            plist_exec_exists: self.plist_exec_exists,
        }
    }
}

/// The views of a sequence of candidates.
pub open spec fn macos_candidates_model(s: Seq<MacosCandidate>) -> Seq<MacosCandidateModel> {
    s.map_values(|c: MacosCandidate| c@)
}

/// The name recorded for a handler with no registry entry: the manifest's
/// display or bundle name, else the last dot-separated segment of the
/// bundle identifier.
pub open spec fn unknown_name_spec(c: MacosCandidateModel) -> Seq<char> {
    match c.plist {
        Some(b) => match plist_name_of(b) {
            Some(n) => n,
            None => last_dot_segment(c.bundle_id),
        },
        None => last_dot_segment(c.bundle_id),
    }
}

/// The browser built for one handler at the given bundle location: registry
/// metadata when the bundle identifier is known, metadata derived from the
/// manifest otherwise.
pub open spec fn macos_build_spec(c: MacosCandidateModel, app_path: Seq<char>) -> BrowserModel {
    let version = match c.plist {
        Some(b) => plist_version_of(b),
        None => None,
    };
    let executable = executable_path_spec(app_path, c.plist, c.plist_exec_exists);
    match spec_find_by_bundle_id(c.bundle_id) {
        Some(meta) => BrowserModel {
            id: meta.id,
            name: meta.name,
            variant: meta.variant,
            version,
            executable,
            bundle_id: Some(c.bundle_id),
        },
        None => BrowserModel {
            id: c.bundle_id,
            name: unknown_name_spec(c),
            variant: BrowserVariant::Single(BrowserFamily::Other),
            version,
            executable,
            bundle_id: Some(c.bundle_id),
        },
    }
}

/// Build a browser from a handler record and its resolved bundle location.
pub fn build_browser(c: &MacosCandidate, app_path: &str) -> (r: Browser)
    ensures
        r@ == macos_build_spec(c@, app_path@),
{
    let version = match &c.plist {
        Some(b) => extract_version_from_plist(b),
        None => None,
    };
    let executable = find_executable(
        app_path,
        match &c.plist {
            Some(b) => Some(b),
            None => None,
        },
        c.plist_exec_exists,
    );
    match find_by_bundle_id(c.bundle_id.as_str()) {
        Some(meta) => Browser::new(
            String::from_str(meta.id),
            String::from_str(meta.name),
            executable,
        ).with_variant(meta.variant).with_bundle_id(c.bundle_id.clone()).maybe_with_version(
            version,
        ),
        None => {
            let name = match &c.plist {
                Some(b) => match extract_name_from_plist(b) {
                    Some(n) => n,
                    None => match derive_name_from_bundle_id(c.bundle_id.as_str()) {
                        Some(n) => n,
                        None => c.bundle_id.clone(),
                    },
                },
                None => match derive_name_from_bundle_id(c.bundle_id.as_str()) {
                    Some(n) => n,
                    None => c.bundle_id.clone(),
                },
            };
            Browser::new(c.bundle_id.clone(), name, executable).with_variant(
                BrowserVariant::Single(BrowserFamily::Other),
            ).with_bundle_id(c.bundle_id.clone()).maybe_with_version(version)
        },
    }
}

/// The browser one handler yields: `None` when its bundle location did not
/// resolve or names a nested bundle.
pub open spec fn macos_candidate_spec(c: MacosCandidateModel) -> Option<BrowserModel> {
    match c.app_path {
        None => None,
        Some(p) => if nested_app(p) {
            None
        } else {
            Some(macos_build_spec(c, p))
        },
    }
}

/// Turns one handler record into a browser: skips unresolved and nested
/// bundles, then builds the enriched record.
pub fn candidate_browser(c: &MacosCandidate) -> (r: Option<Browser>)
    ensures
        match r {
            Some(b) => macos_candidate_spec(c@) == Some(b@),
            None => macos_candidate_spec(c@) is None,
        },
{
    let app_path = match &c.app_path {
        Some(p) => p,
        None => {
            return None;
        },
    };
    if is_nested_app(app_path.as_str()) {
        return None;
    }
    Some(build_browser(c, app_path.as_str()))
}

/// The browsers the handlers from position `i` on yield, in order.
pub open spec fn macos_detect_from(cands: Seq<MacosCandidateModel>, i: int) -> Seq<BrowserModel>
    decreases cands.len() - i,
{
    if !(0 <= i < cands.len()) {
        Seq::empty()
    } else {
        match macos_candidate_spec(cands[i]) {
            None => macos_detect_from(cands, i + 1),
            Some(b) => seq![b] + macos_detect_from(cands, i + 1),
        }
    }
}

/// The browsers a list of handler records yields: one per resolved,
/// non-nested bundle, in input order.
pub open spec fn macos_detect_spec(cands: Seq<MacosCandidateModel>) -> Seq<BrowserModel> {
    macos_detect_from(cands, 0)
}

/// Detect all browsers among the given handler records: each record whose
/// bundle resolved to a non-nested location yields one browser, in input
/// order.
pub fn detect_browsers(handlers: &Vec<MacosCandidate>) -> (r: Vec<Browser>)
    ensures
        browsers_model(r@) == macos_detect_spec(macos_candidates_model(handlers@)),
{
    let ghost cm = macos_candidates_model(handlers@);
    let mut out: Vec<Browser> = Vec::new();
    proof {
        assert(browsers_model(out@) + macos_detect_from(cm, 0) =~= macos_detect_from(cm, 0));
    }
    let mut i: usize = 0;
    while i < handlers.len()
        invariant
            0 <= i <= handlers.len(),
            cm == macos_candidates_model(handlers@),
            browsers_model(out@) + macos_detect_from(cm, i as int) == macos_detect_from(cm, 0),
        decreases handlers.len() - i,
    {
        let ghost pre_out = out@;
        assert(cm[i as int] == handlers@[i as int]@);
        match candidate_browser(&handlers[i]) {
            None => {},
            Some(b) => {
                let ghost bm = b@;
                out.push(b);
                proof {
                    assert(browsers_model(out@) =~= browsers_model(pre_out) + seq![bm]);
                    assert(browsers_model(pre_out) + (seq![bm] + macos_detect_from(cm, i + 1))
                        =~= (browsers_model(pre_out) + seq![bm]) + macos_detect_from(cm, i + 1));
                }
            },
        }
        i += 1;
    }
    out
}

/// The default browser a default-handler record yields: the record's
/// browser, or nothing when the record is absent, unresolved, or names a
/// nested bundle (a nested default is discarded, not substituted).
pub open spec fn macos_default_spec(c: Option<MacosCandidateModel>) -> Option<BrowserModel> {
    match c {
        None => None,
        Some(cand) => macos_candidate_spec(cand),
    }
}

/// Detect the default browser from the default-handler record, if the
/// launch-services registry reported one.
pub fn detect_default_browser(default_handler: Option<&MacosCandidate>) -> (r: Option<Browser>)
    ensures
        match r {
            Some(b) => macos_default_spec(
                match default_handler {
                    Some(c) => Some(c@),
                    None => None,
                },
            ) == Some(b@),
            None => macos_default_spec(
                match default_handler {
                    Some(c) => Some(c@),
                    None => None,
                },
            ) is None,
        },
{
    match default_handler {
        None => None,
        Some(c) => candidate_browser(c),
    }
}

} // verus!
