//! Browser discovery and metadata resolution.
//!
//! The crate models installed web browsers: a stable identity, an engine
//! family, a release channel, and best-effort metadata (version, executable
//! path). Platform detection turns raw operating-system signals — gathered
//! by the caller and handed in as plain values — into a canonical list of
//! browsers, enriched through a registry of known browsers.

pub mod browser;
pub mod codec;
pub mod platform;
pub mod registry;
pub mod text;
pub mod variant;

pub use browser::Browser;
pub use browser::BrowserId;
pub use browser::Profile;
pub use platform::PlatformSignals;
pub use variant::BrowserFamily;
pub use variant::BrowserVariant;
pub use variant::ChromiumChannel;
pub use variant::FirefoxChannel;
pub use variant::WebKitChannel;

use vstd::prelude::*;

use crate::browser::browsers_model;
use crate::browser::BrowserModel;
use crate::platform::default_spec;
use crate::platform::detect_spec;

verus! {

/// Detect all installed browsers from the platform's signals. The list
/// holds one entry per detected installation; callers must not rely on its
/// order.
pub fn detect_browsers(signals: &PlatformSignals) -> (r: Vec<Browser>)
    ensures
        browsers_model(r@) == detect_spec(signals@),
{
    platform::detect_browsers(signals)
}

/// The first browser of `bs`, from position `i` on, whose canonical id is
/// `id`.
pub open spec fn find_id_browser(bs: Seq<BrowserModel>, i: int, id: Seq<char>) -> Option<
    BrowserModel,
>
    decreases bs.len() - i,
{
    if !(0 <= i < bs.len()) {
        None
    } else if bs[i].id == id {
        Some(bs[i])
    } else {
        find_id_browser(bs, i + 1, id)
    }
}

/// Detect a specific browser by its canonical ID: the first detected
/// browser whose id matches, or `None` when the browser is not installed.
pub fn detect_browser(signals: &PlatformSignals, id: &str) -> (r: Option<Browser>)
    ensures
        match r {
            Some(b) => find_id_browser(detect_spec(signals@), 0, id@) == Some(b@),
            None => find_id_browser(detect_spec(signals@), 0, id@) is None,
        },
{
    let browsers = detect_browsers(signals);
    let ghost bm = browsers_model(browsers@);
    let mut i: usize = 0;
    while i < browsers.len()
        invariant
            0 <= i <= browsers.len(),
            bm == browsers_model(browsers@),
            bm == detect_spec(signals@),
            find_id_browser(bm, i as int, id@) == find_id_browser(bm, 0, id@),
        decreases browsers.len() - i,
    {
        assert(browsers_model(browsers@)[i as int] == browsers@[i as int]@);
        if crate::text::str_eq(browsers[i].id.0.as_str(), id) {
            return Some(browsers[i].clone());
        }
        i += 1;
    }
    None
}

/// Detect the system's default browser: the browser configured as the
/// handler for HTTP/HTTPS, or `None` when none is configured or detected.
pub fn detect_default_browser(signals: &PlatformSignals) -> (r: Option<Browser>)
    ensures
        match r {
            Some(b) => default_spec(signals@) == Some(b@),
            None => default_spec(signals@) is None,
        },
{
    platform::detect_default_browser(signals)
}

/// Whether a browser belongs to the family `f`.
pub open spec fn family_pred(f: BrowserFamily) -> spec_fn(BrowserModel) -> bool {
    |b: BrowserModel| b.variant.spec_family() == f
}

/// The browsers of `s` whose family is `f`, in their original relative
/// order.
pub open spec fn family_filter(s: Seq<BrowserModel>, f: BrowserFamily) -> Seq<BrowserModel> {
    s.filter(family_pred(f))
}

/// Filtering by a family returns exactly the subset of the given browsers
/// whose derived family equals `f`: every returned browser has family `f`,
/// every browser of family `f` in the list is returned, and nothing grows.
/// The relative order is the input's, since `family_filter` is a filter of
/// the input sequence.
pub proof fn lemma_family_filter(s: Seq<BrowserModel>, f: BrowserFamily)
    ensures
        forall|k: int|
            0 <= k < family_filter(s, f).len() ==> (#[trigger] family_filter(
                s,
                f,
            )[k]).variant.spec_family() == f,
        forall|i: int|
            0 <= i < s.len() && (#[trigger] s[i]).variant.spec_family() == f ==> family_filter(
                s,
                f,
            ).contains(s[i]),
        family_filter(s, f).len() <= s.len(),
{
    assert forall|k: int| 0 <= k < family_filter(s, f).len() implies (#[trigger] family_filter(
        s,
        f,
    )[k]).variant.spec_family() == f by {
        s.lemma_filter_pred(family_pred(f), k);
    }
    assert forall|i: int|
        0 <= i < s.len() && (#[trigger] s[i]).variant.spec_family() == f implies family_filter(
        s,
        f,
    ).contains(s[i]) by {
        s.lemma_filter_contains(family_pred(f), i);
    }
    s.lemma_filter_len(family_pred(f));
}

/// Detect all browsers of a specific engine family: the detected list
/// filtered by exact family equality, in its original relative order.
pub fn detect_browsers_by_family(signals: &PlatformSignals, family: BrowserFamily) -> (r: Vec<
    Browser,
>)
    ensures
        browsers_model(r@) == family_filter(detect_spec(signals@), family),
{
    let browsers = detect_browsers(signals);
    let ghost bm = browsers_model(browsers@);
    let mut out: Vec<Browser> = Vec::new();
    proof {
        assert(bm.take(0) =~= Seq::<BrowserModel>::empty());
        assert(browsers_model(out@) =~= family_filter(bm.take(0), family));
    }
    let mut i: usize = 0;
    while i < browsers.len()
        invariant
            0 <= i <= browsers.len(),
            bm == browsers_model(browsers@),
            bm == detect_spec(signals@),
            browsers_model(out@) == family_filter(bm.take(i as int), family),
        decreases browsers.len() - i,
    {
        let ghost pre_out = out@;
        assert(browsers_model(browsers@)[i as int] == browsers@[i as int]@);
        proof {
            bm.take(i as int).lemma_filter_push(bm[i as int], family_pred(family));
            assert(bm.take(i as int).push(bm[i as int]) =~= bm.take(i + 1));
        }
        if browsers[i].family() == family {
            out.push(browsers[i].clone());
            proof {
                assert(browsers_model(out@) =~= browsers_model(pre_out).push(bm[i as int]));
            }
        }
        i += 1;
    }
    proof {
        assert(bm.take(browsers@.len() as int) =~= bm);
    }
    out
}

} // verus!
