//! Platform-specific browser detection.
//!
//! Each platform module turns the raw signals its operating system reports
//! (desktop-descriptor files on Linux, launch-handler records on macOS) into
//! canonical browser values. Gathering those signals takes file and process
//! input; the callers collect them and hand them in as plain values, and
//! everything from there on is verified.

pub mod linux;
pub mod macos;
pub mod windows;

use vstd::prelude::*;

use crate::browser::browsers_model;
use crate::browser::Browser;
use crate::browser::BrowserModel;
use crate::platform::linux::candidates_model;
use crate::platform::linux::linux_default_spec;
use crate::platform::linux::linux_detect_spec;
use crate::platform::linux::CandidateModel;
use crate::platform::linux::DesktopCandidate;
use crate::platform::macos::macos_candidates_model;
use crate::platform::macos::macos_default_spec;
use crate::platform::macos::macos_detect_spec;
use crate::platform::macos::MacosCandidate;
use crate::platform::macos::MacosCandidateModel;

verus! {

/// The mathematical value of [`PlatformSignals`].
pub enum SignalsModel {
    /// Launch-handler records.
    Macos {
        /// The HTTPS-handler records, in registry order.
        handlers: Seq<MacosCandidateModel>,
        /// The default-handler record, if one was reported.
        default_handler: Option<MacosCandidateModel>,
    },
    /// Desktop-descriptor files.
    Linux {
        /// The `.desktop` candidates, in scan order.
        candidates: Seq<CandidateModel>,
        /// Raw output of the default-browser settings query, if it ran.
        default_setting: Option<Seq<char>>,
    },
    /// No enumeration signal is read on Windows.
    Windows,
    /// No signal is available on other platforms.
    Unsupported,
}

/// The raw signals one platform reports, gathered by the caller. Detection
/// is a pure function of these.
pub enum PlatformSignals {
    /// Launch-handler records (macOS).
    Macos {
        /// The HTTPS-handler records, in registry order.
        handlers: Vec<MacosCandidate>,
        /// The default-handler record, if one was reported.
        default_handler: Option<MacosCandidate>,
    },
    /// Desktop-descriptor files (Linux).
    Linux {
        /// The `.desktop` candidates, in scan order.
        candidates: Vec<DesktopCandidate>,
        /// Raw output of the default-browser settings query, if it ran.
        default_setting: Option<String>,
    },
    /// No enumeration signal is read on Windows.
    Windows,
    /// No signal is available on other platforms.
    Unsupported,
}

impl View for PlatformSignals {
    type V = SignalsModel;

    open spec fn view(&self) -> SignalsModel {
        match self {
            PlatformSignals::Macos { handlers, default_handler } => SignalsModel::Macos {
                handlers: macos_candidates_model(handlers@),
                default_handler: match default_handler {
                    Some(c) => Some(c@),
                    None => None,
                },
            },
            PlatformSignals::Linux { candidates, default_setting } => SignalsModel::Linux {
                candidates: candidates_model(candidates@),
                default_setting: match default_setting {
                    Some(s) => Some(s@),
                    None => None,
                },
            },
            PlatformSignals::Windows => SignalsModel::Windows,
            PlatformSignals::Unsupported => SignalsModel::Unsupported,
        }
    }
}

/// The browsers one platform's signals yield, in signal order.
pub open spec fn detect_spec(s: SignalsModel) -> Seq<BrowserModel> {
    match s {
        SignalsModel::Macos { handlers, .. } => macos_detect_spec(handlers),
        SignalsModel::Linux { candidates, .. } => linux_detect_spec(candidates),
        SignalsModel::Windows => Seq::empty(),
        SignalsModel::Unsupported => Seq::empty(),
    }
}

/// The default browser one platform's signals yield, if any.
pub open spec fn default_spec(s: SignalsModel) -> Option<BrowserModel> {
    match s {
        SignalsModel::Macos { default_handler, .. } => macos_default_spec(default_handler),
        SignalsModel::Linux { candidates, default_setting } => linux_default_spec(
            candidates,
            default_setting,
        ),
        SignalsModel::Windows => None,
        SignalsModel::Unsupported => None,
    }
}

/// Detect all installed browsers from the platform's signals.
pub fn detect_browsers(signals: &PlatformSignals) -> (r: Vec<Browser>)
    ensures
        browsers_model(r@) == detect_spec(signals@),
{
    match signals {
        PlatformSignals::Macos { handlers, .. } => macos::detect_browsers(handlers),
        PlatformSignals::Linux { candidates, .. } => linux::detect_browsers(candidates),
        PlatformSignals::Windows => {
            let r = windows::detect_browsers();
            proof {
                assert(browsers_model(r@) =~= Seq::<BrowserModel>::empty());
            }
            r
        },
        PlatformSignals::Unsupported => {
            let r: Vec<Browser> = Vec::new();
            proof {
                assert(browsers_model(r@) =~= Seq::<BrowserModel>::empty());
            }
            r
        },
    }
}

/// Detect the default browser from the platform's signals.
pub fn detect_default_browser(signals: &PlatformSignals) -> (r: Option<Browser>)
    ensures
        match r {
            Some(b) => default_spec(signals@) == Some(b@),
            None => default_spec(signals@) is None,
        },
{
    match signals {
        PlatformSignals::Macos { default_handler, .. } => macos::detect_default_browser(
            match default_handler {
                Some(c) => Some(c),
                None => None,
            },
        ),
        PlatformSignals::Linux { candidates, default_setting } => linux::detect_default_browser(
            candidates,
            match default_setting {
                Some(s) => Some(s.as_str()),
                None => None,
            },
        ),
        PlatformSignals::Windows => windows::detect_default_browser(),
        PlatformSignals::Unsupported => None,
    }
}

} // verus!
