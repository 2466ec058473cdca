//! Windows browser detection.
//!
//! Registry enumeration is not implemented: detection always reports no
//! installed browsers and no default browser. This is the contract every
//! detector satisfies when no operating-system signal is available.

use vstd::prelude::*;

use crate::browser::Browser;

verus! {

/// Detect all installed browsers on Windows: always empty.
pub fn detect_browsers() -> (r: Vec<Browser>)
    ensures
        r@ == Seq::<Browser>::empty(),
{
    let r: Vec<Browser> = Vec::new();
    proof {
        assert(r@ =~= Seq::<Browser>::empty());
    }
    r
}

/// Detect the default browser on Windows: always none.
pub fn detect_default_browser() -> (r: Option<Browser>)
    ensures
        r is None,
{
    None
}

} // verus!
