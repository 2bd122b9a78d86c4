//! Flags that steer `hostfxr_resolve_sdk2`.
#![allow(non_upper_case_globals)]

use vstd::prelude::*;

verus! {

/// No flag.
pub const none: i32 = 0x0;

/// Do not resolve to a pre-release SDK unless `global.json` asks for one.
pub const disallow_prerelease: i32 = 0x1;

} // verus!
