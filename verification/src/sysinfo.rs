//! The static system descriptor the application reports.

use vstd::prelude::*;

verus! {

/// A descriptor of the running platform and build: operating-system
/// name, CPU architecture, and the application's version string.
pub struct SystemInfo {
    pub platform: String,
    pub arch: String,
    pub version: String,
}

impl SystemInfo {
    /// Assemble the descriptor from the host's platform and build
    /// constants, kept exactly as supplied.
    pub fn new(platform: String, arch: String, version: String) -> (r: SystemInfo)
        ensures
            r.platform@ == platform@,
            r.arch@ == arch@,
            r.version@ == version@,
    {
        SystemInfo { platform, arch, version }
    }
}

} // verus!
