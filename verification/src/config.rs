//! Which codec backends are enabled.
//!
//! The two lz4 backends decode the same frame format and are
//! interchangeable, so a configuration may enable at most one of them.
//! That is checked once, here, when the configuration is built — never as
//! a branch during dispatch.

use vstd::prelude::*;

verus! {

/// The set of enabled codec backends.
#[derive(Copy, Clone, Debug, PartialEq, Eq, Structural)]
pub struct CodecConfig {
    pub bzip2: bool,
    pub deflate: bool,
    pub lz4: bool,
    pub lz4_flex: bool,
    pub zstd: bool,
}

/// The error a conflicting configuration is rejected with.
#[derive(Copy, Clone, Debug, PartialEq, Eq, Structural)]
pub enum ConfigError {
    /// Both lz4 backends were requested at once.
    ConflictingLz4Backends,
}

impl CodecConfig {
    /// A configuration is valid when at most one lz4 backend is enabled.
    pub open spec fn valid(self) -> bool {
        !(self.lz4 && self.lz4_flex)
    }

    /// Build a configuration, rejecting one that enables both lz4
    /// backends. This is the only place the exclusion is checked; every
    /// configuration handed out here is valid.
    pub fn new(bzip2: bool, deflate: bool, lz4: bool, lz4_flex: bool, zstd: bool) -> (r: Result<
        CodecConfig,
        ConfigError,
    >)
        ensures
            r is Ok <==> !(lz4 && lz4_flex),
            r is Ok ==> r->Ok_0 == (CodecConfig { bzip2, deflate, lz4, lz4_flex, zstd }),
            r is Ok ==> r->Ok_0.valid(),
            r is Err ==> r->Err_0 == ConfigError::ConflictingLz4Backends,
    {
        if lz4 && lz4_flex {
            Err(ConfigError::ConflictingLz4Backends)
        } else {
            Ok(CodecConfig { bzip2, deflate, lz4, lz4_flex, zstd })
        }
    }

    /// The configuration the top-level entry point runs with: every codec
    /// enabled, with lz4_flex as the lz4 backend.
    pub fn all_enabled() -> (r: CodecConfig)
        ensures
            r == spec_all_enabled(),
            r.valid(),
    {
        CodecConfig { bzip2: true, deflate: true, lz4: false, lz4_flex: true, zstd: true }
    }
}

/// The default configuration, as a value contracts can speak of.
pub open spec fn spec_all_enabled() -> CodecConfig {
    CodecConfig { bzip2: true, deflate: true, lz4: false, lz4_flex: true, zstd: true }
}

} // verus!
