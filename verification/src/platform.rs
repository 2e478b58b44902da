use vstd::prelude::*;
use vstd::string::StringExecFns;
use crate::error::{ResolveError, ResolveErrorView};

verus! {

/// The operating systems a host can report.
#[derive(Debug, Clone, Copy, PartialEq, Eq, Structural)]
pub enum Os {
    Mac,
    Linux,
    Windows,
}

/// The processor families a host can report.
#[derive(Debug, Clone, Copy, PartialEq, Eq, Structural)]
pub enum Architecture {
    Aarch64,
    X8664,
    X86,
}

/// The token that stands for an operating system in an asset's name.
pub open spec fn os_tag(os: Os) -> Result<Seq<char>, ResolveErrorView> {
    match os {
        Os::Mac => Ok("apple"@),
        Os::Linux => Ok("linux"@),
        Os::Windows => Err(ResolveErrorView::UnsupportedPlatform),
    }
}

/// The token that stands for a processor family in an asset's name.
pub open spec fn arch_tag(arch: Architecture) -> Result<Seq<char>, ResolveErrorView> {
    match arch {
        Architecture::Aarch64 => Ok("aarch64"@),
        Architecture::X8664 => Ok("x86_64"@),
        Architecture::X86 => Err(ResolveErrorView::UnsupportedArchitecture),
    }
}

impl Os {
    /// The asset-name token of this operating system; Windows has none.
    pub fn tag(self) -> (r: Result<String, ResolveError>)
        ensures
            crate::error::outcome_view(r) == os_tag(self),
    {
        match self {
            Os::Mac => Ok(String::from_str("apple")),
            Os::Linux => Ok(String::from_str("linux")),
            Os::Windows => Err(ResolveError::UnsupportedPlatform),
        }
    }
}

impl Architecture {
    /// The asset-name token of this processor family; 32-bit x86 has none.
    pub fn tag(self) -> (r: Result<String, ResolveError>)
        ensures
            crate::error::outcome_view(r) == arch_tag(self),
    {
        match self {
            Architecture::Aarch64 => Ok(String::from_str("aarch64")),
            Architecture::X8664 => Ok(String::from_str("x86_64")),
            Architecture::X86 => Err(ResolveError::UnsupportedArchitecture),
        }
    }
}

} // verus!
