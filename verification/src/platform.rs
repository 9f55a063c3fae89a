//! Target platforms and the release-asset naming convention.
//!
//! Each supported (operating system, architecture) pair maps to the fixed
//! filename suffix that the release pipeline gives the matching asset;
//! every other pair is unsupported.

use vstd::prelude::*;

verus! {

/// Operating systems the host can report.
#[derive(Clone, Copy, PartialEq, Eq, Structural, Debug)]
pub enum Os {
    Mac,
    Linux,
    Windows,
}

/// Processor architectures the host can report.
#[derive(Clone, Copy, PartialEq, Eq, Structural, Debug)]
pub enum Architecture {
    Aarch64,
    X86,
    X8664,
}

/// The asset-name suffix for a platform, or `None` where no release asset
/// is published for it.
pub open spec fn suffix_for(os: Os, arch: Architecture) -> Option<Seq<char>> {
    match (os, arch) {
        (Os::Mac, Architecture::X8664) => Some("darwin_amd64.zip"@),
        (Os::Mac, Architecture::Aarch64) => Some("darwin_arm64.zip"@),
        (Os::Linux, Architecture::X8664) => Some("linux_amd64.zip"@),
        (Os::Linux, Architecture::Aarch64) => Some("linux_arm64.zip"@),
        _ => None,
    }
}

/// Looks up the release-asset suffix for a platform.
pub fn asset_suffix_for_platform(os: Os, arch: Architecture) -> (r: Option<&'static str>)
    ensures
        match r {
            Some(s) => suffix_for(os, arch) == Some(s@),
            None => suffix_for(os, arch) is None,
        },
{
    match (os, arch) {
        (Os::Mac, Architecture::X8664) => Some("darwin_amd64.zip"),
        (Os::Mac, Architecture::Aarch64) => Some("darwin_arm64.zip"),
        (Os::Linux, Architecture::X8664) => Some("linux_amd64.zip"),
        (Os::Linux, Architecture::Aarch64) => Some("linux_arm64.zip"),
        _ => None,
    }
}

/// The name of an operating system, as the unsupported-platform error
/// prints it.
pub open spec fn os_label(os: Os) -> Seq<char> {
    match os {
        Os::Mac => "Mac"@,
        Os::Linux => "Linux"@,
        Os::Windows => "Windows"@,
    }
}

/// The name of an architecture, as the unsupported-platform error prints
/// it.
pub open spec fn arch_label(arch: Architecture) -> Seq<char> {
    match arch {
        Architecture::Aarch64 => "Aarch64"@,
        Architecture::X86 => "X86"@,
        Architecture::X8664 => "X8664"@,
    }
}

/// Names an operating system for error messages.
pub fn os_name(os: Os) -> (r: &'static str)
    ensures
        r@ == os_label(os),
{
    match os {
        Os::Mac => "Mac",
        Os::Linux => "Linux",
        Os::Windows => "Windows",
    }
}

/// Names an architecture for error messages.
pub fn arch_name(arch: Architecture) -> (r: &'static str)
    ensures
        r@ == arch_label(arch),
{
    match arch {
        Architecture::Aarch64 => "Aarch64",
        Architecture::X86 => "X86",
        Architecture::X8664 => "X8664",
    }
}

} // verus!
