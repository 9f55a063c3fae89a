//! The ways resolution and command handling fail.
//!
//! Every failure is terminal for the call that raised it; a later call
//! starts over. Each variant carries what its message needs, and
//! `message` renders the exact human-readable text the host shows.

use crate::platform::{arch_label, arch_name, os_label, os_name, Architecture, Os};
use vstd::prelude::*;
use vstd::string::StringExecFns;

verus! {

/// A terminal failure of one resolution attempt or command invocation.
#[derive(Debug)]
pub enum ExtensionError {
    /// No release asset is published for this (OS, architecture) pair.
    UnsupportedPlatform { os: Os, arch: Architecture },
    /// The host could not fetch the latest release; carries its message.
    ReleaseFetchFailed { message: String },
    /// The fetched release has no asset whose name ends with the suffix.
    NoMatchingAsset { suffix: String, version: String },
    /// The host could not download the selected asset; carries its message.
    DownloadFailed { message: String },
    /// The host could not mark the binary executable; carries its message.
    PermissionSetFailed { message: String },
    /// A help command was invoked under a name the extension does not know.
    UnknownCommand { name: String },
}

/// Mathematical model of an error, with its strings as character
/// sequences.
pub enum ErrorModel {
    UnsupportedPlatform { os: Os, arch: Architecture },
    ReleaseFetchFailed { message: Seq<char> },
    NoMatchingAsset { suffix: Seq<char>, version: Seq<char> },
    DownloadFailed { message: Seq<char> },
    PermissionSetFailed { message: Seq<char> },
    UnknownCommand { name: Seq<char> },
}

impl View for ExtensionError {
    type V = ErrorModel;

    open spec fn view(&self) -> ErrorModel {
        match self {
            ExtensionError::UnsupportedPlatform { os, arch } => ErrorModel::UnsupportedPlatform {
                os: *os,
                arch: *arch,
            },
            ExtensionError::ReleaseFetchFailed { message } => ErrorModel::ReleaseFetchFailed {
                message: message@,
            },
            ExtensionError::NoMatchingAsset { suffix, version } => ErrorModel::NoMatchingAsset {
                suffix: suffix@,
                version: version@,
            },
            ExtensionError::DownloadFailed { message } => ErrorModel::DownloadFailed {
                message: message@,
            },
            ExtensionError::PermissionSetFailed { message } => ErrorModel::PermissionSetFailed {
                message: message@,
            },
            ExtensionError::UnknownCommand { name } => ErrorModel::UnknownCommand { name: name@ },
        }
    }
}

/// The human-readable text of an error, exactly as the host receives it.
pub open spec fn message_of(e: ErrorModel) -> Seq<char> {
    match e {
        ErrorModel::UnsupportedPlatform { os, arch } => "Shopware LSP does not support "@ + os_label(
            os,
        ) + " / "@ + arch_label(arch),
        ErrorModel::ReleaseFetchFailed { message } => "Failed to fetch release: "@ + message,
        ErrorModel::NoMatchingAsset { suffix, version } => "No asset for "@ + suffix
            + " in release "@ + version,
        ErrorModel::DownloadFailed { message } => "Failed to download: "@ + message,
        ErrorModel::PermissionSetFailed { message } => message,
        ErrorModel::UnknownCommand { name } => "unknown command: "@ + name,
    }
}

impl ExtensionError {
    /// Renders the error as the message handed to the host.
    pub fn message(&self) -> (r: String)
        ensures
            r@ == message_of(self@),
    {
        match self {
            ExtensionError::UnsupportedPlatform { os, arch } => {
                let mut s = String::from_str("Shopware LSP does not support ");
                s.append(os_name(*os));
                s.append(" / ");
                s.append(arch_name(*arch));
                s
            },
            ExtensionError::ReleaseFetchFailed { message } => {
                let mut s = String::from_str("Failed to fetch release: ");
                s.append(message.as_str());
                s
            },
            ExtensionError::NoMatchingAsset { suffix, version } => {
                let mut s = String::from_str("No asset for ");
                s.append(suffix.as_str());
                s.append(" in release ");
                s.append(version.as_str());
                s
            },
            ExtensionError::DownloadFailed { message } => {
                let mut s = String::from_str("Failed to download: ");
                s.append(message.as_str());
                s
            },
            ExtensionError::PermissionSetFailed { message } => message.clone(),
            ExtensionError::UnknownCommand { name } => {
                let mut s = String::from_str("unknown command: ");
                s.append(name.as_str());
                s
            },
        }
    }
}

} // verus!
