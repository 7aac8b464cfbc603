//! Error taxonomy shared by the toolchain bootstrap and the plugin lifecycle.

use vstd::prelude::*;

verus! {

/// The three toolchains the bootstrap manages; names which one an error is
/// about.
#[derive(Clone, Copy, Debug, PartialEq, Eq, Structural)]
pub enum Toolchain {
    /// The Python packaging/execution tool.
    PackageTool,
    /// The runtime version manager.
    VersionManager,
    /// The pinned runtime itself.
    Runtime,
}

/// Everything that can go wrong in the bootstrap or the lifecycle manager.
///
/// The bootstrap side reports granular causes (`ToolNotFound`,
/// `InstallFailed`, `PathResolutionFailed`, `UnsupportedPlatform`) which the
/// coordinator aggregates into `SetupFailed`; the lifecycle manager surfaces
/// `AppNotFound`, `NotInstalled` and `ConfigIOError` directly.
#[derive(Debug)]
pub enum Error {
    /// A toolchain binary could not be located; carries the tool name.
    ToolNotFound(String),
    /// An external installer ran and failed; carries its captured stderr.
    InstallFailed(String),
    /// An installer exited cleanly, but re-running detection still does not
    /// find the tool: installation is never trusted on exit code alone.
    InstallVerificationFailed(Toolchain),
    /// A toolchain was found but a companion binary it implies was missing.
    PathResolutionFailed(String),
    /// The host platform has no supported version manager.
    UnsupportedPlatform,
    /// A configuration document could not be read or written; carries the cause.
    ConfigIOError(String),
    /// The named plugin is not in the registry.
    AppNotFound,
    /// The plugin has no entry in the client's configuration document.
    NotInstalled,
    /// Aggregate failure of the environment bootstrap.
    SetupFailed,
}

impl Error {
    /// A human-readable description; detail strings are appended verbatim.
    pub fn message(&self) -> (r: String)
        ensures
            r@ == self.spec_message(),
    {
        match self {
            Error::ToolNotFound(tool) => String::from_str("tool not found: ").concat(
                tool.as_str(),
            ),
            Error::InstallFailed(stderr) => String::from_str("installation failed: ").concat(
                stderr.as_str(),
            ),
            Error::InstallVerificationFailed(tool) => match tool {
                Toolchain::PackageTool => String::from_str(
                    "installation verification failed: package tool not detected",
                ),
                Toolchain::VersionManager => String::from_str(
                    "installation verification failed: version manager not detected",
                ),
                Toolchain::Runtime => String::from_str(
                    "installation verification failed: pinned runtime not detected",
                ),
            },
            Error::PathResolutionFailed(detail) => String::from_str(
                "path resolution failed: ",
            ).concat(detail.as_str()),
            Error::UnsupportedPlatform => String::from_str("unsupported platform"),
            Error::ConfigIOError(cause) => String::from_str("config I/O error: ").concat(
                cause.as_str(),
            ),
            Error::AppNotFound => String::from_str("app not found in registry"),
            Error::NotInstalled => String::from_str("app is not installed"),
            Error::SetupFailed => String::from_str("environment setup failed"),
        }
    }

    pub open spec fn spec_message(&self) -> Seq<char> {
        match self {
            Error::ToolNotFound(tool) => "tool not found: "@ + tool@,
            Error::InstallFailed(stderr) => "installation failed: "@ + stderr@,
            Error::InstallVerificationFailed(tool) => match tool {
                Toolchain::PackageTool => "installation verification failed: package tool not detected"@,
                Toolchain::VersionManager => "installation verification failed: version manager not detected"@,
                Toolchain::Runtime => "installation verification failed: pinned runtime not detected"@,
            },
            Error::PathResolutionFailed(detail) => "path resolution failed: "@ + detail@,
            Error::UnsupportedPlatform => "unsupported platform"@,
            Error::ConfigIOError(cause) => "config I/O error: "@ + cause@,
            Error::AppNotFound => "app not found in registry"@,
            Error::NotInstalled => "app is not installed"@,
            Error::SetupFailed => "environment setup failed"@,
        }
    }
}

} // verus!
