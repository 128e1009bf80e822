//! The four ways to acquire a toolchain.

use crate::protocol::DownloadCfg;
use crate::toolchain::Toolchain;
use vstd::prelude::*;

verus! {

/// How a toolchain gets to its target path. Each variant carries only what
/// its strategy needs.
#[derive(Clone, Copy, Debug)]
pub enum InstallMethod<'a> {
    /// Copy the directory at the given path.
    Copy(&'a str, &'a Toolchain<'a>),
    /// Link to the directory at the given path.
    Link(&'a str, &'a Toolchain<'a>),
    /// Unpack the installer archive at the first path, using the second as
    /// temporary workspace.
    Installer(&'a str, &'a str, &'a Toolchain<'a>),
    /// Resolve a named version from a distribution channel.
    Dist {
        desc: &'a str,
        profile: &'a str,
        /// Where the hash of the last applied state is kept, if anywhere.
        update_hash: Option<&'a str>,
        dl_cfg: DownloadCfg<'a>,
        force_update: bool,
        allow_downgrade: bool,
        /// Whether the toolchain already exists.
        exists: bool,
        /// The date of the currently installed version.
        old_date: Option<&'a str>,
        /// Extra components to install.
        components: &'a [&'a str],
        /// Extra targets to install.
        targets: &'a [&'a str],
        distributable: &'a Toolchain<'a>,
    },
}

impl<'a> InstallMethod<'a> {
    /// Whether the target path is cleared before the strategy runs. A
    /// distribution update may build on what is there, and an installer's
    /// transaction supersedes it: both manage the transition themselves.
    pub open spec fn clears_first(self) -> bool {
        self is Copy || self is Link
    }

    /// See [`InstallMethod::clears_first`].
    pub fn needs_clear(&self) -> (clear: bool)
        ensures
            clear == self.clears_first(),
    {
        match self {
            InstallMethod::Copy(..) | InstallMethod::Link(..) => true,
            InstallMethod::Installer(..) | InstallMethod::Dist { .. } => false,
        }
    }
}

} // verus!
