//! The toolchain handle and the classification of an installation's outcome.

use vstd::prelude::*;

verus! {

/// Identifies a toolchain: its name, the path it is installed at, and whether
/// its state is managed by a distribution channel rather than by a local
/// copy, link or archive.
#[derive(Clone, Copy, Debug, PartialEq, Eq)]
pub struct Toolchain<'a> {
    pub name: &'a str,
    pub path: &'a str,
    pub distributable: bool,
}

/// How an installation ended.
#[derive(Debug, PartialEq, Eq)]
pub enum UpdateStatus {
    /// The run changed the toolchain, and there was no version before.
    Installed,
    /// The run changed the toolchain; the version that was there before.
    Updated(String),
    /// The run changed nothing.
    Unchanged,
}

impl UpdateStatus {
    /// The status of a run that reported `changed` over a toolchain whose
    /// version before the run was `previous`.
    pub open spec fn of(changed: bool, previous: Option<String>) -> UpdateStatus {
        if !changed {
            UpdateStatus::Unchanged
        } else {
            match previous {
                Some(version) => UpdateStatus::Updated(version),
                None => UpdateStatus::Installed,
            }
        }
    }

    /// Classifies a run from whether it changed anything and the version
    /// found before it. Nothing else enters the status.
    pub fn classify(changed: bool, previous: Option<String>) -> (status: UpdateStatus)
        ensures
            status == UpdateStatus::of(changed, previous),
    {
        if !changed {
            UpdateStatus::Unchanged
        } else {
            match previous {
                Some(version) => UpdateStatus::Updated(version),
                None => UpdateStatus::Installed,
            }
        }
    }
}

} // verus!
