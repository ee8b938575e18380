use vstd::prelude::*;

verus! {

/// The remote source could not be reached or gave no usable version.
#[derive(Clone, Debug)]
pub struct VersionLookupError {
    pub message: String,
}

/// Why an installation could not be completed.
#[derive(Clone, Debug, PartialEq, Eq, Structural)]
pub enum InstallError {
    /// Unpacking the archive left the destination directory empty.
    MissingFirstFile,
}

/// Why no installed binary was found in a container directory. This is an
/// expected outcome that sends the caller down the install path.
#[derive(Clone, Debug, PartialEq, Eq, Structural)]
pub enum CacheMiss {
    /// None of the known layouts holds an entry script.
    MissingExecutable,
    /// The container directory has no entries.
    MissingFirstFile,
    /// The first entry of the container directory is not a directory.
    FirstEntryNotDirectory,
}

} // verus!
