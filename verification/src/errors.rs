use vstd::prelude::*;

verus! {

/// The error kinds of the installation pipeline. Every component surfaces
/// the first failure it encounters; nothing retries or recovers locally.
/// Each variant carries the text that names the offending package, version,
/// asset or registry, or the underlying failure's message.
#[derive(Debug, PartialEq, Eq)]
pub enum GripError {
    PackageNotFound(String),
    RegistryNotFound(String),
    VersionNotFound(String),
    AssetNotFound(String),
    DownloadError(String),
    InstallError(String),
    RegistryError(String),
    IoError(String),
    RequestError(String),
    Other(String),
}

impl GripError {
    /// The text carried by the error, whatever its kind.
    pub fn detail(&self) -> (r: &String)
        ensures
            r@ == self.detail_spec(),
    {
        match self {
            GripError::PackageNotFound(s) => s,
            GripError::RegistryNotFound(s) => s,
            GripError::VersionNotFound(s) => s,
            GripError::AssetNotFound(s) => s,
            GripError::DownloadError(s) => s,
            GripError::InstallError(s) => s,
            GripError::RegistryError(s) => s,
            GripError::IoError(s) => s,
            GripError::RequestError(s) => s,
            GripError::Other(s) => s,
        }
    }

    pub open spec fn detail_spec(&self) -> Seq<char> {
        match self {
            GripError::PackageNotFound(s) => s@,
            GripError::RegistryNotFound(s) => s@,
            GripError::VersionNotFound(s) => s@,
            GripError::AssetNotFound(s) => s@,
            GripError::DownloadError(s) => s@,
            GripError::InstallError(s) => s@,
            GripError::RegistryError(s) => s@,
            GripError::IoError(s) => s@,
            GripError::RequestError(s) => s@,
            GripError::Other(s) => s@,
        }
    }
}

} // verus!
