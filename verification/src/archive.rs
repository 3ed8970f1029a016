use vstd::prelude::*;
use crate::text::{ends_with, ends_with_spec};

verus! {

/// How a downloaded file is installed: a zip archive is extracted
/// in-process, a gzipped tarball is handed to a decompression utility,
/// and anything else is itself the installable artifact.
#[derive(PartialEq, Eq, Structural, Clone, Copy, Debug)]
pub enum ArchiveKind {
    Zip,
    TarGz,
    Plain,
}

/// The archive kind a filename dispatches to, purely by suffix.
pub open spec fn archive_kind_spec(name: Seq<char>) -> ArchiveKind {
    if ends_with_spec(name, ".zip"@) {
        ArchiveKind::Zip
    } else if ends_with_spec(name, ".tar.gz"@) || ends_with_spec(name, ".tgz"@) {
        ArchiveKind::TarGz
    } else {
        ArchiveKind::Plain
    }
}

/// Dispatches on the filename suffix alone: `.zip` extracts in-process,
/// `.tar.gz` and `.tgz` go to the decompression utility, anything else is
/// left in place untouched.
pub fn archive_kind(filename: &str) -> (k: ArchiveKind)
    ensures
        k == archive_kind_spec(filename@),
{
    if ends_with(filename, ".zip") {
        ArchiveKind::Zip
    } else if ends_with(filename, ".tar.gz") || ends_with(filename, ".tgz") {
        ArchiveKind::TarGz
    } else {
        ArchiveKind::Plain
    }
}

/// Whether a successful extraction deletes the original archive file:
/// it does exactly for recognized archives, and an unrecognized file is
/// kept, being itself the artifact.
pub fn removes_archive_after_extract(filename: &str) -> (r: bool)
    ensures
        r == (archive_kind_spec(filename@) != ArchiveKind::Plain),
{
    let k = archive_kind(filename);
    match k {
        ArchiveKind::Zip => true,
        ArchiveKind::TarGz => true,
        ArchiveKind::Plain => false,
    }
}

} // verus!
