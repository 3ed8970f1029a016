use vstd::prelude::*;
use vstd::string::*;

verus! {

/// Progress of one streamed download: the declared content length (zero
/// when the service declared none) and the bytes received so far. The
/// caller reports each chunk as it is written to the temporary file, so
/// the received count always equals the bytes on disk there.
pub struct Progress {
    pub total: u64,
    pub received: u64,
}

impl Progress {
    /// Starts progress against a declared content length.
    pub fn new(total: u64) -> (p: Progress)
        ensures
            p.total == total,
            p.received == 0,
    {
        Progress { total, received: 0 }
    }

    /// Accounts one chunk of the body stream.
    pub fn on_chunk(&mut self, len: u64)
        requires
            old(self).received + len <= u64::MAX,
        ensures
            final(self).received == old(self).received + len,
            final(self).total == old(self).total,
    {
        self.received = self.received + len;
    }

    /// Whether the cumulative count has reached the declared length.
    pub open spec fn complete(self) -> bool {
        self.received == self.total
    }

    pub fn is_complete(&self) -> (r: bool)
        ensures
            r == self.complete(),
    {
        self.received == self.total
    }
}

/// The sum of the chunk sizes of a body stream.
pub open spec fn sum_chunks(chunks: Seq<u64>) -> int
    decreases chunks.len(),
{
    if chunks.len() == 0 {
        0
    } else {
        sum_chunks(chunks.drop_last()) + chunks.last()
    }
}

/// The progress state after accounting every chunk in order.
pub open spec fn after_chunks(p: Progress, chunks: Seq<u64>) -> Progress
    decreases chunks.len(),
{
    if chunks.len() == 0 {
        p
    } else {
        let q = after_chunks(p, chunks.drop_last());
        Progress { total: q.total, received: (q.received + chunks.last()) as u64 }
    }
}

/// Law: cumulative progress is exactly the sum of the chunk sizes.
/// Downloading an asset whose body arrives in chunks summing to the
/// declared size N therefore reports final progress N, and the bytes
/// written to the temporary file, being the same chunks, total N as well.
pub proof fn lemma_progress_sum(p: Progress, chunks: Seq<u64>)
    requires
        p.received + sum_chunks(chunks) <= u64::MAX,
    ensures
        after_chunks(p, chunks).received == p.received + sum_chunks(chunks),
        after_chunks(p, chunks).total == p.total,
    decreases chunks.len(),
{
    if chunks.len() > 0 {
        lemma_sum_chunks_nonneg(chunks.drop_last());
        lemma_progress_sum(p, chunks.drop_last());
    }
}

/// The sum of chunk sizes is never negative.
pub proof fn lemma_sum_chunks_nonneg(chunks: Seq<u64>)
    ensures
        0 <= sum_chunks(chunks),
    decreases chunks.len(),
{
    if chunks.len() > 0 {
        lemma_sum_chunks_nonneg(chunks.drop_last());
    }
}

/// Law: a download of declared size N whose chunks sum to N ends complete.
pub proof fn lemma_download_complete(total: u64, chunks: Seq<u64>)
    requires
        sum_chunks(chunks) == total,
    ensures
        after_chunks(Progress { total, received: 0 }, chunks).complete(),
{
    lemma_progress_sum(Progress { total, received: 0 }, chunks);
}

/// The final path of a downloaded asset: the file named `filename`
/// directly inside `target_dir`. The file only appears here once the
/// whole stream has been written elsewhere and copied over.
pub fn target_file_path(target_dir: &str, filename: &str) -> (p: String)
    ensures
        p@ == target_dir@ + "/"@ + filename@,
{
    target_dir.to_owned().concat("/").concat(filename)
}

/// The install directory owned by one package at one release tag:
/// `<data_root>/packages/<package>/<tag>`.
pub open spec fn install_dir_spec(data_root: Seq<char>, package: Seq<char>, tag: Seq<char>) -> Seq<
    char,
> {
    data_root + "/packages/"@ + package + "/"@ + tag
}

/// The install directory owned by one package at one release tag:
/// `<data_root>/packages/<package>/<tag>`. Re-installing the same
/// package and tag reuses the same directory.
pub fn install_dir(data_root: &str, package: &str, tag: &str) -> (p: String)
    ensures
        p@ == install_dir_spec(data_root@, package@, tag@),
{
    data_root.to_owned().concat("/packages/").concat(package).concat("/").concat(tag)
}

} // verus!
