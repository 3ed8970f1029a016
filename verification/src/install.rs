use vstd::prelude::*;
use vstd::string::*;
use crate::archive::{archive_kind, archive_kind_spec, ArchiveKind};
use crate::config::Registry;
use crate::download::{install_dir, install_dir_spec, target_file_path};
use crate::errors::GripError;
use crate::package::{Asset, Package, Release};
use crate::releases::{classify_releases, status_success, ReleaseResponse};
use crate::resolve::{ProbeResult, Resolver};
use crate::select::{asset_names, has_asset_named, has_tag, release_tags, select_asset, select_release};
use crate::text::dec_spec;

verus! {

/// Where one install run stands. The pipeline is strictly sequential:
/// resolution precedes the release query, which precedes selection, which
/// precedes the download, which precedes extraction, which precedes path
/// registration; the contracts below accept each event only in the stage
/// it belongs to, so no step can begin before its predecessor completed.
pub enum Stage {
    /// Walking the registries in resolution order.
    Resolving(Resolver),
    /// Awaiting the release list of the resolved repository.
    Fetching { repo: String },
    /// Awaiting an interactive release choice among the listed tags.
    ChoosingRelease { releases: Vec<Release> },
    /// Awaiting an interactive asset choice within the chosen release.
    ChoosingAsset { tag: String, assets: Vec<Asset> },
    /// Awaiting the streamed download of the chosen asset.
    Downloading { url: String, filename: String, dir: String },
    /// Awaiting extraction of the downloaded archive into the install
    /// directory; a successful extraction also removes the archive file.
    Extracting { archive: String, dir: String, kind: ArchiveKind },
    /// Awaiting registration of the install directory on the execution
    /// search path.
    Registering { dir: String },
    /// The install completed; the directory holds the artifact.
    Finished { dir: String },
    /// The first failure encountered; nothing is retried or rolled back.
    Failed(GripError),
}

/// One package install: the request as given, and the current stage.
pub struct Installer {
    pub package: String,
    pub version: Option<String>,
    pub asset: Option<String>,
    pub data_root: String,
    pub stage: Stage,
}

/// The request fields never change while the pipeline runs.
pub open spec fn same_request(a: Installer, b: Installer) -> bool {
    &&& a.package@ == b.package@
    &&& a.version == b.version
    &&& a.asset == b.asset
    &&& a.data_root@ == b.data_root@
}

/// The stage is the download of `a`, going to the install directory of
/// the given tag.
pub open spec fn downloading_to(st: Stage, root: Seq<char>, pkg: Seq<char>, tag: Seq<char>, a: Asset) -> bool {
    st matches Stage::Downloading { url, filename, dir } && url@ == a.browser_download_url@
        && filename@ == a.name@ && dir@ == install_dir_spec(root, pkg, tag)
}

/// Where the pipeline stands after a release was fixed: with an explicit
/// asset name, the first asset of that exact name is downloading, or the
/// stage failed with `AssetNotFound` naming the request; with none, the
/// pipeline awaits an asset choice over exactly the release's assets.
pub open spec fn asset_stage_ok(ins: Installer, tag: Seq<char>, assets: Seq<Asset>) -> bool {
    match ins.asset {
        Some(a) => if has_asset_named(assets, a@) {
            exists|j: int|
                0 <= j < assets.len() && (#[trigger] assets[j].name@) == a@ && (forall|k: int|
                    0 <= k < j ==> assets[k].name@ != a@) && downloading_to(
                    ins.stage,
                    ins.data_root@,
                    ins.package@,
                    tag,
                    assets[j],
                )
        } else {
            ins.stage matches Stage::Failed(e) && (e matches GripError::AssetNotFound(n) && n@
                == a@)
        },
        None => ins.stage matches Stage::ChoosingAsset { tag: t, assets: ass } && t@ == tag && ass@
            == assets,
    }
}

/// Where the pipeline stands after the release list arrived non-empty:
/// with an explicit version, the first release of that exact tag is fixed,
/// or the stage failed with `VersionNotFound` naming the request; with
/// none, the pipeline awaits a release choice over exactly the list.
pub open spec fn release_stage_ok(ins: Installer, rels: Seq<Release>) -> bool {
    match ins.version {
        Some(v) => if has_tag(rels, v@) {
            exists|i: int|
                0 <= i < rels.len() && (#[trigger] rels[i].tag_name@) == v@ && (forall|k: int|
                    0 <= k < i ==> rels[k].tag_name@ != v@) && asset_stage_ok(
                    ins,
                    rels[i].tag_name@,
                    rels[i].assets@,
                )
        } else {
            ins.stage matches Stage::Failed(e) && (e matches GripError::VersionNotFound(n) && n@
                == v@)
        },
        None => ins.stage matches Stage::ChoosingRelease { releases } && releases@ == rels,
    }
}

impl Installer {
    /// Starts an install of `package` over the configured registries.
    pub fn start(
        registries: Vec<Registry>,
        package: String,
        version: Option<String>,
        asset: Option<String>,
        data_root: String,
    ) -> (ins: Installer)
        ensures
            ins.package@ == package@,
            ins.version == version,
            ins.asset == asset,
            ins.data_root@ == data_root@,
            ins.stage matches Stage::Resolving(r) && r.wf() && r.regs@ == registries@ && r.package@
                == package@ && r.pos == 0,
    {
        let resolver = Resolver::new(registries, package.clone());
        Installer { package, version, asset, data_root, stage: Stage::Resolving(resolver) }
    }

    /// The registry to sync and probe next, while resolving.
    pub fn pending_registry(&self) -> (r: Option<&Registry>)
        requires
            self.stage matches Stage::Resolving(res) ==> res.wf(),
        ensures
            (self.stage matches Stage::Resolving(res) && res.pos < res.ord@.len()) ==> (
            r matches Some(reg) && *reg == (self.stage->Resolving_0).regs@[(
            self.stage->Resolving_0).ord@[(self.stage->Resolving_0).pos as int] as int]),
            !(self.stage matches Stage::Resolving(res) && res.pos < res.ord@.len()) ==> r is None,
    {
        match &self.stage {
            Stage::Resolving(res) => res.pending(),
            _ => None,
        }
    }

    /// Takes the probe result for the pending registry, as the resolver
    /// does: a hit moves the pipeline to the release query for the
    /// manifest's repository, any failure is final, and a miss moves on,
    /// the last miss failing with `PackageNotFound`.
    pub fn on_probe(&mut self, probe: ProbeResult)
        requires
            old(self).stage matches Stage::Resolving(res) && res.wf() && res.pos < res.ord@.len(),
        ensures
            same_request(*old(self), *final(self)),
            match probe {
                ProbeResult::Found(pkg) => final(self).stage matches Stage::Fetching { repo }
                    && repo@ == pkg.info.repository@,
                ProbeResult::Malformed(m) => final(self).stage matches Stage::Failed(e) && (
                e matches GripError::Other(t) && t@ == m@),
                ProbeResult::SyncFailed { cloned } => final(self).stage matches Stage::Failed(e)
                    && (e matches GripError::RegistryError(t) && t@ == (if cloned {
                    "Failed to clone registry "@
                } else {
                    "Failed to update registry "@
                }) + (old(self).stage->Resolving_0).regs@[(old(self).stage->Resolving_0).ord@[(old(
                    self,
                ).stage->Resolving_0).pos as int] as int].name@),
                ProbeResult::Missing => {
                    let res = old(self).stage->Resolving_0;
                    if res.pos + 1 == res.ord@.len() {
                        final(self).stage matches Stage::Failed(e) && (
                        e matches GripError::PackageNotFound(t) && t@ == res.package@)
                    } else {
                        final(self).stage matches Stage::Resolving(r2) && r2.wf() && r2.regs@
                            == res.regs@ && r2.ord@ == res.ord@ && r2.pos == res.pos + 1
                            && r2.package@ == res.package@
                    }
                },
            },
    {
        let out: Option<Result<Package, GripError>>;
        match &mut self.stage {
            Stage::Resolving(res) => {
                out = res.on_probe(probe);
            },
            _ => {
                proof {
                    assert(false);
                }
                out = None;
            },
        }
        match out {
            Some(Ok(pkg)) => {
                self.stage = Stage::Fetching { repo: pkg.info.repository };
            },
            Some(Err(e)) => {
                self.stage = Stage::Failed(e);
            },
            None => {},
        }
    }

    /// The repository whose release list is awaited, while fetching.
    pub fn fetch_repo(&self) -> (r: Option<&String>)
        ensures
            self.stage matches Stage::Fetching { repo } ==> (r matches Some(s) && s@ == repo@),
            !(self.stage matches Stage::Fetching { repo }) ==> r is None,
    {
        match &self.stage {
            Stage::Fetching { repo } => Some(repo),
            _ => None,
        }
    }

    /// Takes the release-list response. Failures are normalized as the
    /// release client does; an empty list is fatal for an install; with an
    /// explicit version the matching release is fixed at once, otherwise
    /// the pipeline awaits a choice.
    pub fn on_releases(&mut self, resp: ReleaseResponse)
        requires
            old(self).stage matches Stage::Fetching { repo },
            resp matches ReleaseResponse::Http { status, .. } ==> !status_success(status),
        ensures
            same_request(*old(self), *final(self)),
            old(self).stage matches Stage::Fetching { repo } ==> match resp {
                ReleaseResponse::Transport(m) => final(self).stage matches Stage::Failed(e) && (
                e matches GripError::RequestError(t) && t@ == m@),
                ReleaseResponse::Http { status, body } => final(self).stage matches Stage::Failed(
                    e,
                ) && (e matches GripError::RegistryError(t) && if status == 404 {
                    t@ == "Repository '"@ + repo@ + "' not found on GitHub"@
                } else {
                    t@ == "GitHub API error ("@ + dec_spec(status as nat) + "): "@ + body@
                }),
                ReleaseResponse::Unparsable(m) => final(self).stage matches Stage::Failed(e) && (
                e matches GripError::RegistryError(t) && t@ == "Failed to parse GitHub releases: "@
                    + m@),
                ReleaseResponse::Parsed(rels) => if rels@.len() == 0 {
                    final(self).stage matches Stage::Failed(e) && (e matches GripError::Other(t)
                        && t@ == "No releases found for package '"@ + old(self).package@ + "'"@)
                } else {
                    release_stage_ok(*final(self), rels@)
                },
            },
    {
        let repo: String = match &self.stage {
            Stage::Fetching { repo } => repo.clone(),
            _ => {
                proof {
                    assert(false);
                }
                String::new()
            },
        };
        match classify_releases(repo.as_str(), resp) {
            Err(e) => {
                self.stage = Stage::Failed(e);
            },
            Ok(rels) => {
                if rels.len() == 0 {
                    let msg = "No releases found for package '".to_owned().concat(
                        self.package.as_str(),
                    ).concat("'");
                    self.stage = Stage::Failed(GripError::Other(msg));
                } else {
                    self.advance_with_releases(rels);
                }
            },
        }
    }

    /// Fixes a release: with an explicit version the first release of
    /// that exact tag, else the pipeline awaits a choice over the list.
    fn advance_with_releases(&mut self, rels: Vec<Release>)
        ensures
            same_request(*old(self), *final(self)),
            release_stage_ok(*final(self), rels@),
    {
        let wanted: Option<String> = match &self.version {
            Some(v) => Some(v.clone()),
            None => None,
        };
        match wanted {
            Some(v) => {
                match select_release(&rels, &v) {
                    Ok(i) => {
                        let rel = rels[i].clone();
                        self.enter_release(rel);
                    },
                    Err(e) => {
                        self.stage = Stage::Failed(e);
                    },
                }
            },
            None => {
                self.stage = Stage::ChoosingRelease { releases: rels };
            },
        }
    }

    /// Fixes an asset within the chosen release: with an explicit asset
    /// name the first asset of that exact name, else the pipeline awaits
    /// a choice over the release's assets.
    fn enter_release(&mut self, rel: Release)
        ensures
            same_request(*old(self), *final(self)),
            asset_stage_ok(*final(self), rel.tag_name@, rel.assets@),
    {
        let Release { tag_name, assets } = rel;
        let wanted: Option<String> = match &self.asset {
            Some(a) => Some(a.clone()),
            None => None,
        };
        match wanted {
            Some(a) => {
                match select_asset(&assets, &a) {
                    Ok(j) => {
                        let asset = assets[j].clone();
                        self.enter_asset(tag_name, asset);
                    },
                    Err(e) => {
                        self.stage = Stage::Failed(e);
                    },
                }
            },
            None => {
                self.stage = Stage::ChoosingAsset { tag: tag_name, assets };
            },
        }
    }

    /// Starts the download of the chosen asset into the install directory
    /// of the chosen tag.
    fn enter_asset(&mut self, tag: String, asset: Asset)
        ensures
            same_request(*old(self), *final(self)),
            downloading_to(
                final(self).stage,
                old(self).data_root@,
                old(self).package@,
                tag@,
                asset,
            ),
    {
        let dir = install_dir(self.data_root.as_str(), self.package.as_str(), tag.as_str());
        let Asset { name, browser_download_url } = asset;
        self.stage = Stage::Downloading { url: browser_download_url, filename: name, dir };
    }

    /// The tags offered for the interactive release choice, in
    /// service-returned order; the default is the first.
    pub fn release_options(&self) -> (tags: Vec<String>)
        requires
            self.stage matches Stage::ChoosingRelease { releases },
        ensures
            self.stage matches Stage::ChoosingRelease { releases } ==> tags@.len()
                == releases@.len() && forall|i: int|
                0 <= i < tags@.len() ==> tags@[i]@ == releases@[i].tag_name@,
    {
        match &self.stage {
            Stage::ChoosingRelease { releases } => release_tags(releases),
            _ => {
                proof {
                    assert(false);
                }
                Vec::new()
            },
        }
    }

    /// Takes the interactive release choice.
    pub fn on_release_chosen(&mut self, i: usize)
        requires
            old(self).stage matches Stage::ChoosingRelease { releases } && i < releases@.len(),
        ensures
            same_request(*old(self), *final(self)),
            old(self).stage matches Stage::ChoosingRelease { releases } ==> asset_stage_ok(
                *final(self),
                releases@[i as int].tag_name@,
                releases@[i as int].assets@,
            ),
    {
        let rel: Release = match &self.stage {
            Stage::ChoosingRelease { releases } => releases[i].clone(),
            _ => {
                proof {
                    assert(false);
                }
                Release { tag_name: String::new(), assets: Vec::new() }
            },
        };
        self.enter_release(rel);
    }

    /// The asset names offered for the interactive asset choice, in
    /// service-returned order; the default is the first.
    pub fn asset_options(&self) -> (names: Vec<String>)
        requires
            self.stage matches Stage::ChoosingAsset { .. },
        ensures
            self.stage matches Stage::ChoosingAsset { tag, assets } ==> names@.len()
                == assets@.len() && forall|i: int|
                0 <= i < names@.len() ==> names@[i]@ == assets@[i].name@,
    {
        match &self.stage {
            Stage::ChoosingAsset { assets, .. } => asset_names(assets),
            _ => {
                proof {
                    assert(false);
                }
                Vec::new()
            },
        }
    }

    /// Takes the interactive asset choice.
    pub fn on_asset_chosen(&mut self, j: usize)
        requires
            old(self).stage matches Stage::ChoosingAsset { tag, assets } && j < assets@.len(),
        ensures
            same_request(*old(self), *final(self)),
            old(self).stage matches Stage::ChoosingAsset { tag, assets } ==> downloading_to(
                final(self).stage,
                old(self).data_root@,
                old(self).package@,
                tag@,
                assets@[j as int],
            ),
    {
        let picked: (String, Asset) = match &self.stage {
            Stage::ChoosingAsset { tag, assets } => (tag.clone(), assets[j].clone()),
            _ => {
                proof {
                    assert(false);
                }
                (
                    String::new(),
                    Asset { name: String::new(), browser_download_url: String::new() },
                )
            },
        };
        let (tag, asset) = picked;
        self.enter_asset(tag, asset);
    }

    /// Takes a failure of the interactive selection itself.
    pub fn on_selection_failed(&mut self, m: String)
        requires
            old(self).stage matches Stage::ChoosingRelease { .. } || old(
                self,
            ).stage matches Stage::ChoosingAsset { .. },
        ensures
            same_request(*old(self), *final(self)),
            final(self).stage matches Stage::Failed(e) && (e matches GripError::Other(t) && t@
                == m@),
    {
        self.stage = Stage::Failed(GripError::Other(m));
    }

    /// Takes the completed download: the file now stands at its final
    /// path. A recognized archive moves on to extraction; anything else
    /// is itself the artifact, and registration follows at once.
    pub fn on_downloaded(&mut self)
        requires
            old(self).stage matches Stage::Downloading { .. },
        ensures
            same_request(*old(self), *final(self)),
            old(self).stage matches Stage::Downloading { url, filename, dir } ==> if archive_kind_spec(filename@) != ArchiveKind::Plain {
                final(self).stage matches Stage::Extracting { archive, dir: d, kind } && archive@
                    == dir@ + "/"@ + filename@ && d@ == dir@ && kind == archive_kind_spec(
                    filename@,
                )
            } else {
                final(self).stage matches Stage::Registering { dir: d } && d@ == dir@
            },
    {
        let picked: (String, String) = match &self.stage {
            Stage::Downloading { filename, dir, .. } => (filename.clone(), dir.clone()),
            _ => {
                proof {
                    assert(false);
                }
                (String::new(), String::new())
            },
        };
        let (filename, dir) = picked;
        let kind = archive_kind(filename.as_str());
        match kind {
            ArchiveKind::Plain => {
                self.stage = Stage::Registering { dir };
            },
            _ => {
                let archive = target_file_path(dir.as_str(), filename.as_str());
                self.stage = Stage::Extracting { archive, dir, kind };
            },
        }
    }

    /// Takes a failed download: a transport failure is a `RequestError`,
    /// a failure writing or placing the file an `IoError`. No partially
    /// written file stands at the final path.
    pub fn on_download_failed(&mut self, transport: bool, m: String)
        requires
            old(self).stage matches Stage::Downloading { .. },
        ensures
            same_request(*old(self), *final(self)),
            final(self).stage matches Stage::Failed(e) && if transport {
                e matches GripError::RequestError(t) && t@ == m@
            } else {
                e matches GripError::IoError(t) && t@ == m@
            },
    {
        if transport {
            self.stage = Stage::Failed(GripError::RequestError(m));
        } else {
            self.stage = Stage::Failed(GripError::IoError(m));
        }
    }

    /// Takes the completed extraction: the archive file was removed, the
    /// extracted files stand in the install directory, and registration
    /// follows.
    pub fn on_extracted(&mut self)
        requires
            old(self).stage matches Stage::Extracting { .. },
        ensures
            same_request(*old(self), *final(self)),
            old(self).stage matches Stage::Extracting { archive, dir, kind } ==> (
            final(self).stage matches Stage::Registering { dir: d } && d@ == dir@),
    {
        let dir: String = match &self.stage {
            Stage::Extracting { dir, .. } => dir.clone(),
            _ => {
                proof {
                    assert(false);
                }
                String::new()
            },
        };
        self.stage = Stage::Registering { dir };
    }

    /// Takes a failed extraction: an `InstallError`; the archive file is
    /// left on disk for inspection.
    pub fn on_extract_failed(&mut self, m: String)
        requires
            old(self).stage matches Stage::Extracting { .. },
        ensures
            same_request(*old(self), *final(self)),
            final(self).stage matches Stage::Failed(e) && (e matches GripError::InstallError(t)
                && t@ == m@),
    {
        self.stage = Stage::Failed(GripError::InstallError(m));
    }

    /// Takes the completed path registration: the install finished.
    pub fn on_registered(&mut self)
        requires
            old(self).stage matches Stage::Registering { .. },
        ensures
            same_request(*old(self), *final(self)),
            old(self).stage matches Stage::Registering { dir } ==> (
            final(self).stage matches Stage::Finished { dir: d } && d@ == dir@),
    {
        let dir: String = match &self.stage {
            Stage::Registering { dir } => dir.clone(),
            _ => {
                proof {
                    assert(false);
                }
                String::new()
            },
        };
        self.stage = Stage::Finished { dir };
    }

    /// Takes a failed path registration: an `IoError`; the completed
    /// download and extraction are not rolled back.
    pub fn on_register_failed(&mut self, m: String)
        requires
            old(self).stage matches Stage::Registering { .. },
        ensures
            same_request(*old(self), *final(self)),
            final(self).stage matches Stage::Failed(e) && (e matches GripError::IoError(t) && t@
                == m@),
    {
        self.stage = Stage::Failed(GripError::IoError(m));
    }
}

} // verus!
