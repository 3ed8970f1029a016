use grip::config::Registry;
use grip::errors::GripError;
use grip::install::{Installer, Stage};
use grip::archive::ArchiveKind;
use grip::package::{Asset, Package, PackageInfo, Release};
use grip::releases::ReleaseResponse;
use grip::resolve::{resolution_order, ProbeResult, Resolver};

fn reg(name: &str, url: &str, priority: i32) -> Registry {
    Registry { name: name.to_string(), url: url.to_string(), priority }
}

fn package(name: &str, repository: &str) -> Package {
    Package {
        info: PackageInfo {
            name: name.to_string(),
            repository: repository.to_string(),
            description: None,
        },
        path: "/data/registries/default/packages/foo.json".to_string(),
    }
}

fn release(tag: &str, assets: Vec<Asset>) -> Release {
    Release { tag_name: tag.to_string(), assets }
}

fn asset(name: &str, url: &str) -> Asset {
    Asset { name: name.to_string(), browser_download_url: url.to_string() }
}

#[test]
fn resolution_order_sorts_by_priority_descending() {
    let regs = vec![
        reg("d", "u", 10),
        reg("b", "u", 50),
        reg("c", "u", 50),
        reg("a", "u", 90),
    ];
    let ord = resolution_order(&regs);
    assert_eq!(ord, vec![3, 1, 2, 0]);
}

#[test]
fn resolution_order_is_stable_for_equal_priorities() {
    let regs = vec![reg("x", "u", 5), reg("y", "u", 5), reg("z", "u", 5)];
    let ord = resolution_order(&regs);
    assert_eq!(ord, vec![0, 1, 2]);
}

#[test]
fn higher_priority_registry_wins_regardless_of_config_order() {
    // the same pair of registries in both configuration orders
    for regs in [
        vec![reg("low", "u", 1), reg("high", "u", 9)],
        vec![reg("high", "u", 9), reg("low", "u", 1)],
    ] {
        let mut r = Resolver::new(regs, "foo".to_string());
        assert_eq!(r.pending().unwrap().name, "high");
        let out = r.on_probe(ProbeResult::Found(package("foo", "org/foo")));
        match out {
            Some(Ok(p)) => assert_eq!(p.info.repository, "org/foo"),
            other => panic!("unexpected: {:?}", other.map(|r| r.map(|p| p.info.name))),
        }
    }
}

#[test]
fn absent_package_fails_with_package_not_found() {
    let regs = vec![reg("a", "u", 2), reg("b", "u", 1)];
    let mut r = Resolver::new(regs, "ghost".to_string());
    assert_eq!(r.pending().unwrap().name, "a");
    assert!(r.on_probe(ProbeResult::Missing).is_none());
    assert_eq!(r.pending().unwrap().name, "b");
    match r.on_probe(ProbeResult::Missing) {
        Some(Err(GripError::PackageNotFound(p))) => assert_eq!(p, "ghost"),
        _ => panic!("expected PackageNotFound"),
    }
    assert!(r.pending().is_none());
}

#[test]
fn sync_failure_aborts_resolution_with_registry_error() {
    let regs = vec![reg("main", "u", 2), reg("alt", "u", 1)];
    let mut r = Resolver::new(regs, "foo".to_string());
    match r.on_probe(ProbeResult::SyncFailed { cloned: true }) {
        Some(Err(GripError::RegistryError(m))) => {
            assert_eq!(m, "Failed to clone registry main")
        },
        _ => panic!("expected RegistryError"),
    }
    let regs2 = vec![reg("main", "u", 2)];
    let mut r2 = Resolver::new(regs2, "foo".to_string());
    match r2.on_probe(ProbeResult::SyncFailed { cloned: false }) {
        Some(Err(GripError::RegistryError(m))) => {
            assert_eq!(m, "Failed to update registry main")
        },
        _ => panic!("expected RegistryError"),
    }
}

#[test]
fn malformed_manifest_is_not_downgraded() {
    let regs = vec![reg("a", "u", 2), reg("b", "u", 1)];
    let mut r = Resolver::new(regs, "foo".to_string());
    match r.on_probe(ProbeResult::Malformed("expected value at line 1".to_string())) {
        Some(Err(GripError::Other(m))) => assert_eq!(m, "expected value at line 1"),
        _ => panic!("expected the parse error surfaced as-is"),
    }
}

#[test]
fn end_to_end_explicit_install() {
    let regs = vec![reg("default", "host/org/repo", 100)];
    let mut ins = Installer::start(
        regs,
        "foo".to_string(),
        Some("v1.0.0".to_string()),
        Some("foo-linux.tar.gz".to_string()),
        "/data".to_string(),
    );

    // resolution strictly precedes the release query
    assert_eq!(ins.pending_registry().unwrap().name, "default");
    assert_eq!(ins.pending_registry().unwrap().priority, 100);
    ins.on_probe(ProbeResult::Found(package("foo", "org/foo")));
    assert_eq!(ins.fetch_repo().unwrap(), "org/foo");

    // one release, one asset; the explicit version and asset match exactly
    let rels = vec![release(
        "v1.0.0",
        vec![asset("foo-linux.tar.gz", "https://dl/foo-linux.tar.gz")],
    )];
    ins.on_releases(ReleaseResponse::Parsed(rels));
    match &ins.stage {
        Stage::Downloading { url, filename, dir } => {
            assert_eq!(url, "https://dl/foo-linux.tar.gz");
            assert_eq!(filename, "foo-linux.tar.gz");
            assert_eq!(dir, "/data/packages/foo/v1.0.0");
        },
        _ => panic!("expected the download stage"),
    }

    // download strictly precedes extraction
    ins.on_downloaded();
    match &ins.stage {
        Stage::Extracting { archive, dir, kind } => {
            assert_eq!(archive, "/data/packages/foo/v1.0.0/foo-linux.tar.gz");
            assert_eq!(dir, "/data/packages/foo/v1.0.0");
            assert_eq!(*kind, ArchiveKind::TarGz);
        },
        _ => panic!("expected the extraction stage"),
    }

    // extraction strictly precedes path registration
    ins.on_extracted();
    match &ins.stage {
        Stage::Registering { dir } => assert_eq!(dir, "/data/packages/foo/v1.0.0"),
        _ => panic!("expected the registration stage"),
    }

    ins.on_registered();
    match &ins.stage {
        Stage::Finished { dir } => assert_eq!(dir, "/data/packages/foo/v1.0.0"),
        _ => panic!("expected the finished stage"),
    }
}

#[test]
fn explicit_version_not_in_list_fails_naming_it() {
    let regs = vec![reg("default", "host/org/repo", 100)];
    let mut ins = Installer::start(
        regs,
        "foo".to_string(),
        Some("v9.9.9".to_string()),
        None,
        "/data".to_string(),
    );
    ins.on_probe(ProbeResult::Found(package("foo", "org/foo")));
    ins.on_releases(ReleaseResponse::Parsed(vec![release("v1.0.0", vec![])]));
    match &ins.stage {
        Stage::Failed(GripError::VersionNotFound(v)) => assert_eq!(v, "v9.9.9"),
        _ => panic!("expected VersionNotFound"),
    }
}

#[test]
fn interactive_choices_walk_the_same_pipeline() {
    let regs = vec![reg("default", "host/org/repo", 100)];
    let mut ins = Installer::start(regs, "foo".to_string(), None, None, "/data".to_string());
    ins.on_probe(ProbeResult::Found(package("foo", "org/foo")));
    let rels = vec![
        release("v2.0.0", vec![asset("a.zip", "u0")]),
        release("v1.0.0", vec![asset("b.zip", "u1"), asset("c.bin", "u2")]),
    ];
    ins.on_releases(ReleaseResponse::Parsed(rels));
    assert_eq!(
        ins.release_options(),
        vec!["v2.0.0".to_string(), "v1.0.0".to_string()]
    );
    ins.on_release_chosen(1);
    assert_eq!(ins.asset_options(), vec!["b.zip".to_string(), "c.bin".to_string()]);
    ins.on_asset_chosen(1);
    match &ins.stage {
        Stage::Downloading { url, filename, dir } => {
            assert_eq!(url, "u2");
            assert_eq!(filename, "c.bin");
            assert_eq!(dir, "/data/packages/foo/v1.0.0");
        },
        _ => panic!("expected the download stage"),
    }
    // a plain file skips extraction: registration follows at once
    ins.on_downloaded();
    assert!(matches!(&ins.stage, Stage::Registering { .. }));
}

#[test]
fn empty_release_list_is_fatal_for_an_install() {
    let regs = vec![reg("default", "host/org/repo", 100)];
    let mut ins = Installer::start(regs, "foo".to_string(), None, None, "/data".to_string());
    ins.on_probe(ProbeResult::Found(package("foo", "org/foo")));
    ins.on_releases(ReleaseResponse::Parsed(vec![]));
    match &ins.stage {
        Stage::Failed(GripError::Other(m)) => {
            assert_eq!(m, "No releases found for package 'foo'")
        },
        _ => panic!("expected a fatal empty release list"),
    }
}

#[test]
fn http_failures_reach_the_failed_stage() {
    let regs = vec![reg("default", "host/org/repo", 100)];
    let mut ins = Installer::start(regs, "foo".to_string(), None, None, "/data".to_string());
    ins.on_probe(ProbeResult::Found(package("foo", "org/foo")));
    ins.on_releases(ReleaseResponse::Http { status: 404, body: String::new() });
    match &ins.stage {
        Stage::Failed(GripError::RegistryError(m)) => {
            assert_eq!(m, "Repository 'org/foo' not found on GitHub")
        },
        _ => panic!("expected RegistryError"),
    }
}

#[test]
fn download_and_later_failures_keep_their_kinds() {
    let regs = vec![reg("default", "host/org/repo", 100)];
    let mut ins = Installer::start(
        regs,
        "foo".to_string(),
        Some("v1".to_string()),
        Some("t.zip".to_string()),
        "/data".to_string(),
    );
    ins.on_probe(ProbeResult::Found(package("foo", "org/foo")));
    ins.on_releases(ReleaseResponse::Parsed(vec![release("v1", vec![asset("t.zip", "u")])]));
    ins.on_download_failed(true, "connection reset".to_string());
    match &ins.stage {
        Stage::Failed(GripError::RequestError(m)) => assert_eq!(m, "connection reset"),
        _ => panic!("expected RequestError"),
    }

    let regs2 = vec![reg("default", "host/org/repo", 100)];
    let mut ins2 = Installer::start(
        regs2,
        "foo".to_string(),
        Some("v1".to_string()),
        Some("t.zip".to_string()),
        "/data".to_string(),
    );
    ins2.on_probe(ProbeResult::Found(package("foo", "org/foo")));
    ins2.on_releases(ReleaseResponse::Parsed(vec![release("v1", vec![asset("t.zip", "u")])]));
    ins2.on_downloaded();
    assert!(matches!(&ins2.stage, Stage::Extracting { kind: ArchiveKind::Zip, .. }));
    ins2.on_extract_failed("bad archive".to_string());
    match &ins2.stage {
        Stage::Failed(GripError::InstallError(m)) => assert_eq!(m, "bad archive"),
        _ => panic!("expected InstallError"),
    }
}

#[test]
fn explicit_asset_not_in_release_fails_naming_it() {
    let regs = vec![reg("default", "host/org/repo", 100)];
    let mut ins = Installer::start(
        regs,
        "foo".to_string(),
        Some("v1".to_string()),
        Some("missing.zip".to_string()),
        "/data".to_string(),
    );
    ins.on_probe(ProbeResult::Found(package("foo", "org/foo")));
    ins.on_releases(ReleaseResponse::Parsed(vec![release("v1", vec![asset("t.zip", "u")])]));
    match &ins.stage {
        Stage::Failed(GripError::AssetNotFound(a)) => assert_eq!(a, "missing.zip"),
        _ => panic!("expected AssetNotFound"),
    }
}

#[test]
fn selection_failure_surfaces_as_other() {
    let regs = vec![reg("default", "host/org/repo", 100)];
    let mut ins = Installer::start(regs, "foo".to_string(), None, None, "/data".to_string());
    ins.on_probe(ProbeResult::Found(package("foo", "org/foo")));
    ins.on_releases(ReleaseResponse::Parsed(vec![release("v1", vec![])]));
    ins.on_selection_failed("interaction cancelled".to_string());
    match &ins.stage {
        Stage::Failed(GripError::Other(m)) => assert_eq!(m, "interaction cancelled"),
        _ => panic!("expected Other"),
    }
}
