use grip::archive::{archive_kind, removes_archive_after_extract, ArchiveKind};
use grip::config::{Config, Registry, Settings};
use grip::download::{install_dir, target_file_path, Progress};
use grip::errors::GripError;
use grip::package::{Asset, Release};
use grip::pathreg::{
    appended_path, export_append_chunk, export_line, path_has_segment, profile_has_export,
    shell_profile,
};
use grip::platform::{get_arch, get_binary_extension, get_platform, Arch, Os};
use grip::releases::{classify_releases, releases_url, user_agent, ReleaseResponse};
use grip::select::{asset_names, release_tags, select_asset, select_release};
use grip::resolve::{clone_url, manifest_path, registry_copy_dir};
use grip::text::{contains_str, ends_with, expand_path, replace_all, str_eq, u32_dec};

fn reg(name: &str, url: &str, priority: i32) -> Registry {
    Registry { name: name.to_string(), url: url.to_string(), priority }
}

fn release(tag: &str, assets: Vec<Asset>) -> Release {
    Release { tag_name: tag.to_string(), assets }
}

fn asset(name: &str, url: &str) -> Asset {
    Asset { name: name.to_string(), browser_download_url: url.to_string() }
}

#[test]
fn default_config_has_default_registry() {
    let c = Config::default();
    assert_eq!(c.registries.len(), 1);
    assert_eq!(c.registries[0].name, "default");
    assert_eq!(c.registries[0].url, "github.com/Grip-Packages/Grip-Packages");
    assert_eq!(c.registries[0].priority, 100);
    assert_eq!(c.default_registry, "github.com/Grip-Packages/Grip-Packages");
    assert_eq!(c.cache_ttl, 3600);
    let s = Settings::default();
    assert_eq!(s.install_dir, "$HOME/.local/bin");
    assert!(s.auto_update);
}

#[test]
fn add_registry_appends_and_refuses_duplicates() {
    let mut c = Config::default();
    let r = c.add_registry("extra".to_string(), "github.com/o/r".to_string(), Some(50));
    assert!(r.is_ok());
    assert_eq!(c.registries.len(), 2);
    assert_eq!(c.registries[1].name, "extra");
    assert_eq!(c.registries[1].priority, 50);

    let r2 = c.add_registry("extra".to_string(), "github.com/o/other".to_string(), None);
    match r2 {
        Err(GripError::RegistryError(m)) => assert_eq!(m, "Registry 'extra' already exists"),
        other => panic!("unexpected: {:?}", other),
    }
    assert_eq!(c.registries.len(), 2);
}

#[test]
fn add_registry_without_priority_gets_zero() {
    let mut c = Config::default();
    c.add_registry("low".to_string(), "github.com/o/r".to_string(), None).unwrap();
    assert_eq!(c.registries[1].priority, 0);
}

#[test]
fn remove_registry_protects_default_and_reports_missing() {
    let mut c = Config::default();
    match c.remove_registry(&"default".to_string()) {
        Err(GripError::RegistryError(m)) => assert_eq!(m, "Cannot remove default registry"),
        other => panic!("unexpected: {:?}", other),
    }
    match c.remove_registry(&"ghost".to_string()) {
        Err(GripError::RegistryNotFound(m)) => assert_eq!(m, "ghost"),
        other => panic!("unexpected: {:?}", other),
    }
    c.add_registry("extra".to_string(), "github.com/o/r".to_string(), Some(1)).unwrap();
    assert_eq!(c.registries.len(), 2);
    c.remove_registry(&"extra".to_string()).unwrap();
    assert_eq!(c.registries.len(), 1);
    assert_eq!(c.registries[0].name, "default");
}

#[test]
fn select_release_exact_match_and_version_not_found() {
    let rels = vec![release("v1.0.0", vec![]), release("v2.0.0", vec![])];
    assert_eq!(select_release(&rels, &"v2.0.0".to_string()).unwrap(), 1);
    match select_release(&rels, &"v9.9.9".to_string()) {
        Err(GripError::VersionNotFound(v)) => assert_eq!(v, "v9.9.9"),
        other => panic!("unexpected: {:?}", other),
    }
}

#[test]
fn select_asset_exact_match_and_asset_not_found() {
    let assets = vec![asset("a-linux.tgz", "u1"), asset("a-mac.tgz", "u2")];
    assert_eq!(select_asset(&assets, &"a-mac.tgz".to_string()).unwrap(), 1);
    match select_asset(&assets, &"a-win.zip".to_string()) {
        Err(GripError::AssetNotFound(v)) => assert_eq!(v, "a-win.zip"),
        other => panic!("unexpected: {:?}", other),
    }
}

#[test]
fn selection_options_keep_service_order() {
    let rels = vec![release("v2", vec![]), release("v1", vec![])];
    let tags = release_tags(&rels);
    assert_eq!(tags, vec!["v2".to_string(), "v1".to_string()]);
    let assets = vec![asset("b", "u1"), asset("a", "u2")];
    assert_eq!(asset_names(&assets), vec!["b".to_string(), "a".to_string()]);
}

#[test]
fn releases_url_and_user_agent() {
    assert_eq!(releases_url("org/foo"), "https://api.github.com/repos/org/foo/releases");
    assert_eq!(user_agent(), "grip");
}

#[test]
fn classify_releases_not_found_and_api_error() {
    match classify_releases("org/foo", ReleaseResponse::Http { status: 404, body: String::new() })
    {
        Err(GripError::RegistryError(m)) => {
            assert_eq!(m, "Repository 'org/foo' not found on GitHub")
        },
        other => panic!("unexpected: {:?}", other),
    }
    match classify_releases(
        "org/foo",
        ReleaseResponse::Http { status: 500, body: "boom".to_string() },
    ) {
        Err(GripError::RegistryError(m)) => assert_eq!(m, "GitHub API error (500): boom"),
        other => panic!("unexpected: {:?}", other),
    }
}

#[test]
fn classify_releases_transport_parse_and_success() {
    match classify_releases("org/foo", ReleaseResponse::Transport("timed out".to_string())) {
        Err(GripError::RequestError(m)) => assert_eq!(m, "timed out"),
        other => panic!("unexpected: {:?}", other),
    }
    match classify_releases("org/foo", ReleaseResponse::Unparsable("bad json".to_string())) {
        Err(GripError::RegistryError(m)) => {
            assert_eq!(m, "Failed to parse GitHub releases: bad json")
        },
        other => panic!("unexpected: {:?}", other),
    }
    let rels = vec![release("v1", vec![])];
    match classify_releases("org/foo", ReleaseResponse::Parsed(rels)) {
        Ok(out) => assert_eq!(out.len(), 1),
        other => panic!("unexpected: {:?}", other),
    }
    // an empty list is a valid response at this layer
    match classify_releases("org/foo", ReleaseResponse::Parsed(vec![])) {
        Ok(out) => assert!(out.is_empty()),
        other => panic!("unexpected: {:?}", other),
    }
}

#[test]
fn progress_accumulates_to_declared_size() {
    let mut p = Progress::new(10);
    assert!(!p.is_complete());
    p.on_chunk(4);
    p.on_chunk(0);
    p.on_chunk(6);
    assert_eq!(p.received, 10);
    assert_eq!(p.total, 10);
    assert!(p.is_complete());
}

#[test]
fn progress_with_unknown_length_degrades() {
    let mut p = Progress::new(0);
    p.on_chunk(5);
    assert_eq!(p.received, 5);
    assert!(!p.is_complete());
}

#[test]
fn archive_kind_dispatches_on_suffix() {
    assert_eq!(archive_kind("tool.zip"), ArchiveKind::Zip);
    assert_eq!(archive_kind("tool.tar.gz"), ArchiveKind::TarGz);
    assert_eq!(archive_kind("tool.tgz"), ArchiveKind::TarGz);
    assert_eq!(archive_kind("tool"), ArchiveKind::Plain);
    assert_eq!(archive_kind("tool.txt"), ArchiveKind::Plain);
    assert_eq!(archive_kind("zip"), ArchiveKind::Plain);
    assert!(removes_archive_after_extract("tool.zip"));
    assert!(removes_archive_after_extract("tool.tgz"));
    assert!(!removes_archive_after_extract("tool.bin"));
}

#[test]
fn export_line_and_shell_profile() {
    assert_eq!(export_line("/opt/bin"), "export PATH=\"/opt/bin:$PATH\"");
    assert_eq!(shell_profile("/home/u", "/bin/bash"), "/home/u/.bashrc");
    assert_eq!(shell_profile("/home/u", "/usr/bin/zsh"), "/home/u/.zshrc");
    assert_eq!(shell_profile("/home/u", "/bin/fish"), "/home/u/.profile");
}

#[test]
fn profile_registration_is_idempotent() {
    let profile = "alias ll='ls -l'\n".to_string();
    assert!(!profile_has_export(&profile, "/opt/bin"));
    let mut after = profile.clone();
    after.push_str(&export_append_chunk("/opt/bin"));
    assert!(profile_has_export(&after, "/opt/bin"));
    // the export line appears exactly once after one registration
    let line = "export PATH=\"/opt/bin:$PATH\"";
    assert_eq!(after.lines().filter(|l| *l == line).count(), 1);
}

#[test]
fn path_segment_registration_is_idempotent() {
    let path = "C:\\w;C:\\t".to_string();
    assert!(!path_has_segment(&path, "C:\\g"));
    let grown = appended_path(&path, "C:\\g");
    assert_eq!(grown, "C:\\w;C:\\t;C:\\g");
    assert!(path_has_segment(&grown, "C:\\g"));
    // a trailing delimiter is not doubled
    let trailing = appended_path("C:\\w;", "C:\\g");
    assert_eq!(trailing, "C:\\w;C:\\g");
    assert!(path_has_segment(&trailing, "C:\\g"));
    // exact-segment match, not substring match
    assert!(!path_has_segment(&"C:\\good".to_string(), "C:\\g"));
}

#[test]
fn platform_names() {
    assert_eq!(get_platform(Os::Windows), "windows");
    assert_eq!(get_platform(Os::Macos), "macos");
    assert_eq!(get_platform(Os::Linux), "linux");
    assert_eq!(get_platform(Os::Other), "unknown");
    assert_eq!(get_arch(Arch::X86_64), "x86_64");
    assert_eq!(get_arch(Arch::Aarch64), "aarch64");
    assert_eq!(get_arch(Arch::Other), "unknown");
    assert_eq!(get_binary_extension(Os::Windows), "exe");
    assert_eq!(get_binary_extension(Os::Linux), "");
}

#[test]
fn text_helpers() {
    assert!(str_eq("abc", "abc"));
    assert!(!str_eq("abc", "abd"));
    assert!(!str_eq("abc", "ab"));
    assert!(ends_with("tool.zip", ".zip"));
    assert!(!ends_with("zip", ".zip"));
    assert!(ends_with("anything", ""));
    assert!(contains_str("/usr/bin/bash", "bash"));
    assert!(!contains_str("/bin/sh", "bash"));
    assert!(contains_str("abc", ""));
    assert_eq!(u32_dec(0), "0");
    assert_eq!(u32_dec(7), "7");
    assert_eq!(u32_dec(404), "404");
    assert_eq!(u32_dec(4294967295), "4294967295");
}

#[test]
fn replace_all_replaces_every_occurrence() {
    assert_eq!(replace_all("a-b-c", "-", "+"), "a+b+c");
    assert_eq!(replace_all("aaa", "aa", "b"), "ba");
    assert_eq!(replace_all("none here", "x", "y"), "none here");
    assert_eq!(replace_all("abc", "abc", ""), "");
}

#[test]
fn expand_path_substitutes_home() {
    assert_eq!(expand_path("$HOME/.local/bin", "/home/u"), "/home/u/.local/bin");
    assert_eq!(expand_path("~/bin", "/home/u"), "/home/u/bin");
    assert_eq!(expand_path("/usr/bin", "/home/u"), "/usr/bin");
}

#[test]
fn registry_sync_paths_compose() {
    assert_eq!(clone_url("github.com/o/r"), "https://github.com/o/r.git");
    assert_eq!(registry_copy_dir("/data", "default"), "/data/registries/default");
    assert_eq!(
        manifest_path("/data/registries/default", "foo"),
        "/data/registries/default/packages/foo.json"
    );
}

#[test]
fn paths_compose() {
    assert_eq!(target_file_path("/d/packages/foo/v1", "a.tgz"), "/d/packages/foo/v1/a.tgz");
    assert_eq!(install_dir("/d", "foo", "v1.0.0"), "/d/packages/foo/v1.0.0");
}

#[test]
fn error_detail_carries_text() {
    assert_eq!(GripError::PackageNotFound("p".to_string()).detail().as_str(), "p");
    assert_eq!(GripError::DownloadError("d".to_string()).detail().as_str(), "d");
    assert_eq!(GripError::InstallError("i".to_string()).detail().as_str(), "i");
    assert_eq!(GripError::IoError("io".to_string()).detail().as_str(), "io");
    assert_eq!(GripError::Other("o".to_string()).detail().as_str(), "o");
}

#[test]
fn registries_and_releases_clone_deeply() {
    let r = reg("a", "github.com/o/r", 3);
    let c = r.clone();
    assert_eq!(c.name, "a");
    assert_eq!(c.url, "github.com/o/r");
    assert_eq!(c.priority, 3);
    let rel = release("v1", vec![asset("x", "u")]);
    let rc = rel.clone();
    assert_eq!(rc.tag_name, "v1");
    assert_eq!(rc.assets.len(), 1);
    assert_eq!(rc.assets[0].name, "x");
}
