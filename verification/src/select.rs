use vstd::prelude::*;
use crate::errors::GripError;
use crate::package::{Asset, Release};
use crate::text::str_eq;

verus! {

/// Whether some release in `releases` carries the tag `version`.
pub open spec fn has_tag(releases: Seq<Release>, version: Seq<char>) -> bool {
    exists|i: int| 0 <= i < releases.len() && releases[i].tag_name@ == version
}

/// Whether some asset in `assets` is named `name`.
pub open spec fn has_asset_named(assets: Seq<Asset>, name: Seq<char>) -> bool {
    exists|i: int| 0 <= i < assets.len() && assets[i].name@ == name
}

/// Picks the release with an explicitly requested tag: the first release
/// whose tag is exactly the requested string. A request for a tag that no
/// release carries fails with `VersionNotFound` naming that exact string.
pub fn select_release(releases: &Vec<Release>, version: &String) -> (r: Result<usize, GripError>)
    ensures
        match r {
            Ok(i) => {
                &&& i < releases@.len()
                &&& releases@[i as int].tag_name@ == version@
                &&& forall|j: int| 0 <= j < i ==> releases@[j].tag_name@ != version@
            },
            Err(e) => {
                &&& !has_tag(releases@, version@)
                &&& e matches GripError::VersionNotFound(v) && v@ == version@
            },
        },
{
    let n: usize = releases.len();
    let mut i: usize = 0;
    while i < n
        invariant
            i <= n,
            n == releases@.len(),
            forall|j: int| 0 <= j < i ==> releases@[j].tag_name@ != version@,
        decreases n - i,
    {
        if str_eq(releases[i].tag_name.as_str(), version.as_str()) {
            return Ok(i);
        }
        i += 1;
    }
    Err(GripError::VersionNotFound(version.clone()))
}

/// Picks the asset with an explicitly requested name: the first asset of
/// the release whose name is exactly the requested string. A request for a
/// name that no asset carries fails with `AssetNotFound` naming it.
pub fn select_asset(assets: &Vec<Asset>, name: &String) -> (r: Result<usize, GripError>)
    ensures
        match r {
            Ok(i) => {
                &&& i < assets@.len()
                &&& assets@[i as int].name@ == name@
                &&& forall|j: int| 0 <= j < i ==> assets@[j].name@ != name@
            },
            Err(e) => {
                &&& !has_asset_named(assets@, name@)
                &&& e matches GripError::AssetNotFound(v) && v@ == name@
            },
        },
{
    let n: usize = assets.len();
    let mut i: usize = 0;
    while i < n
        invariant
            i <= n,
            n == assets@.len(),
            forall|j: int| 0 <= j < i ==> assets@[j].name@ != name@,
        decreases n - i,
    {
        if str_eq(assets[i].name.as_str(), name.as_str()) {
            return Ok(i);
        }
        i += 1;
    }
    Err(GripError::AssetNotFound(name.clone()))
}

/// The tags of all releases, in service-returned order: the options shown
/// for an interactive single choice, whose default is the first entry.
pub fn release_tags(releases: &Vec<Release>) -> (tags: Vec<String>)
    ensures
        tags@.len() == releases@.len(),
        forall|i: int| 0 <= i < tags@.len() ==> tags@[i]@ == releases@[i].tag_name@,
{
    let n: usize = releases.len();
    let mut tags: Vec<String> = Vec::new();
    let mut i: usize = 0;
    while i < n
        invariant
            i <= n,
            n == releases@.len(),
            tags@.len() == i,
            forall|j: int| 0 <= j < i ==> tags@[j]@ == releases@[j].tag_name@,
        decreases n - i,
    {
        tags.push(releases[i].tag_name.clone());
        i += 1;
    }
    tags
}

/// The names of all assets, in service-returned order: the options shown
/// for an interactive single choice, whose default is the first entry.
pub fn asset_names(assets: &Vec<Asset>) -> (names: Vec<String>)
    ensures
        names@.len() == assets@.len(),
        forall|i: int| 0 <= i < names@.len() ==> names@[i]@ == assets@[i].name@,
{
    let n: usize = assets.len();
    let mut names: Vec<String> = Vec::new();
    let mut i: usize = 0;
    while i < n
        invariant
            i <= n,
            n == assets@.len(),
            names@.len() == i,
            forall|j: int| 0 <= j < i ==> names@[j]@ == assets@[j].name@,
        decreases n - i,
    {
        names.push(assets[i].name.clone());
        i += 1;
    }
    names
}

} // verus!
