use vstd::prelude::*;

verus! {

/// A package manifest: the record a registry keeps for one package name,
/// mapping it to the repository whose releases are installed.
#[derive(Debug)]
pub struct PackageInfo {
    pub name: String,
    pub repository: String,
    pub description: Option<String>,
}

impl Clone for PackageInfo {
    fn clone(&self) -> (r: Self)
        ensures
            r.name@ == self.name@,
            r.repository@ == self.repository@,
            r.description matches Some(d) ==> (self.description matches Some(o) && d@ == o@),
            r.description is None <==> self.description is None,
    {
        let description = match &self.description {
            Some(d) => Some(d.clone()),
            None => None,
        };
        PackageInfo { name: self.name.clone(), repository: self.repository.clone(), description }
    }
}

/// A manifest together with the path of the manifest file it was read from.
#[derive(Debug)]
pub struct Package {
    pub info: PackageInfo,
    pub path: String,
}

/// A tagged, immutable set of downloadable assets published for a repository.
#[derive(Debug)]
pub struct Release {
    pub tag_name: String,
    pub assets: Vec<Asset>,
}

/// One downloadable file belonging to a release.
#[derive(Debug)]
pub struct Asset {
    pub name: String,
    pub browser_download_url: String,
}

impl Clone for Asset {
    fn clone(&self) -> (r: Self)
        ensures
            r == *self,
    {
        Asset { name: self.name.clone(), browser_download_url: self.browser_download_url.clone() }
    }
}

impl Clone for Release {
    fn clone(&self) -> (r: Self)
        ensures
            r.tag_name@ == self.tag_name@,
            r.assets@ == self.assets@,
    {
        let mut assets: Vec<Asset> = Vec::new();
        let n: usize = self.assets.len();
        let mut i: usize = 0;
        while i < n
            invariant
                i <= n,
                n == self.assets@.len(),
                assets@ == self.assets@.subrange(0, i as int),
            decreases n - i,
        {
            assets.push(self.assets[i].clone());
            proof {
                assert(assets@ =~= self.assets@.subrange(0, i + 1));
            }
            i += 1;
        }
        proof {
            assert(self.assets@.subrange(0, n as int) =~= self.assets@);
        }
        Release { tag_name: self.tag_name.clone(), assets }
    }
}

} // verus!
