use vstd::prelude::*;

use crate::error::ResolveError;
use crate::platform::{archive_kind, spec_archive_kind, Arch, ArchiveKind, Os};
use crate::release::{
    expected_asset_name, first_asset_named, has_asset_named, select_asset, Release, BINARY_NAME,
};

verus! {

/// `{binary}-{version}`: the directory that holds one version's binary.
pub open spec fn version_dir_name(version: Seq<char>) -> Seq<char> {
    BINARY_NAME@ + "-"@ + version
}

/// `{binary}-{version}/{binary}`: where one version's binary is unpacked.
pub open spec fn binary_path_for(version: Seq<char>) -> Seq<char> {
    version_dir_name(version) + "/"@ + BINARY_NAME@
}

/// The characters of each name, in order.
pub open spec fn names_of(v: Seq<String>) -> Seq<Seq<char>> {
    v.map_values(|s: String| s@)
}

/// The entries of the cache root that pruning removes: all whose name is not `keep`.
pub open spec fn stale_names(entries: Seq<Seq<char>>, keep: Seq<char>) -> Seq<Seq<char>> {
    entries.filter(|e: Seq<char>| e != keep)
}

/// What the memoized path yields: it is trusted only while it names a regular file.
pub open spec fn spec_fast_path(cached: Option<Seq<char>>, cached_is_file: bool) -> Option<Seq<char>> {
    if cached_is_file {
        cached
    } else {
        None
    }
}

pub open spec fn opt_view(o: Option<String>) -> Option<Seq<char>> {
    match o {
        Some(s) => Some(s@),
        None => None,
    }
}

/// Where a release is installed and where it is fetched from.
#[derive(Debug)]
pub struct InstallPlan {
    pub version_dir: String,
    pub binary_path: String,
    pub download_url: String,
    pub archive: ArchiveKind,
}

/// The directory name for `version`.
pub fn version_dir(version: &String) -> (r: String)
    ensures
        r@ == version_dir_name(version@),
{
    String::from_str(BINARY_NAME).concat("-").concat(version.as_str())
}

/// Decides, from the latest release, the directory, binary path, download URL and
/// unpacking method; fails exactly when the release has no asset for the platform.
pub fn plan_install(release: &Release, os: Os, arch: Arch) -> (r: Result<InstallPlan, ResolveError>)
    ensures
        r is Ok <==> has_asset_named(release.assets@, expected_asset_name(os, arch)),
        r matches Ok(p) ==> {
            &&& p.version_dir@ == version_dir_name(release.version@)
            &&& p.binary_path@ == binary_path_for(release.version@)
            &&& p.archive == spec_archive_kind(os)
            &&& exists|i: int|
                first_asset_named(release.assets@, expected_asset_name(os, arch), i)
                    && p.download_url@ == release.assets@[i].download_url@
        },
        r matches Err(e) ==> e matches ResolveError::AssetNotFound(n) && n@ == expected_asset_name(
            os,
            arch,
        ),
{
    let asset = match select_asset(release, os, arch) {
        Ok(a) => a,
        Err(e) => {
            return Err(e);
        },
    };
    let dir = version_dir(&release.version);
    let binary_path = dir.clone().concat("/").concat(BINARY_NAME);
    Ok(InstallPlan { version_dir: dir, binary_path, download_url: asset.download_url, archive: archive_kind(os) })
}

/// Names among `entries` that pruning removes once the binary under `keep` is present.
pub fn stale_entries(entries: &Vec<String>, keep: &String) -> (r: Vec<String>)
    ensures
        names_of(r@) == stale_names(names_of(entries@), keep@),
{
    let mut r: Vec<String> = Vec::new();
    let mut i: usize = 0;
    while i < entries.len()
        invariant
            i <= entries@.len(),
            names_of(r@) == stale_names(names_of(entries@).take(i as int), keep@),
        decreases entries@.len() - i,
    {
        let ghost all = names_of(entries@);
        let ghost before = r@;
        proof {
            reveal(Seq::filter);
            assert(all.take(i + 1).drop_last() =~= all.take(i as int));
            assert(all.take(i + 1).last() == entries@[i as int]@);
            assert(stale_names(all.take(i + 1), keep@) == if entries@[i as int]@ != keep@ {
                stale_names(all.take(i as int), keep@).push(entries@[i as int]@)
            } else {
                stale_names(all.take(i as int), keep@)
            });
        }
        if !(entries[i] == *keep) {
            r.push(entries[i].clone());
            assert(names_of(r@) =~= names_of(before).push(entries@[i as int]@));
        }
        i = i + 1;
    }
    assert(names_of(entries@).take(entries@.len() as int) =~= names_of(entries@));
    r
}

/// After pruning, the only name left of the cache root's entries is the kept one,
/// and the kept one is never removed.
pub proof fn lemma_prune_keeps_only_current(entries: Seq<Seq<char>>, keep: Seq<char>)
    ensures
        !stale_names(entries, keep).contains(keep),
        forall|e: Seq<char>|
            entries.contains(e) && !(#[trigger] stale_names(entries, keep).contains(e)) ==> e == keep,
{
    let pred = |e: Seq<char>| e != keep;
    broadcast use vstd::seq_lib::group_filter_ensures;

    assert forall|e: Seq<char>|
        entries.contains(e) && !(#[trigger] stale_names(entries, keep).contains(e)) implies e == keep by {
        if e != keep {
            let i = choose|i: int| 0 <= i < entries.len() && entries[i] == e;
            entries.lemma_filter_contains(pred, i);
        }
    }
}

/// The resolution engine's memory: the binary path resolved earlier in this process.
#[derive(Debug)]
pub struct VersionedCache {
    pub cached_binary_path: Option<String>,
}

impl View for VersionedCache {
    type V = Option<Seq<char>>;

    open spec fn view(&self) -> Option<Seq<char>> {
        opt_view(self.cached_binary_path)
    }
}

impl VersionedCache {
    /// A cache that remembers nothing yet.
    pub fn new() -> (r: VersionedCache)
        ensures
            r@ == None::<Seq<char>>,
    {
        VersionedCache { cached_binary_path: None }
    }

    /// The memoized path, to be probed for a regular file before it is trusted.
    pub fn cached_path(&self) -> (r: Option<String>)
        ensures
            r == self.cached_binary_path,
            opt_view(r) == self@,
    {
        match &self.cached_binary_path {
            Some(p) => Some(p.clone()),
            None => None,
        }
    }

    /// The fast path: the memoized path if the probe found a regular file there, else
    /// nothing, and a full resolution follows.
    pub fn fast_path(&self, cached_is_file: bool) -> (r: Option<String>)
        ensures
            opt_view(r) == spec_fast_path(self@, cached_is_file),
            r == (if cached_is_file { self.cached_binary_path } else { None }),
    {
        if cached_is_file {
            self.cached_path()
        } else {
            None
        }
    }

    /// Memoizes the freshly resolved binary path and hands it back.
    pub fn remember(&mut self, binary_path: String) -> (r: String)
        ensures
            r == binary_path,
            final(self)@ == Some(binary_path@),
    {
        let r = binary_path.clone();
        self.cached_binary_path = Some(binary_path);
        r
    }
}

/// Once a path is memoized, a probe that still finds the file returns that path, so no
/// release is fetched; a probe that finds it gone yields nothing, so resolution starts
/// over instead of returning a stale path.
pub proof fn lemma_memoized_path(path: Seq<char>)
    ensures
        spec_fast_path(Some(path), true) == Some(path),
        spec_fast_path(Some(path), false) == None::<Seq<char>>,
{
}

} // verus!
