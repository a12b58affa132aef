use vstd::prelude::*;

use crate::error::ResolveError;
use crate::platform::{arch_name, arch_token, extension_name, extension_token, os_name, os_token, Arch, Os};

verus! {

/// Name of the server binary, of its archives and of its version directories.
pub const BINARY_NAME: &'static str = "github-mcp-server";

/// Repository whose releases publish the server binary.
pub const REPO_NAME: &'static str = "github/github-mcp-server";

/// A downloadable file attached to a release.
#[derive(Debug)]
pub struct Asset {
    pub name: String,
    pub download_url: String,
}

/// A published release: its version and its assets, in feed order.
#[derive(Debug)]
pub struct Release {
    pub version: String,
    pub assets: Vec<Asset>,
}

/// `{binary}_{os}_{arch}.{ext}`: the only asset name accepted for a platform.
pub open spec fn expected_asset_name(os: Os, arch: Arch) -> Seq<char> {
    BINARY_NAME@ + "_"@ + os_token(os) + "_"@ + arch_token(arch) + "."@ + extension_token(os)
}

/// Whether some asset is named exactly `name`.
pub open spec fn has_asset_named(assets: Seq<Asset>, name: Seq<char>) -> bool {
    exists|i: int| 0 <= i < assets.len() && #[trigger] assets[i].name@ == name
}

/// `i` is the first position of an asset named exactly `name`.
pub open spec fn first_asset_named(assets: Seq<Asset>, name: Seq<char>, i: int) -> bool {
    &&& 0 <= i < assets.len()
    &&& assets[i].name@ == name
    &&& forall|j: int| 0 <= j < i ==> #[trigger] assets[j].name@ != name
}

/// The asset name expected for a platform.
pub fn asset_name(os: Os, arch: Arch) -> (r: String)
    ensures
        r@ == expected_asset_name(os, arch),
{
    let os_word = os_name(os);
    let arch_word = arch_name(arch);
    let ext = extension_name(os);
    let r = String::from_str(BINARY_NAME).concat("_").concat(os_word.as_str()).concat("_").concat(
        arch_word.as_str(),
    ).concat(".").concat(ext.as_str());
    r
}

/// Picks the first asset of `release` whose name equals the platform's expected name;
/// no prefix or partial match is ever taken.
pub fn select_asset(release: &Release, os: Os, arch: Arch) -> (r: Result<Asset, ResolveError>)
    ensures
        r is Ok <==> has_asset_named(release.assets@, expected_asset_name(os, arch)),
        r matches Ok(a) ==> exists|i: int|
            first_asset_named(release.assets@, expected_asset_name(os, arch), i)
                && a.name@ == release.assets@[i].name@
                && a.download_url@ == release.assets@[i].download_url@,
        r matches Err(e) ==> e matches ResolveError::AssetNotFound(n) && n@ == expected_asset_name(
            os,
            arch,
        ),
{
    let expected = asset_name(os, arch);
    let mut i: usize = 0;
    while i < release.assets.len()
        invariant
            i <= release.assets@.len(),
            expected@ == expected_asset_name(os, arch),
            forall|j: int| 0 <= j < i ==> #[trigger] release.assets@[j].name@ != expected@,
        decreases release.assets@.len() - i,
    {
        let a = &release.assets[i];
        if a.name == expected {
            assert(first_asset_named(release.assets@, expected@, i as int));
            return Ok(Asset { name: a.name.clone(), download_url: a.download_url.clone() });
        }
        i = i + 1;
    }
    Err(ResolveError::AssetNotFound(expected))
}

} // verus!
