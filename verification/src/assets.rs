//! The asset fetcher's plan: the content-addressed object store below
//! `assets/objects/`, and the asset index that describes it.
//!
//! A modern descriptor carries an `assetIndex` pointer downloaded under its
//! digest; a legacy descriptor names only an asset id, whose index comes
//! from the well-known legacy packages URL, unverified.  Every object lands
//! at `objects/<hh>/<hash>` where `hh` is the first two hex characters.

use vstd::prelude::*;

use crate::download::DownloadItem;
use crate::error::LauncherError;
use crate::manifest::VersionDescriptor;
use crate::text::spec_starts_with;

verus! {

/// One entry of an asset index: a content hash and its size.
pub struct AssetObject {
    pub hash: String,
    pub size: u64,
}

/// The object-store path of a hash, relative to `assets/`:
/// `objects/<hh>/<hash>`.
pub open spec fn spec_asset_rel(hash: Seq<char>) -> Seq<char> {
    "objects/"@ + hash.subrange(0, 2) + "/"@ + hash
}

/// The upstream URL of an asset object.
pub open spec fn spec_asset_url(hash: Seq<char>) -> Seq<char> {
    "https://resources.download.minecraft.net/"@ + hash.subrange(0, 2) + "/"@ + hash
}

/// The planned download of one asset object into the store below
/// `assets_dir`; the object's hash is its own content check.
pub fn asset_object_item(hash: &str, size: u64, assets_dir: &str) -> (r: DownloadItem)
    requires
        hash@.len() >= 2,
    ensures
        r@.url == spec_asset_url(hash@),
        r@.path == assets_dir@ + "/"@ + spec_asset_rel(hash@),
        r@.sha1 == Option::Some(hash@),
        r@.size == Option::Some(size),
{
    let hh = hash.substring_char(0, 2);
    let mut url = String::from_str("https://resources.download.minecraft.net/");
    url.append(hh);
    url.append("/");
    url.append(hash);
    let mut path = assets_dir.to_owned();
    path.append("/");
    path.append("objects/");
    path.append(hh);
    path.append("/");
    path.append(hash);
    proof {
        assert(url@ =~= spec_asset_url(hash@));
        assert(path@ =~= assets_dir@ + "/"@ + spec_asset_rel(hash@));
    }
    DownloadItem { url, path, sha1: Option::Some(hash.to_owned()), size: Option::Some(size) }
}

/// Plans the object downloads of an asset index below `assets_dir`.
pub fn plan_assets(objects: &Vec<AssetObject>, assets_dir: &str) -> (r: Vec<DownloadItem>)
    requires
        forall|i: int| 0 <= i < objects@.len() ==> (#[trigger] objects@[i].hash)@.len() >= 2,
    ensures
        r@.len() == objects@.len(),
        forall|i: int|
            0 <= i < r@.len() ==> {
                &&& (#[trigger] r@[i])@.url == spec_asset_url(objects@[i].hash@)
                &&& r@[i]@.path == assets_dir@ + "/"@ + spec_asset_rel(objects@[i].hash@)
                &&& r@[i]@.sha1 == Option::Some(objects@[i].hash@)
                &&& r@[i]@.size == Option::Some(objects@[i].size)
            },
        forall|i: int|
            0 <= i < r@.len() ==> spec_starts_with((#[trigger] r@[i])@.path, assets_dir@ + "/"@),
{
    let mut out: Vec<DownloadItem> = Vec::new();
    let mut i: usize = 0;
    while i < objects.len()
        invariant
            i <= objects@.len(),
            out@.len() == i,
            forall|k: int| 0 <= k < objects@.len() ==> (#[trigger] objects@[k].hash)@.len() >= 2,
            forall|k: int|
                0 <= k < i ==> {
                    &&& (#[trigger] out@[k])@.url == spec_asset_url(objects@[k].hash@)
                    &&& out@[k]@.path == assets_dir@ + "/"@ + spec_asset_rel(objects@[k].hash@)
                    &&& out@[k]@.sha1 == Option::Some(objects@[k].hash@)
                    &&& out@[k]@.size == Option::Some(objects@[k].size)
                },
        decreases objects@.len() - i,
    {
        let item = asset_object_item(objects[i].hash.as_str(), objects[i].size, assets_dir);
        out.push(item);
        i += 1;
    }
    proof {
        assert forall|i: int| 0 <= i < out@.len() implies spec_starts_with(
            (#[trigger] out@[i])@.path,
            assets_dir@ + "/"@,
        ) by {
            assert(out@[i]@.path.subrange(0, (assets_dir@ + "/"@).len() as int) =~= assets_dir@
                + "/"@);
        }
    }
    out
}

/// The fixed legacy packages URL an asset id's index is fetched from.
pub open spec fn spec_legacy_index_url(id: Seq<char>) -> Seq<char> {
    "https://launchermeta.mojang.com/v1/packages/1863782e33ce7b584fc45b037325a1964e095d3e/"@ + id
        + ".json"@
}

/// Plans the asset-index download of a descriptor below `assets_dir`.
///
/// A modern descriptor's index lands at `indexes/<game_version>.json` under
/// its declared digest; a legacy descriptor's index comes from the legacy
/// packages URL into `indexes/<asset_id>.json`, unverified.  A descriptor
/// with neither shape is missing its `assetIndex`.
pub fn plan_asset_index(d: &VersionDescriptor, assets_dir: &str, game_version: &str) -> (r: Result<
    DownloadItem,
    LauncherError,
>)
    ensures
        match r {
            Ok(item) => match d.asset_index {
                Option::Some(ai) => item@.url == ai.url@ && item@.path == assets_dir@
                    + "/indexes/"@ + game_version@ + ".json"@ && item@.sha1 == Option::Some(
                    ai.sha1@,
                ) && item@.size == Option::Some(ai.size),
                Option::None => match d.legacy_assets_id {
                    Option::Some(id) => item@.url == spec_legacy_index_url(id@) && item@.path
                        == assets_dir@ + "/indexes/"@ + id@ + ".json"@ && item@.sha1 is None
                        && item@.size is None,
                    Option::None => false,
                },
            },
            Err(LauncherError::ManifestMissingField { field }) => d.asset_index is None
                && d.legacy_assets_id is None && field@ == "assetIndex"@,
            Err(_) => false,
        },
{
    match &d.asset_index {
        Option::Some(ai) => {
            let mut path = assets_dir.to_owned();
            path.append("/indexes/");
            path.append(game_version);
            path.append(".json");
            proof {
                assert(path@ =~= assets_dir@ + "/indexes/"@ + game_version@ + ".json"@);
            }
            Ok(
                DownloadItem {
                    url: ai.url.clone(),
                    path,
                    sha1: Option::Some(ai.sha1.clone()),
                    size: Option::Some(ai.size),
                },
            )
        },
        Option::None => match &d.legacy_assets_id {
            Option::Some(id) => {
                let mut url = String::from_str(
                    "https://launchermeta.mojang.com/v1/packages/1863782e33ce7b584fc45b037325a1964e095d3e/",
                );
                url.append(id.as_str());
                url.append(".json");
                let mut path = assets_dir.to_owned();
                path.append("/indexes/");
                path.append(id.as_str());
                path.append(".json");
                proof {
                    assert(url@ =~= spec_legacy_index_url(id@));
                    assert(path@ =~= assets_dir@ + "/indexes/"@ + id@ + ".json"@);
                }
                Ok(DownloadItem { url, path, sha1: Option::None, size: Option::None })
            },
            Option::None => Err(
                LauncherError::ManifestMissingField { field: String::from_str("assetIndex") },
            ),
        },
    }
}

} // verus!
