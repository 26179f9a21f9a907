//! The Fabric loader: its meta endpoints and its coordinate-only library
//! downloads.
//!
//! The host shell fetches the profile JSON from the meta endpoint; the
//! profile's `mainClass` feeds `resolve_main_class` and its libraries feed
//! `plan_coordinate_downloads` with the Fabric maven as the default base.

use vstd::prelude::*;

use crate::error::LauncherError;

verus! {

/// The Fabric meta profile URL of a game and loader version.
pub fn fabric_profile_url(game_version: &str, loader_version: &str) -> (r: String)
    ensures
        r@ == "https://meta.fabricmc.net/v2/versions/loader/"@ + game_version@ + "/"@
            + loader_version@ + "/profile/json"@,
{
    let mut u = String::from_str("https://meta.fabricmc.net/v2/versions/loader/");
    u.append(game_version);
    u.append("/");
    u.append(loader_version);
    u.append("/profile/json");
    proof {
        assert(u@ =~= "https://meta.fabricmc.net/v2/versions/loader/"@ + game_version@ + "/"@
            + loader_version@ + "/profile/json"@);
    }
    u
}

/// The Fabric meta index of loader versions, newest first.
pub fn fabric_loader_index_url() -> (r: &'static str)
    ensures
        r@ == "https://meta.fabricmc.net/v2/versions/loader"@,
{
    "https://meta.fabricmc.net/v2/versions/loader"
}

/// The default repository for Fabric coordinate-only libraries.
pub fn fabric_maven_base() -> (r: &'static str)
    ensures
        r@ == "https://maven.fabricmc.net/"@,
{
    "https://maven.fabricmc.net/"
}

/// The newest loader version of a meta index: its first entry.
pub fn latest_loader_version(versions: &Vec<String>) -> (r: Result<String, LauncherError>)
    ensures
        match r {
            Ok(v) => versions@.len() > 0 && v@ == versions@[0]@,
            Err(LauncherError::ManifestMissingField { field }) => versions@.len() == 0 && field@
                == "version"@,
            Err(_) => false,
        },
{
    if versions.len() > 0 {
        Ok(versions[0].clone())
    } else {
        Err(LauncherError::ManifestMissingField { field: String::from_str("version") })
    }
}

} // verus!
