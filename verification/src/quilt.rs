//! The Quilt loader: symmetric to Fabric against the Quilt meta and maven
//! endpoints.

use vstd::prelude::*;

verus! {

/// The Quilt meta profile URL of a game and loader version.
pub fn quilt_profile_url(game_version: &str, loader_version: &str) -> (r: String)
    ensures
        r@ == "https://meta.quiltmc.org/v3/versions/loader/"@ + game_version@ + "/"@
            + loader_version@ + "/profile/json"@,
{
    let mut u = String::from_str("https://meta.quiltmc.org/v3/versions/loader/");
    u.append(game_version);
    u.append("/");
    u.append(loader_version);
    u.append("/profile/json");
    proof {
        assert(u@ =~= "https://meta.quiltmc.org/v3/versions/loader/"@ + game_version@ + "/"@
            + loader_version@ + "/profile/json"@);
    }
    u
}

/// The Quilt meta index of loader versions, newest first.
pub fn quilt_loader_index_url() -> (r: &'static str)
    ensures
        r@ == "https://meta.quiltmc.org/v3/versions/loader"@,
{
    "https://meta.quiltmc.org/v3/versions/loader"
}

/// The default repository for Quilt coordinate-only libraries.
pub fn quilt_maven_base() -> (r: &'static str)
    ensures
        r@ == "https://maven.quiltmc.org/"@,
{
    "https://maven.quiltmc.org/"
}

} // verus!
