//! Installation planner and launch support for a voxel sandbox game client.
//!
//! The crate models profiles `(name, loader, loader_version, game_version)`,
//! derives per-version download sets from upstream manifests, verifies content
//! by SHA-1 digest and size, plans native extraction and runtime provisioning,
//! and decides launch arguments and process supervision steps.  All decision
//! logic is verified; network, filesystem and process work is delegated to a
//! host shell that executes the plans this crate produces.

pub mod assets;
pub mod download;
pub mod error;
pub mod extract;
pub mod fabric;
pub mod forge;
pub mod hosts;
pub mod install;
pub mod jre;
pub mod launch;
pub mod libraries;
pub mod loader;
pub mod manifest;
pub mod maven;
pub mod natives;
pub mod neoforge;
pub mod optifine;
pub mod quilt;
pub mod rules;
pub mod supervisor;
pub mod system;
pub mod text;
pub mod version;
