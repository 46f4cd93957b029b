//! Verified core of the yt-dlp wrapper backend: the decisions behind its protocol, engine,
//! tool management and media pipeline. Reading and writing files, running processes and
//! talking to the network are left to the program that embeds it.
use vstd::prelude::*;

pub mod config;
pub mod desktop_model;
pub mod engine;
pub mod media;
pub mod model;
pub mod paths;
pub mod platform;
pub mod protocol;
pub mod text;
pub mod tools;
pub mod unique;

verus! {

/// The version the backend reports: the release version it was built with, unless that is
/// absent or empty, else the package version.
pub fn application_version(
    release_version: Option<&'static str>,
    package_version: &'static str,
) -> (r: &'static str)
    ensures
        match release_version {
            Some(v) => r@ == if v@.len() > 0 {
                v@
            } else {
                package_version@
            },
            None => r@ == package_version@,
        },
{
    match release_version {
        Some(v) => if v.is_empty() {
            package_version
        } else {
            v
        },
        None => package_version,
    }
}

} // verus!
