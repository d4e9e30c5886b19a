//! Checks performed before a static file is served: path safety against
//! directory traversal, and the cache-control header chosen for a file type.

use crate::text::{find_sub, lemma_spec_find_props, spec_contains_sub, spec_ends_with, str_ends_with};
use vstd::prelude::*;

verus! {

/// Why a static asset request is refused.
#[derive(Clone, Copy, Debug, PartialEq, Eq, Structural)]
pub enum StaticAssetError {
    /// The path reaches for a parent directory.
    UnsafePath,
    /// No file lives under the path.
    NotFound,
}

/// Accepts a path exactly when it holds no `..` run; a path with one could
/// climb out of the asset root.
pub fn is_path_safe(path: &str) -> (r: Result<(), StaticAssetError>)
    ensures
        match r {
            Ok(_) => !spec_contains_sub(path@, ".."@),
            Err(e) => spec_contains_sub(path@, ".."@) && e == StaticAssetError::UnsafePath,
        },
{
    proof {
        lemma_spec_find_props(path@, ".."@, 0);
    }
    match find_sub(path, "..", 0) {
        Some(_) => Err(StaticAssetError::UnsafePath),
        None => Ok(()),
    }
}

/// The cache-control header for a file, by its suffix.
pub open spec fn spec_cache_control(p: Seq<char>) -> Seq<char> {
    if spec_ends_with(p, ".js"@) || spec_ends_with(p, ".css"@) || spec_ends_with(p, ".svg"@) {
        "public, max-age=31536000, immutable"@
    } else if spec_ends_with(p, ".jpg"@) || spec_ends_with(p, ".jpeg"@) || spec_ends_with(
        p,
        ".png"@,
    ) || spec_ends_with(p, ".gif"@) {
        "public, max-age=604800, immutable"@
    } else if spec_ends_with(p, ".html"@) || spec_ends_with(p, ".htm"@) {
        "public, max-age=3600, must-revalidate"@
    } else {
        "public, max-age=86400"@
    }
}

/// Picks the cache-control header for `path`: scripts, styles and vector art
/// cache for a year, raster images for a week, markup for an hour, and
/// everything else for a day.
pub fn get_cache_control(path: &str) -> (r: &'static str)
    ensures
        r@ == spec_cache_control(path@),
{
    if str_ends_with(path, ".js") || str_ends_with(path, ".css") || str_ends_with(path, ".svg") {
        "public, max-age=31536000, immutable"
    } else if str_ends_with(path, ".jpg") || str_ends_with(path, ".jpeg") || str_ends_with(
        path,
        ".png",
    ) || str_ends_with(path, ".gif") {
        "public, max-age=604800, immutable"
    } else if str_ends_with(path, ".html") || str_ends_with(path, ".htm") {
        "public, max-age=3600, must-revalidate"
    } else {
        "public, max-age=86400"
    }
}

} // verus!
