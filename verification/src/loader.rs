//! Map-loader configuration: where map files live and which file
//! extension they carry.  The host's asset pipeline wraps this to read the
//! bytes and hand the parsed document to the compiler.

use vstd::prelude::*;
use vstd::string::StringExecFns;

verus! {

/// Loader for map files: remembers the asset folder the host resolves
/// relative map paths against.
pub struct TiledMapLoader {
    pub asset_folder: String,
}

impl TiledMapLoader {
    /// A loader rooted at the given asset folder.
    pub fn new(path: String) -> (r: TiledMapLoader)
        ensures
            r.asset_folder == path,
    {
        TiledMapLoader { asset_folder: path }
    }

    /// The file extensions this loader handles: map files alone.
    pub fn extensions(&self) -> (r: Vec<String>)
        ensures
            r@.len() == 1,
            r@[0]@ == "tmx"@,
    {
        let mut v: Vec<String> = Vec::new();
        v.push(String::from_str("tmx"));
        v
    }
}

} // verus!
