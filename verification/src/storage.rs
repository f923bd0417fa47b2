//! The blob store the surrounding tool carries around: the library holds
//! its root and composes the paths under it; reading and writing files
//! happens outside the library.

use vstd::prelude::*;

verus! {

/// A local blob store rooted at a path.
#[derive(Debug)]
pub struct Storage {
    pub path: String,
}

impl Storage {
    /// A store rooted at `path`.
    pub fn new(path: String) -> (r: Self)
        ensures
            r.path@ == path@,
    {
        Self { path }
    }

    /// The remote path of a generated documentation file: the rustdoc
    /// prefix, the crate's name and version, then the wanted path.
    pub fn rustdoc_remote_path(&self, name: &str, version: &str, path: &str) -> (r: String)
        ensures
            r@ == "rustdoc/"@ + name@ + "/"@ + version@ + "/"@ + path@,
    {
        let mut s = "rustdoc/".to_owned();
        s.append(name);
        s.append("/");
        s.append(version);
        s.append("/");
        s.append(path);
        s
    }
}

} // verus!
