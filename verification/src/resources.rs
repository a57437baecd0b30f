//! Resource lookup: the root directory of the assets and the path
//! arithmetic under it, plus the decoded forms handed back to callers.
//!
//! Reading files, decoding images and parsing fonts are I/O done by the
//! surrounding program; this module holds the path computation and the
//! checks on what was read.

use vstd::prelude::*;
use vstd::string::StringExecFns;

verus! {

/// A decoded image: raw bytes plus its dimensions in pixels.
pub struct ImageResource {
    pub data: Vec<u8>,
    pub width: u32,
    pub height: u32,
}

/// The root directory under which named resources live.
pub struct Resources {
    root_path: String,
}

impl Resources {
    /// The root directory, as a character sequence.
    pub closed spec fn root(&self) -> Seq<char> {
        self.root_path@
    }

    /// A resource set rooted at the given directory.
    pub fn new(root_path: String) -> (r: Resources)
        ensures
            r.root() == root_path@,
    {
        Resources { root_path }
    }

    /// The path of a named resource below the root.
    pub fn resource_path(&self, location: &str) -> (path: String)
        ensures
            path@ == self.root() + seq!['/'] + location@,
    {
        resource_name_to_path(self.root_path.as_str(), location)
    }
}

/// The path of a resource below a root directory: the location's
/// slash-separated parts joined onto the root with `/`.
pub fn resource_name_to_path(root_dir: &str, location: &str) -> (path: String)
    ensures
        path@ == root_dir@ + seq!['/'] + location@,
{
    let mut path = String::from_str(root_dir);
    path.append("/");
    path.append(location);
    proof {
        reveal_strlit("/");
        assert("/"@ =~= seq!['/']);
    }
    path
}

/// Whether a loaded file holds a zero byte, which a C string cannot.
pub fn bytes_contain_nil(data: &Vec<u8>) -> (found: bool)
    ensures
        found == exists|i: int| 0 <= i < data@.len() && data@[i] == 0,
{
    let mut i: usize = 0;
    while i < data.len()
        invariant
            i <= data@.len(),
            forall|k: int| 0 <= k < i ==> data@[k] != 0,
        decreases data@.len() - i,
    {
        if data[i] == 0 {
            return true;
        }
        i = i + 1;
    }
    false
}

} // verus!
