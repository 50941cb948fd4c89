use vstd::prelude::*;

verus! {

/// A handle to a config file, held as its path. Opening and reading the
/// file is the caller's I/O; this type only carries where the file lives.
pub struct ConfigFileReader {
    path: String,
}

impl ConfigFileReader {
    pub closed spec fn path_view(&self) -> Seq<char> {
        self.path@
    }

    pub fn new(path: String) -> (r: Self)
        ensures
            r.path_view() == path@,
    {
        ConfigFileReader { path }
    }

    pub fn path(&self) -> (r: &String)
        ensures
            r@ == self.path_view(),
    {
        &self.path
    }
}

} // verus!
