use vstd::prelude::*;

verus! {

/// A handle to the server's admin command-line tool, held as the path to
/// its executable. Invoking the tool is the caller's I/O; this type only
/// carries the configuration for it.
pub struct Occ {
    path: String,
}

impl Occ {
    pub closed spec fn path_view(&self) -> Seq<char> {
        self.path@
    }

    pub fn new(occ_path: String) -> (r: Self)
        ensures
            r.path_view() == occ_path@,
    {
        Occ { path: occ_path }
    }

    pub fn path(&self) -> (r: &String)
        ensures
            r@ == self.path_view(),
    {
        &self.path
    }
}

} // verus!
