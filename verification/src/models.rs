use vstd::prelude::*;

verus! {

/// An app as the app store lists it.
#[allow(non_snake_case)]
pub struct App {
    pub id: String,
    pub authors: Vec<Author>,
    pub categories: Vec<String>,
    pub isFeatured: bool,
}

pub struct Author {
    pub name: String,
    pub mail: String,
    pub homepage: String,
}

pub struct Category {
    pub id: String,
}

/// A release to announce to the app store.
pub struct NewRelease {
    pub download: String,
    pub signature: String,
    pub nightly: bool,
}

} // verus!
