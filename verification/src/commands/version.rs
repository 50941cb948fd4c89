use vstd::prelude::*;

verus! {

/// Which part of the app's semantic version a bump changes.
pub enum VersionChange {
    Major,
    Minor,
    Patch,
}

impl VersionChange {
    /// Parses the bump name the command line uses: exactly `major`,
    /// `minor` or `patch`.
    pub fn from_name(s: &str) -> (r: Option<VersionChange>)
        ensures
            r == Some(VersionChange::Major) <==> s@ == "major"@,
            r == Some(VersionChange::Minor) <==> s@ == "minor"@,
            r == Some(VersionChange::Patch) <==> s@ == "patch"@,
            r is None <==> !(s@ == "major"@ || s@ == "minor"@ || s@ == "patch"@),
    {
        proof {
            reveal_strlit("major");
            reveal_strlit("minor");
            reveal_strlit("patch");
            assert(("major")@[1] == 'a' && ("minor")@[1] == 'i');
            assert(("major")@[0] == 'm' && ("patch")@[0] == 'p' && ("minor")@[0] == 'm');
            assert(("major")@ != ("minor")@ && ("major")@ != ("patch")@ && ("minor")@ != (
            "patch")@);
        }
        let owned = s.to_owned();
        if owned == String::from_str("major") {
            Some(VersionChange::Major)
        } else if owned == String::from_str("minor") {
            Some(VersionChange::Minor)
        } else if owned == String::from_str("patch") {
            Some(VersionChange::Patch)
        } else {
            None
        }
    }
}

impl core::str::FromStr for VersionChange {
    type Err = String;

    fn from_str(s: &str) -> Result<VersionChange, String> {
        match VersionChange::from_name(s) {
            Some(v) => Ok(v),
            None => Err("Could not parse version bump type".to_owned()),
        }
    }
}

} // verus!
