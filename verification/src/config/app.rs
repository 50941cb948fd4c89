use vstd::prelude::*;
use vstd::string::StringExecFns;

verus! {

/// What a packaging config file holds, before defaults are applied: the
/// optional `[package]` table with its optional keys. The caller that reads
/// and deserializes the file hands this in as plain values.
pub struct RawPackageConfig {
    pub before_cmds: Option<Vec<String>>,
    pub exclude: Option<Vec<String>>,
}

pub struct RawAppConfig {
    pub package: Option<RawPackageConfig>,
}

/// The `[package]` table of an app's packaging config, defaults applied.
pub struct PackageConfig {
    before_cmds: Vec<String>,
    exclude: Vec<String>,
}

/// The commands a raw config resolves to: the declared list, or none.
pub open spec fn resolved_cmds(raw: RawAppConfig) -> Seq<Seq<char>> {
    match raw.package {
        Some(p) => match p.before_cmds {
            Some(c) => c.deep_view(),
            None => Seq::<Seq<char>>::empty(),
        },
        None => Seq::<Seq<char>>::empty(),
    }
}

/// The exclude patterns a raw config resolves to: the declared list, or none.
pub open spec fn resolved_excludes(raw: RawAppConfig) -> Seq<Seq<char>> {
    match raw.package {
        Some(p) => match p.exclude {
            Some(e) => e.deep_view(),
            None => Seq::<Seq<char>>::empty(),
        },
        None => Seq::<Seq<char>>::empty(),
    }
}

impl PackageConfig {
    pub closed spec fn before_cmds_view(&self) -> Seq<Seq<char>> {
        self.before_cmds.deep_view()
    }

    pub closed spec fn exclude_view(&self) -> Seq<Seq<char>> {
        self.exclude.deep_view()
    }

    /// The shell commands to run, in order, before packaging.
    pub fn before_cmds(&self) -> (r: &Vec<String>)
        ensures
            r.deep_view() == self.before_cmds_view(),
    {
        &self.before_cmds
    }

    /// The glob patterns of files to leave out of the package.
    pub fn exclude(&self) -> (r: &Vec<String>)
        ensures
            r.deep_view() == self.exclude_view(),
    {
        &self.exclude
    }
}

impl Default for PackageConfig {
    /// Defaults for a missing `[package]` table: no commands, no excludes.
    fn default() -> (r: Self)
        ensures
            r.before_cmds_view() == Seq::<Seq<char>>::empty(),
            r.exclude_view() == Seq::<Seq<char>>::empty(),
    {
        let r = PackageConfig { before_cmds: Vec::new(), exclude: Vec::new() };
        proof {
            assert(r.before_cmds_view() =~= Seq::<Seq<char>>::empty());
            assert(r.exclude_view() =~= Seq::<Seq<char>>::empty());
        }
        r
    }
}

impl RawPackageConfig {
    /// Missing keys fall back to the defaults.
    pub fn into_config(self) -> (r: PackageConfig)
        ensures
            r.before_cmds_view() == match self.before_cmds {
                Some(c) => c.deep_view(),
                None => Seq::<Seq<char>>::empty(),
            },
            r.exclude_view() == match self.exclude {
                Some(e) => e.deep_view(),
                None => Seq::<Seq<char>>::empty(),
            },
    {
        let before_cmds = match self.before_cmds {
            Some(c) => c,
            None => {
                let v: Vec<String> = Vec::new();
                proof {
                    assert(v.deep_view() =~= Seq::<Seq<char>>::empty());
                }
                v
            },
        };
        let exclude = match self.exclude {
            Some(e) => e,
            None => {
                let v: Vec<String> = Vec::new();
                proof {
                    assert(v.deep_view() =~= Seq::<Seq<char>>::empty());
                }
                v
            },
        };
        PackageConfig { before_cmds, exclude }
    }
}

/// An app's packaging configuration.
pub struct AppConfig {
    package: PackageConfig,
}

impl AppConfig {
    pub closed spec fn package_spec(&self) -> PackageConfig {
        self.package
    }

    pub fn package(&self) -> (r: &PackageConfig)
        ensures
            *r == self.package_spec(),
    {
        &self.package
    }
}

impl Default for AppConfig {
    /// The configuration an app without a config file gets.
    fn default() -> (r: Self)
        ensures
            r.package_spec().before_cmds_view() == Seq::<Seq<char>>::empty(),
            r.package_spec().exclude_view() == Seq::<Seq<char>>::empty(),
    {
        AppConfig { package: PackageConfig::default() }
    }
}

impl RawAppConfig {
    /// A missing `[package]` table falls back to the defaults.
    pub fn into_config(self) -> (r: AppConfig)
        ensures
            r.package_spec().before_cmds_view() == resolved_cmds(self),
            r.package_spec().exclude_view() == resolved_excludes(self),
    {
        match self.package {
            Some(p) => AppConfig { package: p.into_config() },
            None => AppConfig { package: PackageConfig::default() },
        }
    }
}

/// The packaging config that scaffolding writes for a new app: an empty
/// command list to fill in.
pub fn default_config_text() -> (r: String)
    ensures
        r@ == "[package]\nbefore_cmds = [\n\n]\n"@,
{
    String::from_str("[package]\nbefore_cmds = [\n\n]\n")
}

/// The ignore file that scaffolding writes beside it, unless one exists:
/// version-control and tooling entries that never ship.
pub fn default_ignore_text() -> (r: String)
    ensures
        r@
            == ".drone\n.git\n.github\n.gitignore\n.scrutinizer.yml\n.travis.yml\n.tx\nkrankerl.toml\nscreenshots\n.nextcloudignore\n"@,
{
    String::from_str(
        ".drone\n.git\n.github\n.gitignore\n.scrutinizer.yml\n.travis.yml\n.tx\nkrankerl.toml\nscreenshots\n.nextcloudignore\n",
    )
}

} // verus!
