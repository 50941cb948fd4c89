use vstd::prelude::*;

use crate::paths::{clone_string, join_components, joined_spec, rel_parts_spec, AppPath};

verus! {

#[verifier::external_type_specification]
#[verifier::external_body]
pub struct ExGlob(globset::Glob);

#[verifier::external_type_specification]
#[verifier::external_body]
pub struct ExGlobSetBuilder(globset::GlobSetBuilder);

#[verifier::external_type_specification]
#[verifier::external_body]
pub struct ExGlobSet(globset::GlobSet);

/// Whether globset accepts `pattern` as a glob when compiled with a literal
/// path separator (so `*` and `?` never match `/`).
pub uninterp spec fn glob_accepts(pattern: Seq<char>) -> bool;

/// The pattern a compiled glob was built from.
pub uninterp spec fn glob_pattern(g: globset::Glob) -> Seq<char>;

/// The patterns a glob-set builder holds, in insertion order.
pub uninterp spec fn builder_patterns(b: globset::GlobSetBuilder) -> Seq<Seq<char>>;

/// The patterns a compiled glob set was built from, in insertion order.
pub uninterp spec fn glob_set_patterns(s: globset::GlobSet) -> Seq<Seq<char>>;

/// Whether any pattern of `patterns` matches `candidate`, under globset's
/// matching with a literal path separator.
pub uninterp spec fn glob_set_match(patterns: Seq<Seq<char>>, candidate: Seq<char>) -> bool;

/// Whether globset compiles a set built from exactly these patterns.
pub uninterp spec fn set_compiles(patterns: Seq<Seq<char>>) -> bool;

/// Relies on globset::GlobBuilder::build: compiling `pattern` with
/// `literal_separator(true)` succeeds exactly when the pattern parses, and
/// the compiled glob keeps the pattern (globset::Glob::glob returns it).
#[verifier::external_body]
fn compile_glob(pattern: &str) -> (r: Option<globset::Glob>)
    ensures
        r is Some <==> glob_accepts(pattern@),
        r matches Some(g) ==> glob_pattern(g) == pattern@,
{
    globset::GlobBuilder::new(pattern).literal_separator(true).build().ok()
}

/// Relies on globset::GlobSetBuilder::new: a fresh builder holds no patterns.
#[verifier::external_body]
fn glob_builder_new() -> (b: globset::GlobSetBuilder)
    ensures
        builder_patterns(b) == Seq::<Seq<char>>::empty(),
{
    globset::GlobSetBuilder::new()
}

/// Relies on globset::GlobSetBuilder::add: appends the glob to the builder's
/// patterns.
#[verifier::external_body]
fn glob_builder_add(b: &mut globset::GlobSetBuilder, g: globset::Glob)
    ensures
        builder_patterns(*final(b)) == builder_patterns(*old(b)).push(glob_pattern(g)),
{
    b.add(g);
}

/// Relies on globset::GlobSetBuilder::build: compiling succeeds exactly
/// when the combined set compiles, a function of the patterns alone, and
/// the compiled set then holds exactly the builder's patterns.
#[verifier::external_body]
fn glob_builder_build(b: &globset::GlobSetBuilder) -> (r: Option<globset::GlobSet>)
    ensures
        r is Some <==> set_compiles(builder_patterns(*b)),
        r matches Some(s) ==> glob_set_patterns(s) == builder_patterns(*b),
{
    b.build().ok()
}

/// Relies on globset::GlobSet::is_match: true exactly when some glob of the
/// set matches the candidate path; an empty set matches nothing.
#[verifier::external_body]
fn glob_set_is_match(s: &globset::GlobSet, candidate: &str) -> (r: bool)
    ensures
        r == glob_set_match(glob_set_patterns(*s), candidate@),
        glob_set_patterns(*s).len() == 0 ==> !r,
{
    s.is_match(candidate)
}

/// Building the exclude rule set failed.
#[derive(Debug)]
pub enum ExcludeBuildError {
    /// globset refused this pattern.
    BadPattern { pattern: String },
    /// every pattern parsed, but the combined set would not compile.
    SetBuild,
}

/// Whether `path`, taken relative to the base, is excluded by `patterns`.
/// A path that cannot be expressed relative to the base is never excluded.
pub open spec fn is_excluded_spec(
    patterns: Seq<Seq<char>>,
    path: AppPath,
    base_abs: bool,
    base_parts: Seq<Seq<char>>,
) -> bool {
    match rel_parts_spec(path, base_abs, base_parts) {
        Some(rel) => glob_set_match(patterns, joined_spec(rel)),
        None => false,
    }
}

/// A compiled set of glob patterns naming the files left out of a package.
pub struct ExcludedFiles {
    glob: globset::GlobSet,
    patterns: Ghost<Seq<Seq<char>>>,
}

impl ExcludedFiles {
    /// The patterns the set was built from.
    pub closed spec fn patterns(&self) -> Seq<Seq<char>> {
        self.patterns@
    }

    #[verifier::type_invariant]
    closed spec fn wf(self) -> bool {
        glob_set_patterns(self.glob) == self.patterns@
    }

    /// Compiles the given patterns, with a literal path separator. The
    /// build succeeds exactly when every pattern parses and the combined
    /// set compiles; it fails on the first pattern globset refuses, naming
    /// it, and with `SetBuild` when only the combined set would not
    /// compile.
    pub fn new(excludes: &Vec<String>) -> (r: Result<ExcludedFiles, ExcludeBuildError>)
        ensures
            r is Ok <==> (forall|i: int|
                0 <= i < excludes.deep_view().len() ==> glob_accepts(
                    #[trigger] excludes.deep_view()[i],
                )) && set_compiles(excludes.deep_view()),
            r matches Ok(ex) ==> ex.patterns() == excludes.deep_view(),
            r matches Err(ExcludeBuildError::BadPattern { pattern }) ==> exists|i: int|
                0 <= i < excludes.deep_view().len() && pattern@ == excludes.deep_view()[i]
                    && !glob_accepts(#[trigger] excludes.deep_view()[i]) && (forall|j: int|
                    0 <= j < i ==> glob_accepts(#[trigger] excludes.deep_view()[j])),
            r matches Err(ExcludeBuildError::SetBuild) ==> !set_compiles(excludes.deep_view())
                && (forall|i: int|
                0 <= i < excludes.deep_view().len() ==> glob_accepts(
                    #[trigger] excludes.deep_view()[i],
                )),
    {
        let mut builder = glob_builder_new();
        let mut i: usize = 0;
        while i < excludes.len()
            invariant
                i <= excludes.deep_view().len(),
                builder_patterns(builder) == excludes.deep_view().take(i as int),
                forall|j: int| 0 <= j < i ==> glob_accepts(#[trigger] excludes.deep_view()[j]),
            decreases excludes.deep_view().len() - i,
        {
            match compile_glob(excludes[i].as_str()) {
                Some(g) => {
                    glob_builder_add(&mut builder, g);
                    proof {
                        assert(excludes.deep_view().take(i as int).push(excludes.deep_view()[
                            i as int
                        ]) =~= excludes.deep_view().take(i as int + 1));
                    }
                },
                None => {
                    let p = clone_string(&excludes[i]);
                    proof {
                        assert(p@ == excludes.deep_view()[i as int] && !glob_accepts(
                            excludes.deep_view()[i as int],
                        ));
                    }
                    return Err(ExcludeBuildError::BadPattern { pattern: p });
                },
            }
            i += 1;
        }
        proof {
            assert(excludes.deep_view().take(excludes.deep_view().len() as int)
                =~= excludes.deep_view());
        }
        match glob_builder_build(&builder) {
            Some(set) => Ok(ExcludedFiles { glob: set, patterns: Ghost(excludes.deep_view()) }),
            None => Err(ExcludeBuildError::SetBuild),
        }
    }

    /// Whether `path`, made relative to `base`, matches one of the exclude
    /// patterns. A path outside `base` is never excluded, and an empty
    /// pattern set excludes nothing.
    pub fn is_excluded(&self, path: &AppPath, base: &AppPath) -> (r: bool)
        ensures
            r == is_excluded_spec(self.patterns(), *path, base.absolute, base.parts_view()),
            self.patterns().len() == 0 ==> !r,
    {
        proof {
            use_type_invariant(self);
        }
        match path.relative_to(base) {
            None => false,
            Some(rel) => {
                let candidate = join_components(&rel);
                glob_set_is_match(&self.glob, candidate.as_str())
            },
        }
    }
}

/// Law: a path that cannot be expressed relative to `base` is never
/// excluded, whatever the patterns.
pub proof fn lemma_fail_open_on_unrelated_path(
    patterns: Seq<Seq<char>>,
    path: AppPath,
    base_abs: bool,
    base_parts: Seq<Seq<char>>,
)
    requires
        rel_parts_spec(path, base_abs, base_parts) is None,
    ensures
        !is_excluded_spec(patterns, path, base_abs, base_parts),
{
}

} // verus!
