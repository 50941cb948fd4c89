use vstd::prelude::*;
use vstd::string::StringExecFns;

use crate::config::app::{resolved_cmds, resolved_excludes, AppConfig, RawAppConfig};
use crate::packaging::archive::{
    archive_entries_spec, build_app_archive, entry_included, entry_name_spec, gzip, gzip_of,
    has_failed_read, lemma_archive_entry_source, tar_bytes, ArchiveError, FsEntry,
};
use crate::packaging::commands::{
    reports_spec, CommandError, CommandList, CommandOutcome, CommandRun,
};
use crate::packaging::exclude::{glob_set_match, is_excluded_spec, ExcludeBuildError, ExcludedFiles};
use crate::paths::{
    join_all, joined_spec, rel_parts_spec, tmp_app_path, wf_component, wf_parts, AppPath,
};

verus! {

/// The app's identity as its manifest declares it.
pub struct AppIdentity {
    pub id: String,
    pub version: String,
}

/// Why a packaging run stopped. Every stage failure is fatal: the run is
/// not retried and no partial output is promoted.
#[derive(Debug)]
pub enum PipelineError {
    /// the app's manifest could not be read or parsed
    AppInfo { message: String },
    /// cloning the source into the staging area failed
    CloneFailed { message: String },
    /// the packaging config exists but could not be read or parsed
    ConfigParse { message: String },
    /// compiling the exclude patterns failed
    Excludes(ExcludeBuildError),
    /// a pre-package command failed
    Command(CommandError),
    /// clearing the artifacts directory failed
    Io { message: String },
    /// writing the archive failed
    Archive(ArchiveError),
}

/// What happened while preparing the staging clone. The caller reads the
/// manifest, creates a fresh staging root, clones the source under it, and
/// reports how far it got.
pub enum CloneEvent {
    /// reading the app's manifest failed
    InfoFailed { message: String },
    /// the manifest was read, but cloning failed
    CloneFailed { identity: AppIdentity, message: String },
    /// the source tree was cloned to the app's directory under this root
    Cloned { identity: AppIdentity, staging_root: AppPath },
}

/// What loading the optional packaging config reported.
pub enum ConfigEvent {
    /// no config file at the clone root
    Missing,
    /// the file was read and deserialized into these raw values
    Loaded(RawAppConfig),
    /// the file exists but could not be read or parsed
    Failed { message: String },
}

/// Whether a component names version-control bookkeeping, which never
/// ships.
pub open spec fn vcs_component(c: Seq<char>) -> bool {
    c == ".git"@
}

pub open spec fn no_vcs_components(rel: Seq<Seq<char>>) -> bool {
    forall|i: int| 0 <= i < rel.len() ==> !vcs_component(#[trigger] rel[i])
}

/// Whether a walked entry survives filtering: not excluded by the
/// patterns, and not version-control bookkeeping of the clone.
pub open spec fn entry_selected(
    patterns: Seq<Seq<char>>,
    base_abs: bool,
    base_parts: Seq<Seq<char>>,
    e: FsEntry,
) -> bool {
    &&& !is_excluded_spec(patterns, e.path, base_abs, base_parts)
    &&& match rel_parts_spec(e.path, base_abs, base_parts) {
        Some(rel) => no_vcs_components(rel),
        None => true,
    }
}

/// The entries kept for packaging, in walk order.
pub open spec fn selected_files_spec(
    patterns: Seq<Seq<char>>,
    base_abs: bool,
    base_parts: Seq<Seq<char>>,
    entries: Seq<FsEntry>,
) -> Seq<FsEntry>
    decreases entries.len(),
{
    if entries.len() == 0 {
        Seq::<FsEntry>::empty()
    } else {
        let rest = selected_files_spec(patterns, base_abs, base_parts, entries.drop_last());
        if entry_selected(patterns, base_abs, base_parts, entries.last()) {
            rest.push(entries.last())
        } else {
            rest
        }
    }
}

/// The files a shipped directory holds: for each regular file under the
/// app directory, its source path and its components relative to the app
/// directory.
pub open spec fn ship_entries_spec(
    app_abs: bool,
    app_parts: Seq<Seq<char>>,
    files: Seq<FsEntry>,
) -> Seq<(AppPath, Seq<Seq<char>>)>
    decreases files.len(),
{
    if files.len() == 0 {
        Seq::<(AppPath, Seq<Seq<char>>)>::empty()
    } else {
        let rest = ship_entries_spec(app_abs, app_parts, files.drop_last());
        let e = files.last();
        if !e.is_dir {
            match rel_parts_spec(e.path, app_abs, app_parts) {
                Some(rel) => rest.push((e.path, rel)),
                None => rest,
            }
        } else {
            rest
        }
    }
}

fn entry_is_selected(excludes: &ExcludedFiles, base: &AppPath, e: &FsEntry) -> (r: bool)
    ensures
        r == entry_selected(excludes.patterns(), base.absolute, base.parts_view(), *e),
{
    if excludes.is_excluded(&e.path, base) {
        return false;
    }
    match e.path.relative_to(base) {
        None => true,
        Some(rel) => {
            let git = String::from_str(".git");
            let mut i: usize = 0;
            while i < rel.len()
                invariant
                    i <= rel@.len(),
                    git@ == ".git"@,
                    Some(rel.deep_view()) == rel_parts_spec(
                        e.path,
                        base.absolute,
                        base.parts_view(),
                    ),
                    forall|j: int| 0 <= j < i ==> !vcs_component(#[trigger] rel.deep_view()[j]),
                decreases rel@.len() - i,
            {
                if rel[i] == git {
                    proof {
                        assert(vcs_component(rel.deep_view()[i as int]));
                    }
                    return false;
                }
                i += 1;
            }
            proof {
                assert(no_vcs_components(rel.deep_view()));
            }
            true
        },
    }
}

/// Keeps the entries of the walk that are neither excluded nor
/// version-control bookkeeping. Directories stay listed, as the walker
/// reported them; the archive builder skips them later.
pub fn build_file_list(entries: Vec<FsEntry>, excludes: &ExcludedFiles, base: &AppPath) -> (r: Vec<
    FsEntry,
>)
    ensures
        r@ == selected_files_spec(excludes.patterns(), base.absolute, base.parts_view(), entries@),
{
    let ghost orig = entries@;
    let mut pending = entries;
    let mut r: Vec<FsEntry> = Vec::new();
    let ghost mut done: int = 0;
    while pending.len() > 0
        invariant
            0 <= done <= orig.len(),
            pending@ == orig.skip(done),
            r@ == selected_files_spec(
                excludes.patterns(),
                base.absolute,
                base.parts_view(),
                orig.take(done),
            ),
        decreases pending@.len(),
    {
        let e = pending.remove(0);
        proof {
            assert(e == orig[done]);
            assert(pending@ =~= orig.skip(done + 1));
            assert(orig.take(done + 1).drop_last() =~= orig.take(done));
            assert(orig.take(done + 1).last() == orig[done]);
        }
        if entry_is_selected(excludes, base, &e) {
            r.push(e);
        }
        proof {
            done = done + 1;
        }
    }
    proof {
        assert(orig.take(orig.len() as int) =~= orig);
    }
    r
}

/// An app source tree, before packaging has begun. The pipeline is a chain
/// of stages, each consuming the previous one by value, so a stage cannot
/// be skipped or run out of order.
pub struct App {
    source_path: AppPath,
}

impl App {
    pub closed spec fn source_path_spec(&self) -> AppPath {
        self.source_path
    }

    pub fn new(source_path: AppPath) -> (r: Self)
        ensures
            r.source_path_spec() == source_path,
    {
        App { source_path }
    }

    pub fn source_path(&self) -> (r: &AppPath)
        ensures
            *r == self.source_path_spec(),
    {
        &self.source_path
    }

    /// Moves the app into the cloned stage, given what the collaborators
    /// reported. Fails when the manifest could not be read or the clone
    /// failed, naming the cause either way.
    pub fn clone(self, event: CloneEvent) -> (r: Result<ClonedApp, PipelineError>)
        ensures
            event matches CloneEvent::InfoFailed { message } ==> (r matches Err(
                PipelineError::AppInfo { message: m },
            ) && m@ == message@),
            event matches CloneEvent::CloneFailed { message, .. } ==> (r matches Err(
                PipelineError::CloneFailed { message: m },
            ) && m@ == message@),
            event matches CloneEvent::Cloned { identity, staging_root } ==> (r matches Ok(c)
                && c.source_path_spec() == self.source_path_spec() && c.identity_spec() == identity
                && c.staging_root_spec() == staging_root),
    {
        match event {
            CloneEvent::InfoFailed { message } => Err(PipelineError::AppInfo { message }),
            CloneEvent::CloneFailed { message, .. } => Err(
                PipelineError::CloneFailed { message },
            ),
            CloneEvent::Cloned { identity, staging_root } => Ok(
                ClonedApp::new(self, identity, staging_root),
            ),
        }
    }
}

/// The app cloned into an exclusively-owned staging directory.
pub struct ClonedApp {
    app: App,
    identity: AppIdentity,
    staging_root: AppPath,
}

impl ClonedApp {
    pub closed spec fn source_path_spec(&self) -> AppPath {
        self.app.source_path
    }

    pub closed spec fn identity_spec(&self) -> AppIdentity {
        self.identity
    }

    pub closed spec fn staging_root_spec(&self) -> AppPath {
        self.staging_root
    }

    pub fn new(app: App, identity: AppIdentity, staging_root: AppPath) -> (r: Self)
        ensures
            r.source_path_spec() == app.source_path_spec(),
            r.identity_spec() == identity,
            r.staging_root_spec() == staging_root,
    {
        ClonedApp { app, identity, staging_root }
    }

    /// The staging copy's own directory: the app's id under the staging
    /// root.
    pub fn app_dir(&self) -> (r: AppPath)
        ensures
            r.absolute == self.staging_root_spec().absolute,
            r.parts_view() == self.staging_root_spec().parts_view().push(self.identity_spec().id@),
    {
        tmp_app_path(&self.staging_root, self.identity.id.as_str())
    }

    /// Dependency installation inside the clone. Nothing is installed
    /// here — the separate working-copy preparation command does that —
    /// so this stage always succeeds: a missing dependency manifest must
    /// not fail packaging.
    pub fn install_dependencies(self) -> (r: Result<AppWithDependencies, PipelineError>)
        ensures
            r matches Ok(a) && a.source_path_spec() == self.source_path_spec()
                && a.identity_spec() == self.identity_spec() && a.staging_root_spec()
                == self.staging_root_spec(),
    {
        Ok(AppWithDependencies::new(self))
    }
}

/// The clone with its dependencies in place.
pub struct AppWithDependencies {
    app: App,
    identity: AppIdentity,
    staging_root: AppPath,
}

impl AppWithDependencies {
    pub closed spec fn source_path_spec(&self) -> AppPath {
        self.app.source_path
    }

    pub closed spec fn identity_spec(&self) -> AppIdentity {
        self.identity
    }

    pub closed spec fn staging_root_spec(&self) -> AppPath {
        self.staging_root
    }

    pub fn new(clone: ClonedApp) -> (r: Self)
        ensures
            r.source_path_spec() == clone.source_path_spec(),
            r.identity_spec() == clone.identity_spec(),
            r.staging_root_spec() == clone.staging_root_spec(),
    {
        AppWithDependencies { app: clone.app, identity: clone.identity, staging_root: clone.staging_root }
    }

    /// Starts the build stage from what the config loader reported. A
    /// missing config file is not an error: the default (no commands, no
    /// excludes) stands in, and the build is marked as having used it. A
    /// malformed config aborts before anything else happens.
    pub fn build(self, config: ConfigEvent) -> (r: Result<AppBuild, PipelineError>)
        ensures
            config matches ConfigEvent::Failed { message } ==> (r matches Err(
                PipelineError::ConfigParse { message: m },
            ) && m@ == message@),
            config matches ConfigEvent::Missing ==> (r matches Ok(b) && b.used_default_spec()
                && b.config_spec().package_spec().before_cmds_view() == Seq::<Seq<char>>::empty()
                && b.config_spec().package_spec().exclude_view() == Seq::<Seq<char>>::empty()
                && b.run_state().cmds_view() == Seq::<Seq<char>>::empty() && b.run_state().position()
                == 0 && !b.run_state().has_failed() && b.source_path_spec()
                == self.source_path_spec() && b.identity_spec() == self.identity_spec()
                && b.staging_root_spec() == self.staging_root_spec()),
            config matches ConfigEvent::Loaded(raw) ==> (r matches Ok(b) && !b.used_default_spec()
                && b.config_spec().package_spec().before_cmds_view() == resolved_cmds(raw)
                && b.config_spec().package_spec().exclude_view() == resolved_excludes(raw)
                && b.run_state().cmds_view() == resolved_cmds(raw) && b.run_state().position() == 0
                && !b.run_state().has_failed() && b.source_path_spec() == self.source_path_spec()
                && b.identity_spec() == self.identity_spec() && b.staging_root_spec()
                == self.staging_root_spec()),
    {
        let (cfg, used_default) = match config {
            ConfigEvent::Failed { message } => {
                return Err(PipelineError::ConfigParse { message });
            },
            ConfigEvent::Missing => (AppConfig::default(), true),
            ConfigEvent::Loaded(raw) => (raw.into_config(), false),
        };
        let run = CommandRun::start(CommandList::from(cfg.package()));
        Ok(AppBuild { inner: self, config: cfg, used_default, run })
    }
}

/// The build stage under way: the pre-package commands run one by one, in
/// declaration order, inside the clone.
pub struct AppBuild {
    inner: AppWithDependencies,
    config: AppConfig,
    used_default: bool,
    run: CommandRun,
}

impl AppBuild {
    pub closed spec fn source_path_spec(&self) -> AppPath {
        self.inner.app.source_path
    }

    pub closed spec fn identity_spec(&self) -> AppIdentity {
        self.inner.identity
    }

    pub closed spec fn staging_root_spec(&self) -> AppPath {
        self.inner.staging_root
    }

    pub closed spec fn config_spec(&self) -> AppConfig {
        self.config
    }

    /// Whether the default config stood in for a missing file: a
    /// warning-level signal, not a failure.
    pub closed spec fn used_default_spec(&self) -> bool {
        self.used_default
    }

    pub closed spec fn run_state(&self) -> CommandRun {
        self.run
    }

    pub fn used_default_config(&self) -> (r: bool)
        ensures
            r == self.used_default_spec(),
    {
        self.used_default
    }

    /// The directory the commands run in: the staging copy of the app, not
    /// the original source.
    pub fn cwd(&self) -> (r: AppPath)
        ensures
            r.absolute == self.staging_root_spec().absolute,
            r.parts_view() == self.staging_root_spec().parts_view().push(self.identity_spec().id@),
    {
        tmp_app_path(&self.inner.staging_root, self.inner.identity.id.as_str())
    }

    /// The command the caller must run next, or nothing when every command
    /// has run or one has failed.
    pub fn next_command(&self) -> (r: Option<&String>)
        ensures
            match r {
                Some(cmd) => self.run_state().current_spec() == Some(cmd@),
                None => self.run_state().current_spec() is None,
            },
    {
        self.run.next_command()
    }

    /// Records what the shell reported for the current command. A failure
    /// is fatal to the build: no later command will be offered, and the
    /// error names the command and how it ended.
    pub fn command_finished(&mut self, outcome: CommandOutcome) -> (r: Result<(), PipelineError>)
        requires
            old(self).run_state().current_spec() is Some,
        ensures
            final(self).source_path_spec() == old(self).source_path_spec(),
            final(self).identity_spec() == old(self).identity_spec(),
            final(self).staging_root_spec() == old(self).staging_root_spec(),
            final(self).config_spec() == old(self).config_spec(),
            final(self).used_default_spec() == old(self).used_default_spec(),
            final(self).run_state().cmds_view() == old(self).run_state().cmds_view(),
            outcome.is_success_spec() ==> r is Ok && !final(self).run_state().has_failed()
                && final(self).run_state().position() == old(self).run_state().position() + 1,
            !outcome.is_success_spec() ==> final(self).run_state().has_failed() && (r matches Err(
                PipelineError::Command(e),
            ) && reports_spec(
                e,
                old(self).run_state().cmds_view()[old(self).run_state().position()],
                outcome,
            )),
    {
        match self.run.record(outcome) {
            Ok(()) => Ok(()),
            Err(e) => Err(PipelineError::Command(e)),
        }
    }

    pub fn commands_succeeded(&self) -> (r: bool)
        ensures
            r == self.run_state().succeeded(),
    {
        self.run.next_command().is_none() && !self.run.has_failed_exec()
    }

    /// Closes the build stage once every command has succeeded.
    pub fn finish(self) -> (r: BuiltApp)
        requires
            self.run_state().succeeded(),
        ensures
            r.source_path_spec() == self.source_path_spec(),
            r.identity_spec() == self.identity_spec(),
            r.staging_root_spec() == self.staging_root_spec(),
            r.config_spec() == self.config_spec(),
    {
        BuiltApp::new(self.inner, self.config)
    }
}

/// The clone, built and ready to package.
pub struct BuiltApp {
    app: App,
    identity: AppIdentity,
    config: AppConfig,
    staging_root: AppPath,
}

impl BuiltApp {
    pub closed spec fn source_path_spec(&self) -> AppPath {
        self.app.source_path
    }

    pub closed spec fn identity_spec(&self) -> AppIdentity {
        self.identity
    }

    pub closed spec fn staging_root_spec(&self) -> AppPath {
        self.staging_root
    }

    pub closed spec fn config_spec(&self) -> AppConfig {
        self.config
    }

    pub fn new(with_deps: AppWithDependencies, config: AppConfig) -> (r: Self)
        ensures
            r.source_path_spec() == with_deps.source_path_spec(),
            r.identity_spec() == with_deps.identity_spec(),
            r.staging_root_spec() == with_deps.staging_root_spec(),
            r.config_spec() == config,
    {
        BuiltApp {
            app: with_deps.app,
            identity: with_deps.identity,
            config,
            staging_root: with_deps.staging_root,
        }
    }

    /// Where the artifacts go: `build/artifacts` under the original source
    /// path, never under the clone.
    pub fn artifacts_path(&self) -> (r: AppPath)
        ensures
            r.absolute == self.source_path_spec().absolute,
            r.parts_view() == self.source_path_spec().parts_view().push("build"@).push(
                "artifacts"@,
            ),
    {
        self.app.source_path.join("build").join("artifacts")
    }

    /// The archive file's own path: `<id>.tar.gz` in the artifacts
    /// directory.
    pub fn archive_file_path(&self) -> (r: AppPath)
        ensures
            r.absolute == self.source_path_spec().absolute,
            r.parts_view() == self.source_path_spec().parts_view().push("build"@).push(
                "artifacts"@,
            ).push(self.identity_spec().id@ + ".tar.gz"@),
    {
        let name = crate::paths::clone_string(&self.identity.id).concat(".tar.gz");
        self.artifacts_path().join(name.as_str())
    }

    /// The clone's app directory, whose tree is packaged.
    pub fn app_dir(&self) -> (r: AppPath)
        ensures
            r.absolute == self.staging_root_spec().absolute,
            r.parts_view() == self.staging_root_spec().parts_view().push(self.identity_spec().id@),
    {
        tmp_app_path(&self.staging_root, self.identity.id.as_str())
    }

    /// The exclude matcher the config declares. Compiling succeeds exactly
    /// when every configured pattern parses and the combined set compiles.
    pub fn compile_excludes(&self) -> (r: Result<ExcludedFiles, PipelineError>)
        ensures
            r is Ok <==> (forall|i: int|
                0 <= i < self.config_spec().package_spec().exclude_view().len()
                    ==> crate::packaging::exclude::glob_accepts(
                    #[trigger] self.config_spec().package_spec().exclude_view()[i],
                )) && crate::packaging::exclude::set_compiles(
                self.config_spec().package_spec().exclude_view(),
            ),
            r matches Ok(ex) ==> ex.patterns() == self.config_spec().package_spec().exclude_view(),
            r matches Err(e) ==> e matches PipelineError::Excludes(_),
    {
        match ExcludedFiles::new(self.config.package().exclude()) {
            Ok(ex) => Ok(ex),
            Err(e) => Err(PipelineError::Excludes(e)),
        }
    }

    /// Terminal transition: the compressed archive. The caller has cleared
    /// the artifacts directory and walked the clone; this selects the
    /// files, builds the tar archive with every entry under a top-level
    /// directory named by the app's id, and compresses it. The returned
    /// bytes are the archive; writing them to the archive file is the
    /// caller's I/O. The id and the walked paths carry well-formed
    /// components, as a manifest and a filesystem walk yield them; with
    /// the directory cleared and every selected file readable, packaging
    /// succeeds.
    pub fn into_archive(
        self,
        excludes: &ExcludedFiles,
        cleared: Result<(), String>,
        entries: Vec<FsEntry>,
    ) -> (r: Result<(AppArchive, Vec<u8>), PipelineError>)
        requires
            excludes.patterns() == self.config_spec().package_spec().exclude_view(),
            wf_component(self.identity_spec().id@),
            forall|i: int|
                0 <= i < entries@.len() ==> wf_parts(
                    (#[trigger] entries@[i]).path.parts.deep_view(),
                ),
        ensures
            cleared matches Err(m) ==> (r matches Err(PipelineError::Io { message }) && message@
                == m@),
            cleared is Ok ==> !(r matches Err(PipelineError::Io { .. })),
            r matches Ok((a, bytes)) ==> cleared is Ok && ({
                let app_abs = self.staging_root_spec().absolute;
                let app_parts = self.staging_root_spec().parts_view().push(
                    self.identity_spec().id@,
                );
                let files = selected_files_spec(
                    excludes.patterns(),
                    app_abs,
                    app_parts,
                    entries@,
                );
                bytes@ == gzip_of(
                    tar_bytes(
                        archive_entries_spec(self.identity_spec().id@, app_abs, app_parts, files),
                    ),
                ) && !has_failed_read(app_abs, app_parts, files)
            }),
            r matches Err(PipelineError::Archive(ArchiveError::FileRead { .. })) ==> ({
                let app_abs = self.staging_root_spec().absolute;
                let app_parts = self.staging_root_spec().parts_view().push(
                    self.identity_spec().id@,
                );
                has_failed_read(
                    app_abs,
                    app_parts,
                    selected_files_spec(excludes.patterns(), app_abs, app_parts, entries@),
                )
            }),
            (cleared is Ok && !({
                let app_abs = self.staging_root_spec().absolute;
                let app_parts = self.staging_root_spec().parts_view().push(
                    self.identity_spec().id@,
                );
                has_failed_read(
                    app_abs,
                    app_parts,
                    selected_files_spec(excludes.patterns(), app_abs, app_parts, entries@),
                )
            })) ==> r is Ok,
    {
        match cleared {
            Err(message) => {
                return Err(PipelineError::Io { message });
            },
            Ok(()) => {},
        }
        let app_dir = self.app_dir();
        let ghost all_entries = entries@;
        let files = build_file_list(entries, excludes, &app_dir);
        proof {
            assert forall|k: int| 0 <= k < files@.len() implies wf_parts(
                (#[trigger] files@[k]).path.parts.deep_view(),
            ) by {
                lemma_selected_files_from_entries(
                    excludes.patterns(),
                    app_dir.absolute,
                    app_dir.parts_view(),
                    all_entries,
                    k,
                );
                let i = choose|i: int|
                    0 <= i < all_entries.len() && files@[k] == #[trigger] all_entries[i];
                assert(wf_parts(all_entries[i].path.parts.deep_view()));
            }
        }
        match build_app_archive(self.identity.id.as_str(), &app_dir, &files) {
            Ok(tar) => match gzip(&tar) {
                Ok(bytes) => Ok((AppArchive::new(self), bytes)),
                Err(message) => Err(
                    PipelineError::Archive(ArchiveError::Finish { message }),
                ),
            },
            Err(e) => Err(PipelineError::Archive(e)),
        }
    }

    /// Alternate terminal transition: a plain directory instead of an
    /// archive. Returns the copy plan: every selected regular file of the
    /// clone, with its destination under `build/artifacts/<id>/`,
    /// preserving the relative directory structure. Performing the copies,
    /// creating parent directories as needed, is the caller's I/O.
    pub fn into_shipped(
        self,
        excludes: &ExcludedFiles,
        cleared: Result<(), String>,
        entries: Vec<FsEntry>,
    ) -> (r: Result<(ShippedApp, Vec<CopyPlanItem>), PipelineError>)
        requires
            excludes.patterns() == self.config_spec().package_spec().exclude_view(),
        ensures
            cleared matches Err(m) ==> (r matches Err(PipelineError::Io { message }) && message@
                == m@),
            cleared is Ok ==> r is Ok,
            r matches Ok((s, plan)) ==> cleared is Ok && ({
                let app_abs = self.staging_root_spec().absolute;
                let app_parts = self.staging_root_spec().parts_view().push(
                    self.identity_spec().id@,
                );
                let ship = ship_entries_spec(
                    app_abs,
                    app_parts,
                    selected_files_spec(excludes.patterns(), app_abs, app_parts, entries@),
                );
                plan@.len() == ship.len() && (forall|k: int|
                    0 <= k < ship.len() ==> (#[trigger] plan@[k]).src == ship[k].0
                        && plan@[k].dst.absolute == self.source_path_spec().absolute
                        && plan@[k].dst.parts_view() == self.source_path_spec().parts_view()
                        + seq!["build"@, "artifacts"@, self.identity_spec().id@] + ship[k].1)
            }),
    {
        match cleared {
            Err(message) => {
                return Err(PipelineError::Io { message });
            },
            Ok(()) => {},
        }
        let app_dir = self.app_dir();
        let ship_path = self.artifacts_path().join(self.identity.id.as_str());
        let files = build_file_list(entries, excludes, &app_dir);
        let ghost orig = files@;
        let ghost app_abs = app_dir.absolute;
        let ghost app_parts = app_dir.parts_view();
        let mut pending = files;
        let mut plan: Vec<CopyPlanItem> = Vec::new();
        let ghost mut done: int = 0;
        while pending.len() > 0
            invariant
                0 <= done <= orig.len(),
                pending@ == orig.skip(done),
                app_abs == app_dir.absolute,
                app_parts == app_dir.parts_view(),
                ({
                    let ship = ship_entries_spec(app_abs, app_parts, orig.take(done));
                    plan@.len() == ship.len() && (forall|k: int|
                        0 <= k < ship.len() ==> (#[trigger] plan@[k]).src == ship[k].0 && plan@[k]
                            .dst.absolute == ship_path.absolute && plan@[k].dst.parts_view()
                            == ship_path.parts_view() + ship[k].1)
                }),
            decreases pending@.len(),
        {
            let e = pending.remove(0);
            proof {
                assert(e == orig[done]);
                assert(pending@ =~= orig.skip(done + 1));
                assert(orig.take(done + 1).drop_last() =~= orig.take(done));
                assert(orig.take(done + 1).last() == orig[done]);
            }
            if !e.is_dir {
                match e.path.relative_to(&app_dir) {
                    Some(rel) => {
                        let dst = join_all(&ship_path, &rel);
                        plan.push(CopyPlanItem { src: e.path, dst });
                        proof {
                            let ship_old = ship_entries_spec(app_abs, app_parts, orig.take(done));
                            let ship_new = ship_entries_spec(
                                app_abs,
                                app_parts,
                                orig.take(done + 1),
                            );
                            assert(ship_new == ship_old.push((orig[done].path, rel.deep_view())));
                        }
                    },
                    None => {},
                }
            }
            proof {
                done = done + 1;
            }
        }
        proof {
            assert(orig.take(orig.len() as int) =~= orig);
            assert(ship_path.parts_view() =~= self.source_path_spec().parts_view() + seq![
                "build"@,
                "artifacts"@,
                self.identity_spec().id@,
            ]);
        }
        Ok((ShippedApp::new(self), plan))
    }
}

/// One copy the shipped directory needs: a file of the staging clone and
/// its destination under the artifacts directory.
pub struct CopyPlanItem {
    pub src: AppPath,
    pub dst: AppPath,
}

/// Terminal stage: the compressed archive was produced.
pub struct AppArchive {}

impl AppArchive {
    pub fn new(_app: BuiltApp) -> Self {
        AppArchive {  }
    }
}

/// Terminal stage: the shipped directory was produced.
pub struct ShippedApp {}

impl ShippedApp {
    pub fn new(_app: BuiltApp) -> Self {
        ShippedApp {  }
    }
}

/// Law: everything the selection keeps was selected.
pub proof fn lemma_selected_files_selected(
    patterns: Seq<Seq<char>>,
    base_abs: bool,
    base_parts: Seq<Seq<char>>,
    entries: Seq<FsEntry>,
    k: int,
)
    requires
        0 <= k < selected_files_spec(patterns, base_abs, base_parts, entries).len(),
    ensures
        entry_selected(
            patterns,
            base_abs,
            base_parts,
            selected_files_spec(patterns, base_abs, base_parts, entries)[k],
        ),
    decreases entries.len(),
{
    if entries.len() > 0 {
        let rest = selected_files_spec(patterns, base_abs, base_parts, entries.drop_last());
        if k < rest.len() {
            lemma_selected_files_selected(patterns, base_abs, base_parts, entries.drop_last(), k);
        }
    }
}

/// Law: everything the selection keeps is an entry of the walked list.
pub proof fn lemma_selected_files_from_entries(
    patterns: Seq<Seq<char>>,
    base_abs: bool,
    base_parts: Seq<Seq<char>>,
    entries: Seq<FsEntry>,
    k: int,
)
    requires
        0 <= k < selected_files_spec(patterns, base_abs, base_parts, entries).len(),
    ensures
        exists|i: int|
            0 <= i < entries.len() && selected_files_spec(patterns, base_abs, base_parts, entries)[
                k
            ] == #[trigger] entries[i],
    decreases entries.len(),
{
    let selected = selected_files_spec(patterns, base_abs, base_parts, entries);
    let rest = selected_files_spec(patterns, base_abs, base_parts, entries.drop_last());
    if k < rest.len() {
        lemma_selected_files_from_entries(patterns, base_abs, base_parts, entries.drop_last(), k);
        let i = choose|i: int|
            0 <= i < entries.drop_last().len() && rest[k] == #[trigger] entries.drop_last()[i];
        assert(selected[k] == entries[i]);
    } else {
        assert(selected[k] == entries[entries.len() - 1]);
    }
}

/// Law: every file of the shipped plan comes from the file list: a regular
/// file under the app directory, shipped at its own relative components.
pub proof fn lemma_ship_entry_source(
    app_abs: bool,
    app_parts: Seq<Seq<char>>,
    files: Seq<FsEntry>,
    k: int,
)
    requires
        0 <= k < ship_entries_spec(app_abs, app_parts, files).len(),
    ensures
        exists|i: int|
            0 <= i < files.len() && !(#[trigger] files[i]).is_dir && ship_entries_spec(
                app_abs,
                app_parts,
                files,
            )[k].0 == files[i].path && Some(ship_entries_spec(app_abs, app_parts, files)[k].1)
                == rel_parts_spec(files[i].path, app_abs, app_parts),
    decreases files.len(),
{
    let ship = ship_entries_spec(app_abs, app_parts, files);
    let rest = ship_entries_spec(app_abs, app_parts, files.drop_last());
    if k < rest.len() {
        lemma_ship_entry_source(app_abs, app_parts, files.drop_last(), k);
        let i = choose|i: int|
            0 <= i < files.drop_last().len() && !(#[trigger] files.drop_last()[i]).is_dir
                && rest[k].0 == files.drop_last()[i].path && Some(rest[k].1) == rel_parts_spec(
                files.drop_last()[i].path,
                app_abs,
                app_parts,
            );
        assert(files[i] == files.drop_last()[i]);
        assert(!files[i].is_dir && ship[k].0 == files[i].path && Some(ship[k].1) == rel_parts_spec(
            files[i].path,
            app_abs,
            app_parts,
        ));
    } else {
        let i = files.len() - 1;
        assert(!files[i].is_dir && ship[k].0 == files[i].path && Some(ship[k].1) == rel_parts_spec(
            files[i].path,
            app_abs,
            app_parts,
        ));
    }
}

/// Law: every entry of an archive built from the selected files is named
/// by relative components that the exclude patterns do not match and that
/// hold no version-control bookkeeping — in particular, nothing under
/// `.git` is ever archived.
pub proof fn lemma_archive_respects_selection(
    root: Seq<char>,
    patterns: Seq<Seq<char>>,
    app_abs: bool,
    app_parts: Seq<Seq<char>>,
    entries: Seq<FsEntry>,
    k: int,
)
    requires
        0 <= k < archive_entries_spec(
            root,
            app_abs,
            app_parts,
            selected_files_spec(patterns, app_abs, app_parts, entries),
        ).len(),
    ensures
        exists|rel: Seq<Seq<char>>|
            archive_entries_spec(
                root,
                app_abs,
                app_parts,
                selected_files_spec(patterns, app_abs, app_parts, entries),
            )[k].0 == entry_name_spec(root, rel) && #[trigger]
                no_vcs_components(rel) && !glob_set_match(patterns, joined_spec(rel)),
{
    let files = selected_files_spec(patterns, app_abs, app_parts, entries);
    lemma_archive_entry_source(root, app_abs, app_parts, files, k);
    let i = choose|i: int|
        0 <= i < files.len() && entry_included(app_abs, app_parts, #[trigger] files[i]) && (
        rel_parts_spec(files[i].path, app_abs, app_parts) matches Some(rel) && (files[i].contents
            matches Ok(bytes) && archive_entries_spec(root, app_abs, app_parts, files)[k] == (
        entry_name_spec(root, rel), bytes@)));
    lemma_selected_files_selected(patterns, app_abs, app_parts, entries, i);
    let rel = rel_parts_spec(files[i].path, app_abs, app_parts)->Some_0;
    assert(no_vcs_components(rel));
    assert(!is_excluded_spec(patterns, files[i].path, app_abs, app_parts));
    assert(!glob_set_match(patterns, joined_spec(rel)));
}

/// Law: a file the exclude patterns match never appears in the shipped
/// plan.
pub proof fn lemma_excluded_never_shipped(
    patterns: Seq<Seq<char>>,
    app_abs: bool,
    app_parts: Seq<Seq<char>>,
    entries: Seq<FsEntry>,
    k: int,
)
    requires
        0 <= k < ship_entries_spec(
            app_abs,
            app_parts,
            selected_files_spec(patterns, app_abs, app_parts, entries),
        ).len(),
    ensures
        !is_excluded_spec(
            patterns,
            ship_entries_spec(
                app_abs,
                app_parts,
                selected_files_spec(patterns, app_abs, app_parts, entries),
            )[k].0,
            app_abs,
            app_parts,
        ),
{
    let files = selected_files_spec(patterns, app_abs, app_parts, entries);
    lemma_ship_entry_source(app_abs, app_parts, files, k);
    let i = choose|i: int|
        0 <= i < files.len() && !(#[trigger] files[i]).is_dir && ship_entries_spec(
            app_abs,
            app_parts,
            files,
        )[k].0 == files[i].path && Some(ship_entries_spec(app_abs, app_parts, files)[k].1)
            == rel_parts_spec(files[i].path, app_abs, app_parts);
    lemma_selected_files_selected(patterns, app_abs, app_parts, entries, i);
}

} // verus!
