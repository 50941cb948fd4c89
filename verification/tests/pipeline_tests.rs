use std::path::{Path, PathBuf};

use krankerl::packaging::artifacts::{clear, DeleteOutcome};
use krankerl::packaging::pipeline::{App, AppIdentity, CloneEvent, ConfigEvent};
use krankerl::packaging::archive::FsEntry;
use krankerl::config::app::{RawAppConfig, RawPackageConfig};
use krankerl::paths::AppPath;
use tempdir::TempDir;

const APP_ID: &'static str = "recommendations";

const INFO_XML: &'static str = "<?xml version=\"1.0\"?>\n<info>\n  <id>recommendations</id>\n  <version>1.0.0</version>\n</info>\n";

fn app_path_of(p: &Path) -> AppPath {
    let mut parts = Vec::new();
    let mut absolute = false;
    for c in p.components() {
        match c {
            std::path::Component::RootDir => absolute = true,
            std::path::Component::Normal(os) => parts.push(os.to_str().unwrap().to_string()),
            _ => {}
        }
    }
    AppPath::from_parts(absolute, parts)
}

fn os_path_of(p: &AppPath) -> PathBuf {
    let mut buf = if p.absolute { PathBuf::from("/") } else { PathBuf::new() };
    for part in p.parts.iter() {
        buf.push(part);
    }
    buf
}

/// Writes one file, parents included, by unpacking a one-entry tar.
fn write_file(dir: &Path, name: &str, bytes: &[u8]) {
    let mut builder = tar::Builder::new(Vec::new());
    let mut header = tar::Header::new_gnu();
    header.set_mode(0o644);
    header.set_size(bytes.len() as u64);
    builder.append_data(&mut header, name, bytes).unwrap();
    let data = builder.into_inner().unwrap();
    tar::Archive::new(std::io::Cursor::new(data)).unpack(dir).unwrap();
}

/// A minimal app fixture: a manifest, a dependency manifest, some
/// JavaScript, and version-control bookkeeping.
fn create_test_app_dir() -> TempDir {
    let tmp = TempDir::new("krankerl-test").unwrap();
    write_file(tmp.path(), "recommendations/appinfo/info.xml", INFO_XML.as_bytes());
    write_file(tmp.path(), "recommendations/package.json", b"{}\n");
    write_file(tmp.path(), "recommendations/js/init.js", b"init();\n");
    write_file(tmp.path(), "recommendations/.git/config", b"[core]\n");
    tmp
}

fn get_test_app_path(temp_path: &Path) -> PathBuf {
    temp_path.join(APP_ID)
}

fn identity() -> AppIdentity {
    AppIdentity { id: APP_ID.to_string(), version: "1.0.0".to_string() }
}

/// Clones the app directory under a fresh staging root and reports it.
fn clone_into_staging(app_src: &Path, staging: &TempDir) -> CloneEvent {
    let mut opts = fs_extra::dir::CopyOptions::new();
    opts.copy_inside = false;
    match fs_extra::dir::copy(app_src, staging.path(), &opts) {
        Ok(_) => CloneEvent::Cloned {
            identity: identity(),
            staging_root: app_path_of(staging.path()),
        },
        Err(e) => CloneEvent::CloneFailed { identity: identity(), message: format!("{}", e) },
    }
}

fn walk_entries(root: &Path) -> Vec<FsEntry> {
    let mut v = Vec::new();
    let mut builder = ignore::WalkBuilder::new(root);
    builder.standard_filters(false);
    builder.add_custom_ignore_filename(".nextcloudignore");
    for result in builder.build() {
        let entry = result.unwrap();
        let is_dir = entry.file_type().map(|t| t.is_dir()).unwrap_or(false);
        let contents = if is_dir {
            Ok(Vec::new())
        } else {
            fs_extra::file::read_to_string(entry.path())
                .map(|s| s.into_bytes())
                .map_err(|e| format!("{}", e))
        };
        v.push(FsEntry { path: app_path_of(entry.path()), is_dir, contents });
    }
    v
}

fn clear_dir(p: &AppPath) -> Result<(), String> {
    let os = os_path_of(p);
    let delete = if os.exists() {
        match fs_extra::dir::remove(&os) {
            Ok(()) => DeleteOutcome::Removed,
            Err(e) => DeleteOutcome::Failed { message: format!("{}", e) },
        }
    } else {
        DeleteOutcome::NotFound
    };
    let create = fs_extra::dir::create_all(&os, false).map_err(|e| format!("{}", e));
    clear(delete, create)
}

fn archive_names(bytes: &[u8]) -> Vec<String> {
    let dec = flate2::read::GzDecoder::new(std::io::Cursor::new(bytes));
    let mut ar = tar::Archive::new(dec);
    ar.entries()
        .unwrap()
        .map(|e| e.unwrap().path().unwrap().to_str().unwrap().to_string())
        .collect()
}

#[test]
fn create_app() {
    let dir = create_test_app_dir();
    let app = App::new(app_path_of(&get_test_app_path(dir.path())));

    assert!(os_path_of(app.source_path()).exists());
}

#[test]
fn clones_app() {
    let dir = create_test_app_dir();
    let app_src = get_test_app_path(dir.path());
    let app = App::new(app_path_of(&app_src));
    assert!(get_test_app_path(dir.path()).exists());

    let staging = TempDir::new("krankerl").unwrap();
    let clone = app.clone(clone_into_staging(&app_src, &staging)).unwrap();

    assert!(staging.path().exists());
    let mut cloned_app_dir = staging.path().to_path_buf();
    cloned_app_dir.push(APP_ID);
    assert!(cloned_app_dir.exists());
    assert!(os_path_of(&clone.app_dir()).exists());
}

#[test]
fn install_app_dependencies() {
    let dir = create_test_app_dir();
    let app_src = get_test_app_path(dir.path());
    let app = App::new(app_path_of(&app_src));
    let staging = TempDir::new("krankerl").unwrap();
    let clone = app.clone(clone_into_staging(&app_src, &staging)).unwrap();

    clone.install_dependencies().unwrap();
}

#[test]
fn build_app() {
    let dir = create_test_app_dir();
    let app_src = get_test_app_path(dir.path());
    let app = App::new(app_path_of(&app_src));
    let staging = TempDir::new("krankerl").unwrap();
    let clone = app.clone(clone_into_staging(&app_src, &staging)).unwrap();
    let installed = clone.install_dependencies().unwrap();

    let build = installed.build(ConfigEvent::Missing).unwrap();
    assert!(build.used_default_config());
    assert!(build.next_command().is_none());
}

#[test]
fn create_app_archive() {
    let dir = create_test_app_dir();
    let app_src = get_test_app_path(dir.path());
    let app = App::new(app_path_of(&app_src));
    let staging = TempDir::new("krankerl").unwrap();
    let clone = app.clone(clone_into_staging(&app_src, &staging)).unwrap();
    let installed = clone.install_dependencies().unwrap();
    let build = installed.build(ConfigEvent::Missing).unwrap();
    assert!(build.next_command().is_none());
    let built = build.finish();

    let excludes = built.compile_excludes().unwrap();
    let artifacts_path = built.artifacts_path();
    let archive_file = built.archive_file_path();
    let cleared = clear_dir(&artifacts_path);
    let entries = walk_entries(&os_path_of(&built.app_dir()));
    let (_archive, bytes) = built.into_archive(&excludes, cleared, entries).unwrap();
    write_file(
        &os_path_of(&artifacts_path),
        &format!("{}.tar.gz", APP_ID),
        &bytes,
    );

    let mut final_path = get_test_app_path(dir.path());
    final_path.push("build");
    assert!(final_path.exists(), "build directory does not exist");
    final_path.push("artifacts");
    assert!(final_path.exists(), "artifacts directory does not exist");
    final_path.push(format!("{}.tar.gz", APP_ID));
    assert!(final_path.exists(), "app archive does not exist");
    assert_eq!(final_path, os_path_of(&archive_file));

    let names = archive_names(&bytes);
    assert!(names.contains(&"recommendations/appinfo/info.xml".to_string()));
    assert!(
        names.iter().all(|n| !n.contains(".git")),
        "version-control files must not be archived"
    );
    assert!(names.iter().all(|n| n.starts_with("recommendations/")));
}

#[test]
fn create_shipped_app_directory() {
    let dir = create_test_app_dir();
    let app_src = get_test_app_path(dir.path());
    let app = App::new(app_path_of(&app_src));
    let staging = TempDir::new("krankerl").unwrap();
    let clone = app.clone(clone_into_staging(&app_src, &staging)).unwrap();
    let installed = clone.install_dependencies().unwrap();
    let raw = RawAppConfig {
        package: Some(RawPackageConfig {
            before_cmds: None,
            exclude: Some(vec!["package.json".to_string()]),
        }),
    };
    let build = installed.build(ConfigEvent::Loaded(raw)).unwrap();
    assert!(build.next_command().is_none());
    let built = build.finish();

    let excludes = built.compile_excludes().unwrap();
    let artifacts_path = built.artifacts_path();
    let cleared = clear_dir(&artifacts_path);
    let entries = walk_entries(&os_path_of(&built.app_dir()));
    let (_shipped, plan) = built.into_shipped(&excludes, cleared, entries).unwrap();
    for item in plan.iter() {
        let src = os_path_of(&item.src);
        let dst = os_path_of(&item.dst);
        if let Some(parent) = dst.parent() {
            fs_extra::dir::create_all(parent, false).unwrap();
        }
        fs_extra::file::copy(&src, &dst, &fs_extra::file::CopyOptions::new()).unwrap();
    }

    let mut app_info_path = dir.path().to_path_buf();
    app_info_path.push(APP_ID);
    app_info_path.push("build");
    app_info_path.push("artifacts");
    app_info_path.push(APP_ID);
    app_info_path.push("appinfo");
    app_info_path.push("info.xml");
    assert!(app_info_path.exists(), "info.xml is missing");
    let mut package_json_path = dir.path().to_path_buf();
    package_json_path.push(APP_ID);
    package_json_path.push("build");
    package_json_path.push("artifacts");
    package_json_path.push(APP_ID);
    package_json_path.push("package.json");
    assert!(
        !package_json_path.exists(),
        "package.json should not be copied"
    );
}

#[test]
fn clone_failure_aborts_pipeline() {
    let dir = create_test_app_dir();
    let app = App::new(app_path_of(&get_test_app_path(dir.path())));

    let result = app.clone(CloneEvent::CloneFailed {
        identity: identity(),
        message: "no repository".to_string(),
    });
    assert!(matches!(
        result,
        Err(krankerl::packaging::pipeline::PipelineError::CloneFailed { .. })
    ));
}

#[test]
fn missing_manifest_aborts_pipeline() {
    let dir = create_test_app_dir();
    let app = App::new(app_path_of(&get_test_app_path(dir.path())));

    let result = app.clone(CloneEvent::InfoFailed { message: "no info.xml".to_string() });
    assert!(matches!(
        result,
        Err(krankerl::packaging::pipeline::PipelineError::AppInfo { .. })
    ));
}

#[test]
fn malformed_config_aborts_build() {
    let dir = create_test_app_dir();
    let app_src = get_test_app_path(dir.path());
    let app = App::new(app_path_of(&app_src));
    let staging = TempDir::new("krankerl").unwrap();
    let clone = app.clone(clone_into_staging(&app_src, &staging)).unwrap();
    let installed = clone.install_dependencies().unwrap();

    let result = installed.build(ConfigEvent::Failed { message: "bad toml".to_string() });
    assert!(matches!(
        result,
        Err(krankerl::packaging::pipeline::PipelineError::ConfigParse { .. })
    ));
}

#[test]
fn failed_clear_aborts_packaging() {
    let dir = create_test_app_dir();
    let app_src = get_test_app_path(dir.path());
    let app = App::new(app_path_of(&app_src));
    let staging = TempDir::new("krankerl").unwrap();
    let clone = app.clone(clone_into_staging(&app_src, &staging)).unwrap();
    let installed = clone.install_dependencies().unwrap();
    let build = installed.build(ConfigEvent::Missing).unwrap();
    let built = build.finish();

    let excludes = built.compile_excludes().unwrap();
    let entries = walk_entries(&os_path_of(&built.app_dir()));
    let result = built.into_archive(&excludes, Err("disk full".to_string()), entries);

    match result {
        Err(krankerl::packaging::pipeline::PipelineError::Io { message }) => {
            assert_eq!(message, "disk full");
        }
        _ => panic!("expected the clear failure to abort packaging"),
    }
}
