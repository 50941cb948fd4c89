use std::path::{Path, PathBuf};

use krankerl::commands::version::VersionChange;
use krankerl::config::reader::ConfigFileReader;
use krankerl::error::KrankerlError;
use krankerl::models::{App, Author, NewRelease};
use krankerl::occ::Occ;
use krankerl::packaging::artifacts::{clear, DeleteOutcome};
use krankerl::paths::{join_components, tmp_app_path, AppPath};
use krankerl::sign::error::SignError;
use tempdir::TempDir;

fn ap(parts: &[&str]) -> AppPath {
    AppPath::from_parts(false, parts.iter().map(|s| s.to_string()).collect())
}

fn os_path_of(p: &AppPath) -> PathBuf {
    let mut buf = if p.absolute { PathBuf::from("/") } else { PathBuf::new() };
    for part in p.parts.iter() {
        buf.push(part);
    }
    buf
}

fn clear_dir(os: &Path) -> Result<(), String> {
    let delete = if os.exists() {
        match fs_extra::dir::remove(os) {
            Ok(()) => DeleteOutcome::Removed,
            Err(e) => DeleteOutcome::Failed { message: format!("{}", e) },
        }
    } else {
        DeleteOutcome::NotFound
    };
    let create = fs_extra::dir::create_all(os, false).map_err(|e| format!("{}", e));
    clear(delete, create)
}

#[test]
fn relative_to_strips_the_base() {
    let base = ap(&["srv", "app"]);
    let path = ap(&["srv", "app", "js", "init.js"]);

    let rel = path.relative_to(&base).unwrap();

    assert_eq!(rel, vec!["js".to_string(), "init.js".to_string()]);
}

#[test]
fn relative_to_fails_open_outside_the_base() {
    let base = ap(&["srv", "app"]);

    assert!(ap(&["srv", "other", "x"]).relative_to(&base).is_none());
    assert!(ap(&["srv"]).relative_to(&base).is_none());
    let absolute = AppPath::from_parts(true, vec!["srv".to_string(), "app".to_string()]);
    assert!(absolute.relative_to(&base).is_none());
}

#[test]
fn joined_components_use_single_separators() {
    let joined = join_components(&vec![
        "srv".to_string(),
        "app".to_string(),
        "info.xml".to_string(),
    ]);

    assert_eq!(joined, "srv/app/info.xml");
    assert_eq!(join_components(&Vec::new()), "");
    assert_eq!(join_components(&vec!["one".to_string()]), "one");
}

#[test]
fn tmp_app_path_nests_the_id_once() {
    let staging = ap(&["tmp", "staging"]);

    let nested = tmp_app_path(&staging, "recommendations");

    assert_eq!(
        nested.parts,
        vec!["tmp".to_string(), "staging".to_string(), "recommendations".to_string()]
    );
    assert!(!nested.absolute);
}

#[test]
fn clear_of_a_missing_directory_succeeds() {
    let outcome = clear(DeleteOutcome::NotFound, Ok(()));

    assert!(outcome.is_ok());
}

#[test]
fn clear_propagates_other_deletion_failures() {
    let outcome = clear(
        DeleteOutcome::Failed { message: "permission denied".to_string() },
        Ok(()),
    );

    assert_eq!(outcome, Err("permission denied".to_string()));
}

#[test]
fn clear_is_idempotent_on_the_filesystem() {
    let tmp = TempDir::new("krankerl-clear").unwrap();
    let target = tmp.path().join("artifacts");
    assert!(!target.exists());

    // clearing a directory that does not exist succeeds and creates it
    clear_dir(&target).unwrap();
    assert!(target.exists());
    assert!(target.read_dir().unwrap().next().is_none());

    // clearing it again also succeeds and leaves it empty
    clear_dir(&target).unwrap();
    assert!(target.exists());
    assert!(target.read_dir().unwrap().next().is_none());
}

#[test]
fn error_messages_name_the_cause() {
    let e = KrankerlError::InvalidToolchainName { name: "nightly-x".to_string() };
    assert_eq!(e.message(), "invalid toolchain name: nightly-x");

    let e = KrankerlError::Other { cause: "boom".to_string() };
    assert_eq!(e.message(), "unexpected error: boom");

    let e = SignError::Io { message: "gone".to_string() };
    assert_eq!(e.message(), "IO error: gone");
}

#[test]
fn occ_keeps_its_path() {
    let occ = Occ::new("../../occ".to_string());

    assert_eq!(occ.path(), "../../occ");
}

#[test]
fn models_hold_their_fields() {
    let app = App {
        id: "recommendations".to_string(),
        authors: vec![Author {
            name: "jane".to_string(),
            mail: "jane@cloud.example".to_string(),
            homepage: "".to_string(),
        }],
        categories: vec!["tools".to_string()],
        isFeatured: false,
    };
    assert_eq!(app.id, "recommendations");
    assert_eq!(app.authors[0].name, "jane");

    let release = NewRelease {
        download: "https://cloud.example/app.tar.gz".to_string(),
        signature: "sig".to_string(),
        nightly: true,
    };
    assert!(release.nightly);

    let path = os_path_of(&ap(&["a", "b"]));
    assert_eq!(path, PathBuf::from("a/b"));
}

#[test]
fn version_change_parses_bump_names() {
    assert!(matches!(VersionChange::from_name("major"), Some(VersionChange::Major)));
    assert!(matches!(VersionChange::from_name("minor"), Some(VersionChange::Minor)));
    assert!(matches!(VersionChange::from_name("patch"), Some(VersionChange::Patch)));
    assert!(VersionChange::from_name("huge").is_none());
    assert!(VersionChange::from_name("").is_none());
    assert!("patch".parse::<VersionChange>().is_ok());
    assert!("Major".parse::<VersionChange>().is_err());
}

#[test]
fn config_file_reader_keeps_its_path() {
    let reader = ConfigFileReader::new("apps/mail/krankerl.toml".to_string());

    assert_eq!(reader.path(), "apps/mail/krankerl.toml");
}
