use krankerl::packaging::exclude::{ExcludeBuildError, ExcludedFiles};
use krankerl::paths::AppPath;

fn ap(parts: &[&str]) -> AppPath {
    AppPath::from_parts(false, parts.iter().map(|s| s.to_string()).collect())
}

#[test]
fn test_build_glob() {
    let rules = vec![".git".to_string()];

    let excludes = ExcludedFiles::new(&rules);

    assert!(excludes.is_ok());
}

#[test]
fn test_path_separator() {
    let rules = vec!["js/*.js".to_string()];

    let excludes = ExcludedFiles::new(&rules).unwrap();

    assert!(!excludes.is_excluded(
        &ap(&["build", "artefacts", "app", "js", "build", "build.js"]),
        &ap(&["build", "artefacts", "app"])
    ));
    assert!(excludes.is_excluded(
        &ap(&["build", "artefacts", "app", "js", "init.js"]),
        &ap(&["build", "artefacts", "app"])
    ));
}

#[test]
fn unrelated_path_is_not_excluded() {
    let rules = vec!["*".to_string()];
    let excludes = ExcludedFiles::new(&rules).unwrap();

    // the path cannot be expressed relative to the base: never excluded
    assert!(!excludes.is_excluded(&ap(&["elsewhere", "file.txt"]), &ap(&["app"])));
    // an absolute path is not relative to a relative base either
    let absolute = AppPath::from_parts(true, vec!["tmp".to_string(), "file.txt".to_string()]);
    assert!(!excludes.is_excluded(&absolute, &ap(&["tmp"])));
    // while a path under the base is matched
    assert!(excludes.is_excluded(&ap(&["app", "file.txt"]), &ap(&["app"])));
}

#[test]
fn bad_pattern_is_named() {
    let rules = vec!["ok".to_string(), "a{b".to_string()];

    match ExcludedFiles::new(&rules) {
        Err(ExcludeBuildError::BadPattern { pattern }) => {
            assert_eq!(pattern, "a{b");
        }
        _ => panic!("expected the unclosed alternate to be refused"),
    }
}

#[test]
fn exclusion_matches_whole_relative_path() {
    let rules = vec!["package.json".to_string()];
    let excludes = ExcludedFiles::new(&rules).unwrap();

    assert!(excludes.is_excluded(&ap(&["app", "package.json"]), &ap(&["app"])));
    // the glob names the root-level file only, not one nested deeper
    assert!(!excludes.is_excluded(&ap(&["app", "js", "package.json"]), &ap(&["app"])));
}
