use krankerl::packaging::archive::FsEntry;
use krankerl::paths::AppPath;
use krankerl::sign::error::SignError;
use krankerl::sign::hash::{hash_entries, hash_file, hash_file_contents, is_ignored, FileHash};
use krankerl::sign::{get_certificate, sign_app_manifest, sign_package};

const EMPTY_SHA512: &'static str = "cf83e1357eefb8bdf1542850d66d8007d620e4050b5715dc83f4a921d36ce9ce47d0d13c5d85f2b0ff8318d2877eec2f63b931bd47417a81a538327af927da3e";

fn ap(parts: &[&str]) -> AppPath {
    AppPath::from_parts(true, parts.iter().map(|s| s.to_string()).collect())
}

#[test]
fn sha512_of_empty_input_is_the_known_digest() {
    let digest = hash_file_contents(&Vec::new()).unwrap();

    assert_eq!(digest, EMPTY_SHA512);
}

#[test]
fn sha512_of_abc_is_the_known_digest() {
    let digest = hash_file_contents(&b"abc".to_vec()).unwrap();

    assert_eq!(
        digest,
        "ddaf35a193617abacc417349ae20413112e6fa4e89a97ea20a9eeee64b55d39a2192992a274fc1a836ba3c23a3feebbd454d4423643ce80e2a9ac94fa54ca49f"
    );
}

#[test]
fn hash_file_relativizes_with_leading_separator() {
    let fh: FileHash = hash_file(&ap(&["srv", "app"]), &ap(&["srv", "app", "appinfo", "info.xml"]), &Vec::new())
        .unwrap();

    assert_eq!(fh.file(), "/appinfo/info.xml");
    assert_eq!(fh.hash(), EMPTY_SHA512);
}

#[test]
fn hash_file_refuses_a_file_outside_the_root() {
    let r = hash_file(&ap(&["srv", "app"]), &ap(&["srv", "other", "x"]), &Vec::new());

    assert!(matches!(r, Err(SignError::Other { .. })));
}

#[test]
fn hidden_files_and_the_manifest_are_ignored() {
    assert!(is_ignored(&".git".to_string()));
    assert!(is_ignored(&".hidden".to_string()));
    assert!(is_ignored(&"signature.json".to_string()));
    assert!(!is_ignored(&".".to_string()));
    assert!(!is_ignored(&"info.xml".to_string()));
    assert!(!is_ignored(&"".to_string()));
}

#[test]
fn hash_entries_skips_hidden_and_manifest_files() {
    let root = ap(&["srv", "app"]);
    let entries = vec![
        FsEntry { path: ap(&["srv", "app"]), is_dir: true, contents: Ok(Vec::new()) },
        FsEntry { path: ap(&["srv", "app", "a.txt"]), is_dir: false, contents: Ok(b"a".to_vec()) },
        FsEntry {
            path: ap(&["srv", "app", ".hidden"]),
            is_dir: false,
            contents: Ok(b"h".to_vec()),
        },
        FsEntry {
            path: ap(&["srv", "app", "signature.json"]),
            is_dir: false,
            contents: Ok(b"{}".to_vec()),
        },
        FsEntry {
            path: ap(&["srv", "app", ".git", "config"]),
            is_dir: false,
            contents: Ok(b"[core]".to_vec()),
        },
    ];

    let hashes = hash_entries(&root, entries).unwrap();

    assert_eq!(hashes.len(), 1);
    assert_eq!(hashes[0].file(), "/a.txt");
}

#[test]
fn hash_entries_reports_an_unreadable_file() {
    let root = ap(&["srv", "app"]);
    let entries = vec![FsEntry {
        path: ap(&["srv", "app", "a.txt"]),
        is_dir: false,
        contents: Err("gone".to_string()),
    }];

    let r = hash_entries(&root, entries);

    assert!(matches!(r, Err(SignError::Io { .. })));
}

#[test]
fn certificate_is_empty() {
    assert_eq!(get_certificate(&"key".to_string()).unwrap(), "");
}

#[test]
fn signing_with_a_bad_key_fails() {
    let r = sign_package("not a pem key", &b"package".to_vec());

    assert!(matches!(r, Err(SignError::Ssl { .. })));
}

#[test]
fn signature_verifies_against_the_key() {
    let rsa = openssl::rsa::Rsa::generate(2048).unwrap();
    let pkey = openssl::pkey::PKey::from_rsa(rsa).unwrap();
    let pem = String::from_utf8(pkey.private_key_to_pem_pkcs8().unwrap()).unwrap();
    let package = b"the package bytes".to_vec();

    let encoded = sign_package(&pem, &package).unwrap();

    let signature =
        base64::Engine::decode(&base64::engine::general_purpose::STANDARD, &encoded).unwrap();
    let mut verifier =
        openssl::sign::Verifier::new(openssl::hash::MessageDigest::sha512(), &pkey).unwrap();
    verifier.update(&package).unwrap();
    assert!(verifier.verify(&signature).unwrap());
}

fn sample_rows() -> Vec<FileHash> {
    let root = ap(&["srv", "app"]);
    vec![
        hash_file(&root, &ap(&["srv", "app", "appinfo", "info.xml"]), &b"<info/>".to_vec())
            .unwrap(),
        hash_file(&root, &ap(&["srv", "app", "js", "init.js"]), &b"init();".to_vec()).unwrap(),
    ]
}

#[test]
fn manifest_signature_verifies_over_the_json_rows() {
    let rsa = openssl::rsa::Rsa::generate(2048).unwrap();
    let pkey = openssl::pkey::PKey::from_rsa(rsa).unwrap();
    let pem = String::from_utf8(pkey.private_key_to_pem_pkcs8().unwrap()).unwrap();
    let rows = sample_rows();
    let expected: serde_json::Map<String, serde_json::Value> = rows
        .iter()
        .map(|fh| (fh.file().clone(), serde_json::Value::String(fh.hash().clone())))
        .collect();
    let expected_json = serde_json::to_string(&expected).unwrap();

    let manifest = sign_app_manifest(rows, &pem).unwrap();

    assert_eq!(manifest.certificate(), "");
    assert_eq!(manifest.hashes().len(), 2);
    assert_eq!(manifest.hashes()[0].file(), "/appinfo/info.xml");
    let signature = base64::Engine::decode(
        &base64::engine::general_purpose::STANDARD,
        manifest.signature(),
    )
    .unwrap();
    let mut verifier =
        openssl::sign::Verifier::new(openssl::hash::MessageDigest::sha512(), &pkey).unwrap();
    verifier.update(expected_json.as_bytes()).unwrap();
    assert!(verifier.verify(&signature).unwrap(), "signature must cover the JSON manifest");
}

#[test]
fn manifest_signing_with_a_bad_key_fails() {
    let r = sign_app_manifest(sample_rows(), &"not a pem key".to_string());

    assert!(matches!(r, Err(SignError::Ssl { .. })));
}
