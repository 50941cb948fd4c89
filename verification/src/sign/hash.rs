use vstd::prelude::*;
use vstd::string::StrSliceExecFns;
use vstd::string::StringExecFns;

use crate::packaging::archive::FsEntry;
use crate::paths::{join_components, joined_spec, rel_parts_spec, AppPath};
use crate::sign::error::SignError;

verus! {

/// The SHA-512 digest of `data`.
pub uninterp spec fn sha512_of(data: Seq<u8>) -> Seq<u8>;

/// One hex digit, lowercase.
pub open spec fn hex_digit(n: int) -> char {
    if 0 <= n < 10 {
        ((('0' as int) + n) as u8) as char
    } else if 10 <= n < 16 {
        ((('a' as int) + n - 10) as u8) as char
    } else {
        '0'
    }
}

/// The lowercase hex encoding of `data`: two digits per byte, high first.
pub open spec fn hex_of(data: Seq<u8>) -> Seq<char>
    decreases data.len(),
{
    if data.len() == 0 {
        Seq::<char>::empty()
    } else {
        hex_of(data.drop_last()) + seq![
            hex_digit(data.last() as int / 16),
            hex_digit(data.last() as int % 16),
        ]
    }
}

/// The hex encoding is two characters per byte.
pub proof fn lemma_hex_of_len(data: Seq<u8>)
    ensures
        hex_of(data).len() == 2 * data.len(),
    decreases data.len(),
{
    if data.len() > 0 {
        lemma_hex_of_len(data.drop_last());
    }
}

/// Relies on openssl::hash::hash with SHA-512: a 64-byte digest of the
/// input alone. Digesting succeeds; only an internal allocation failure
/// could report an error, set aside as for the other in-memory writers.
#[verifier::external_body]
fn sha512(data: &Vec<u8>) -> (r: Result<Vec<u8>, String>)
    ensures
        r is Ok,
        r matches Ok(d) ==> d@ == sha512_of(data@) && d@.len() == 64,
{
    match openssl::hash::hash(openssl::hash::MessageDigest::sha512(), data.as_slice()) {
        Ok(d) => Ok(d.to_vec()),
        Err(e) => Err(format!("{}", e)),
    }
}

/// Relies on hex::encode: two lowercase digits per byte, per `hex_of`.
#[verifier::external_body]
fn hex_encode(data: &Vec<u8>) -> (r: String)
    ensures
        r@ == hex_of(data@),
{
    hex::encode(data.as_slice())
}

/// One file of the signature manifest: its path relative to the app root,
/// and the hex digest of its bytes.
pub struct FileHash {
    file: String,
    hash: String,
}

impl FileHash {
    pub closed spec fn file_view(&self) -> Seq<char> {
        self.file@
    }

    pub closed spec fn hash_view(&self) -> Seq<char> {
        self.hash@
    }

    pub fn file(&self) -> (r: &String)
        ensures
            r@ == self.file_view(),
    {
        &self.file
    }

    pub fn hash(&self) -> (r: &String)
        ensures
            r@ == self.hash_view(),
    {
        &self.hash
    }
}

/// The hex SHA-512 digest of a file's bytes: 128 lowercase hex characters.
pub fn hash_file_contents(contents: &Vec<u8>) -> (r: Result<String, SignError>)
    ensures
        r is Ok,
        r matches Ok(h) ==> h@ == hex_of(sha512_of(contents@)) && h@.len() == 128,
{
    match sha512(contents) {
        Ok(d) => {
            let h = hex_encode(&d);
            proof {
                lemma_hex_of_len(d@);
            }
            Ok(h)
        },
        Err(message) => Err(SignError::Ssl { message }),
    }
}

/// The hash record of one file: its path relative to the app root, with a
/// leading separator as the signature manifest writes it, and the digest
/// of its bytes. Hashing succeeds exactly when the file lies under the
/// app root; anything else is refused.
pub fn hash_file(app_path: &AppPath, path: &AppPath, contents: &Vec<u8>) -> (r: Result<
    FileHash,
    SignError,
>)
    ensures
        r is Ok <==> rel_parts_spec(*path, app_path.absolute, app_path.parts_view()) is Some,
        r matches Ok(fh) ==> (rel_parts_spec(*path, app_path.absolute, app_path.parts_view())
            matches Some(rel) && fh.file_view() == seq!['/'] + joined_spec(rel) && fh.hash_view()
            == hex_of(sha512_of(contents@)) && fh.hash_view().len() == 128),
        r matches Err(e) ==> e matches SignError::Other { .. },
{
    match path.relative_to(app_path) {
        None => Err(SignError::Other { message: "file lies outside the app root".to_owned() }),
        Some(rel) => {
            let shown = String::from_str("/").concat(join_components(&rel).as_str());
            proof {
                reveal_strlit("/");
                assert(("/")@ =~= seq!['/']);
            }
            match hash_file_contents(contents) {
                Ok(hash) => Ok(FileHash { file: shown, hash }),
                Err(e) => Err(e),
            }
        },
    }
}

/// Whether the signature walk skips this name: hidden entries (a leading
/// dot, but not the bare current directory) and a signature manifest left
/// from an earlier run, which must not hash itself.
pub open spec fn is_ignored_spec(name: Seq<char>) -> bool {
    (name.len() > 0 && name[0] == '.' && name != "."@) || name == "signature.json"@
}

pub fn is_ignored(file_name: &String) -> (r: bool)
    ensures
        r == is_ignored_spec(file_name@),
{
    if *file_name == String::from_str("signature.json") {
        return true;
    }
    if file_name.as_str().is_empty() {
        return false;
    }
    if *file_name == String::from_str(".") {
        return false;
    }
    let c = file_name.as_str().get_char(0);
    c == '.'
}

/// Whether the signature walk hashes this entry: a regular file under the
/// app root, none of whose relative components is ignored (an ignored
/// directory prunes everything below it).
pub open spec fn components_unignored(rel: Seq<Seq<char>>) -> bool {
    forall|i: int| 0 <= i < rel.len() ==> !is_ignored_spec(#[trigger] rel[i])
}

pub open spec fn entry_hashed(app_abs: bool, app_parts: Seq<Seq<char>>, e: FsEntry) -> bool {
    !e.is_dir && match rel_parts_spec(e.path, app_abs, app_parts) {
        Some(rel) => components_unignored(rel),
        None => false,
    }
}

/// The manifest rows the walk produces, in order: the relative path with a
/// leading separator, and the digest, for every hashed file that read.
pub open spec fn hash_list_spec(
    app_abs: bool,
    app_parts: Seq<Seq<char>>,
    entries: Seq<FsEntry>,
) -> Seq<(Seq<char>, Seq<char>)>
    decreases entries.len(),
{
    if entries.len() == 0 {
        Seq::<(Seq<char>, Seq<char>)>::empty()
    } else {
        let rest = hash_list_spec(app_abs, app_parts, entries.drop_last());
        let e = entries.last();
        if entry_hashed(app_abs, app_parts, e) {
            match (rel_parts_spec(e.path, app_abs, app_parts), e.contents) {
                (Some(rel), Ok(bytes)) => rest.push(
                    (seq!['/'] + joined_spec(rel), hex_of(sha512_of(bytes@))),
                ),
                _ => rest,
            }
        } else {
            rest
        }
    }
}

/// Whether some hashed file of the walk failed to read, which aborts the
/// manifest.
pub open spec fn has_unreadable_file(
    app_abs: bool,
    app_parts: Seq<Seq<char>>,
    entries: Seq<FsEntry>,
) -> bool {
    exists|i: int|
        0 <= i < entries.len() && entry_hashed(app_abs, app_parts, #[trigger] entries[i])
            && entries[i].contents is Err
}

fn entry_is_hashed(app_path: &AppPath, e: &FsEntry) -> (r: bool)
    ensures
        r == entry_hashed(app_path.absolute, app_path.parts_view(), *e),
{
    if e.is_dir {
        return false;
    }
    match e.path.relative_to(app_path) {
        None => false,
        Some(rel) => {
            let mut i: usize = 0;
            while i < rel.len()
                invariant
                    i <= rel@.len(),
                    Some(rel.deep_view()) == rel_parts_spec(
                        e.path,
                        app_path.absolute,
                        app_path.parts_view(),
                    ),
                    forall|j: int| 0 <= j < i ==> !is_ignored_spec(#[trigger] rel.deep_view()[j]),
                decreases rel@.len() - i,
            {
                if is_ignored(&rel[i]) {
                    proof {
                        let rel_s = rel.deep_view();
                        assert(is_ignored_spec(rel_s[i as int]));
                        assert(!components_unignored(rel_s));
                    }
                    return false;
                }
                i += 1;
            }
            proof {
                assert(components_unignored(rel.deep_view()));
            }
            true
        },
    }
}

/// Hashes the artifact tree the caller walked: every regular file under
/// the app root whose path has no ignored component gets a manifest row,
/// in walk order. The first hashed file that failed to read aborts; with
/// every hashed file readable the manifest succeeds.
pub fn hash_entries(app_path: &AppPath, entries: Vec<FsEntry>) -> (r: Result<
    Vec<FileHash>,
    SignError,
>)
    ensures
        r matches Ok(hs) ==> ({
            let rows = hash_list_spec(app_path.absolute, app_path.parts_view(), entries@);
            hs@.len() == rows.len() && (forall|k: int|
                0 <= k < rows.len() ==> (#[trigger] hs@[k]).file_view() == rows[k].0 && hs@[k]
                    .hash_view() == rows[k].1) && !has_unreadable_file(
                app_path.absolute,
                app_path.parts_view(),
                entries@,
            )
        }),
        r matches Err(SignError::Io { .. }) ==> has_unreadable_file(
            app_path.absolute,
            app_path.parts_view(),
            entries@,
        ),
        !has_unreadable_file(app_path.absolute, app_path.parts_view(), entries@) ==> r is Ok,
{
    let ghost orig = entries@;
    let mut pending = entries;
    let mut hs: Vec<FileHash> = Vec::new();
    let ghost mut done: int = 0;
    while pending.len() > 0
        invariant
            orig == entries@,
            0 <= done <= orig.len(),
            pending@ == orig.skip(done),
            ({
                let rows = hash_list_spec(app_path.absolute, app_path.parts_view(), orig.take(done));
                hs@.len() == rows.len() && (forall|k: int|
                    0 <= k < rows.len() ==> (#[trigger] hs@[k]).file_view() == rows[k].0 && hs@[k]
                        .hash_view() == rows[k].1)
            }),
            forall|j: int|
                0 <= j < done ==> !(entry_hashed(
                    app_path.absolute,
                    app_path.parts_view(),
                    #[trigger] orig[j],
                ) && orig[j].contents is Err),
        decreases pending@.len(),
    {
        let e = pending.remove(0);
        proof {
            assert(e == orig[done]);
            assert(pending@ =~= orig.skip(done + 1));
            assert(orig.take(done + 1).drop_last() =~= orig.take(done));
            assert(orig.take(done + 1).last() == orig[done]);
        }
        if entry_is_hashed(app_path, &e) {
            match &e.contents {
                Ok(bytes) => {
                    match hash_file(app_path, &e.path, bytes) {
                        Ok(fh) => {
                            hs.push(fh);
                        },
                        Err(err) => {
                            return Err(err);
                        },
                    }
                },
                Err(m) => {
                    proof {
                        assert(entry_hashed(app_path.absolute, app_path.parts_view(), orig[done])
                            && orig[done].contents is Err);
                    }
                    return Err(SignError::Io { message: crate::paths::clone_string(m) });
                },
            }
        }
        proof {
            done = done + 1;
        }
    }
    proof {
        assert(orig.take(orig.len() as int) =~= orig);
    }
    Ok(hs)
}

/// The manifest rows as plain view pairs: file, then digest.
pub open spec fn rows_view(rows: Seq<FileHash>) -> Seq<(Seq<char>, Seq<char>)> {
    rows.map(|i: int, fh: FileHash| (fh.file_view(), fh.hash_view()))
}

/// The JSON object serde_json writes for these rows: one string member per
/// row, file to digest. The map is tree-backed, keys sorted, so the text
/// is a function of the rows alone.
pub uninterp spec fn json_manifest_of(rows: Seq<(Seq<char>, Seq<char>)>) -> Seq<char>;

/// Relies on serde_json::to_string over a serde_json::Map built from the
/// rows, file to digest; serializing string-keyed string members cannot
/// fail.
#[verifier::external_body]
pub(crate) fn rows_to_json(rows: &Vec<FileHash>) -> (r: Result<String, String>)
    ensures
        r is Ok,
        r matches Ok(s) ==> s@ == json_manifest_of(rows_view(rows@)),
{
    let map: serde_json::Map<String, serde_json::Value> = rows.iter().map(|fh| (
        fh.file.clone(),
        serde_json::Value::String(fh.hash.clone()),
    )).collect();
    serde_json::to_string(&map).map_err(|e| format!("{}", e))
}

} // verus!
