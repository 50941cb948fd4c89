use vstd::prelude::*;

use crate::paths::{
    clone_string, join_components, joined_spec, rel_parts_spec, wf_component, wf_parts, AppPath,
};

verus! {

/// The tar archive under construction. Verus refuses tar::Builder's
/// `Write` bound, so the builder is held whole behind this opaque struct;
/// `tar_entries` names what it holds.
#[verifier::external_body]
pub struct TarArchive {
    inner: tar::Builder<Vec<u8>>,
}

/// A filesystem entry as the tree walker reported it: its path, whether it
/// is a directory, and for regular files the bytes read from it or the
/// read failure's message. Directories carry empty bytes.
pub struct FsEntry {
    pub path: AppPath,
    pub is_dir: bool,
    pub contents: Result<Vec<u8>, String>,
}

/// The entries appended to a tar archive so far: entry path and file
/// bytes, in order.
pub uninterp spec fn tar_entries(b: TarArchive) -> Seq<(Seq<char>, Seq<u8>)>;

/// The byte serialization of a tar archive holding exactly `entries`, as
/// tar::Builder writes it here: regular files, mode 644, other header
/// fields zeroed.
pub uninterp spec fn tar_bytes(entries: Seq<(Seq<char>, Seq<u8>)>) -> Seq<u8>;

/// The gzip compression of `data`, as flate2's GzEncoder writes it at the
/// default level.
pub uninterp spec fn gzip_of(data: Seq<u8>) -> Seq<u8>;

/// Relies on tar::Builder::new: a fresh archive holds no entries.
#[verifier::external_body]
fn tar_new() -> (b: TarArchive)
    ensures
        tar_entries(b) == Seq::<(Seq<char>, Seq<u8>)>::empty(),
{
    TarArchive { inner: tar::Builder::new(Vec::new()) }
}

/// Relies on tar::Builder::append_data: appends one regular-file entry
/// under the given path with the given bytes. The path handed in is a
/// `/`-joined list of well-formed components — relative, with no empty,
/// dot or dot-dot component — which tar accepts, taking the GNU long-name
/// extension for long ones; writing into the in-memory sink cannot fail,
/// so the append succeeds.
#[verifier::external_body]
fn tar_append(b: &mut TarArchive, name: &str, data: &Vec<u8>) -> (r: Result<(), String>)
    requires
        exists|parts: Seq<Seq<char>>|
            name@ == joined_spec(parts) && parts.len() > 0 && #[trigger] wf_parts(parts),
    ensures
        r is Ok,
        tar_entries(*final(b)) == tar_entries(*old(b)).push((name@, data@)),
{
    let mut header = tar::Header::new_gnu();
    header.set_mode(0o644);
    header.set_size(data.len() as u64);
    match b.inner.append_data(&mut header, name, data.as_slice()) {
        Ok(()) => Ok(()),
        Err(e) => Err(format!("{}", e)),
    }
}

/// Relies on tar::Builder::into_inner: finishing writes the terminator
/// blocks into the in-memory sink, which cannot fail, and yields the
/// serialized bytes of exactly the appended entries.
#[verifier::external_body]
fn tar_finish(b: TarArchive) -> (r: Result<Vec<u8>, String>)
    ensures
        r is Ok,
        r matches Ok(bytes) ==> bytes@ == tar_bytes(tar_entries(b)),
{
    match b.inner.into_inner() {
        Ok(v) => Ok(v),
        Err(e) => Err(format!("{}", e)),
    }
}

/// Relies on flate2::write::GzEncoder (new, write_all, finish) at the
/// default compression level; compressing into the in-memory sink cannot
/// fail.
#[verifier::external_body]
pub(crate) fn gzip(data: &Vec<u8>) -> (r: Result<Vec<u8>, String>)
    ensures
        r is Ok,
        r matches Ok(bytes) ==> bytes@ == gzip_of(data@),
{
    let mut enc = flate2::write::GzEncoder::new(Vec::new(), flate2::Compression::default());
    if let Err(e) = std::io::Write::write_all(&mut enc, data.as_slice()) {
        return Err(format!("{}", e));
    }
    match enc.finish() {
        Ok(v) => Ok(v),
        Err(e) => Err(format!("{}", e)),
    }
}

/// Archive construction failed.
#[derive(Debug)]
pub enum ArchiveError {
    /// a listed file could not be read; carries its path and the message
    FileRead { path: String, message: String },
    /// appending an entry to the archive failed
    Append { path: String, message: String },
    /// finishing the archive failed
    Finish { message: String },
}

/// The name an archived file gets: the archive root, then the file's
/// components relative to the app path.
pub open spec fn entry_name_spec(root: Seq<char>, rel: Seq<Seq<char>>) -> Seq<char> {
    joined_spec(seq![root] + rel)
}

/// Whether an entry of the file list goes into the archive: regular files
/// under the app path only. Directories are skipped even when listed, and
/// so is anything that cannot be expressed relative to the app path.
pub open spec fn entry_included(app_abs: bool, app_parts: Seq<Seq<char>>, e: FsEntry) -> bool {
    !e.is_dir && rel_parts_spec(e.path, app_abs, app_parts) is Some
}

/// The archive entries a file list produces, in order: each included file,
/// named per `entry_name_spec`, with its bytes.
pub open spec fn archive_entries_spec(
    root: Seq<char>,
    app_abs: bool,
    app_parts: Seq<Seq<char>>,
    files: Seq<FsEntry>,
) -> Seq<(Seq<char>, Seq<u8>)>
    decreases files.len(),
{
    if files.len() == 0 {
        Seq::<(Seq<char>, Seq<u8>)>::empty()
    } else {
        let rest = archive_entries_spec(root, app_abs, app_parts, files.drop_last());
        let e = files.last();
        if entry_included(app_abs, app_parts, e) {
            match (rel_parts_spec(e.path, app_abs, app_parts), e.contents) {
                (Some(rel), Ok(bytes)) => rest.push((entry_name_spec(root, rel), bytes@)),
                _ => rest,
            }
        } else {
            rest
        }
    }
}

/// Whether some included file of the list failed to read, which aborts the
/// archive build.
pub open spec fn has_failed_read(app_abs: bool, app_parts: Seq<Seq<char>>, files: Seq<FsEntry>) -> bool {
    exists|i: int|
        0 <= i < files.len() && entry_included(app_abs, app_parts, #[trigger] files[i]) && files[i]
            .contents is Err
}

pub fn entry_name(root: &str, rel: &Vec<String>) -> (r: String)
    ensures
        r@ == entry_name_spec(root@, rel.deep_view()),
{
    let mut v: Vec<String> = Vec::new();
    v.push(root.to_owned());
    let mut i: usize = 0;
    while i < rel.len()
        invariant
            i <= rel@.len(),
            v@.len() == i + 1,
            v@[0]@ == root@,
            forall|j: int| 0 <= j < i ==> v@[j + 1]@ == rel@[j]@,
        decreases rel@.len() - i,
    {
        v.push(clone_string(&rel[i]));
        i += 1;
    }
    proof {
        assert forall|j: int| 0 <= j < v.deep_view().len() implies v.deep_view()[j] == (seq![
            root@,
        ] + rel.deep_view())[j] by {
            assert(v.deep_view()[j] == v@[j]@);
            if j > 0 {
                assert(v@[j]@ == rel@[j - 1]@);
            }
        }
        assert(v.deep_view() =~= seq![root@] + rel.deep_view());
    }
    join_components(&v)
}

/// Serializes the included files of `files` into a tar archive: regular
/// files only, each named by `root` followed by its path relative to
/// `app_path`; directories and entries outside `app_path` are skipped. A
/// file that failed to read aborts the build, naming the first such file;
/// with every included file readable the build succeeds. The root and the
/// listed paths carry well-formed components, as a filesystem walk yields
/// them.
pub fn build_app_archive(root: &str, app_path: &AppPath, files: &Vec<FsEntry>) -> (r: Result<
    Vec<u8>,
    ArchiveError,
>)
    requires
        wf_component(root@),
        forall|i: int|
            0 <= i < files@.len() ==> wf_parts((#[trigger] files@[i]).path.parts.deep_view()),
    ensures
        r matches Ok(bytes) ==> bytes@ == tar_bytes(
            archive_entries_spec(root@, app_path.absolute, app_path.parts_view(), files@),
        ) && !has_failed_read(app_path.absolute, app_path.parts_view(), files@),
        r matches Err(ArchiveError::FileRead { path, message }) ==> exists|i: int|
            0 <= i < files@.len() && entry_included(
                app_path.absolute,
                app_path.parts_view(),
                #[trigger] files@[i],
            ) && (files@[i].contents matches Err(m) && message@ == m@) && path@ == joined_spec(
                files@[i].path.parts.deep_view(),
            ) && (forall|j: int|
                0 <= j < i ==> !(entry_included(
                    app_path.absolute,
                    app_path.parts_view(),
                    #[trigger] files@[j],
                ) && files@[j].contents is Err)),
        !has_failed_read(app_path.absolute, app_path.parts_view(), files@) ==> r is Ok,
{
    let mut b = tar_new();
    let mut i: usize = 0;
    while i < files.len()
        invariant
            i <= files@.len(),
            wf_component(root@),
            forall|j: int|
                0 <= j < files@.len() ==> wf_parts((#[trigger] files@[j]).path.parts.deep_view()),
            tar_entries(b) == archive_entries_spec(
                root@,
                app_path.absolute,
                app_path.parts_view(),
                files@.take(i as int),
            ),
            forall|j: int|
                0 <= j < i ==> !(entry_included(
                    app_path.absolute,
                    app_path.parts_view(),
                    #[trigger] files@[j],
                ) && files@[j].contents is Err),
        decreases files@.len() - i,
    {
        let entry = &files[i];
        proof {
            assert(files@.take(i as int + 1).drop_last() =~= files@.take(i as int));
            assert(files@.take(i as int + 1).last() == files@[i as int]);
        }
        if !entry.is_dir {
            match entry.path.relative_to(app_path) {
                Some(rel) => {
                    match &entry.contents {
                        Ok(bytes) => {
                            let name = entry_name(root, &rel);
                            proof {
                                let parts = seq![root@] + rel.deep_view();
                                assert forall|k: int|
                                    0 <= k < parts.len() implies wf_component(
                                    #[trigger] parts[k],
                                ) by {
                                    if k > 0 {
                                        assert(parts[k] == rel.deep_view()[k - 1]);
                                        assert(rel.deep_view()[k - 1] == files@[i as int]
                                            .path.parts.deep_view()[app_path.parts_view().len() + k
                                            - 1]);
                                    }
                                }
                                assert(name@ == joined_spec(parts) && parts.len() > 0 && wf_parts(
                                    parts,
                                ));
                            }
                            match tar_append(&mut b, name.as_str(), bytes) {
                                Ok(()) => {},
                                Err(m) => {
                                    return Err(ArchiveError::Append { path: name, message: m });
                                },
                            }
                        },
                        Err(m) => {
                            let shown = join_components(&entry.path.parts);
                            proof {
                                assert(entry_included(
                                    app_path.absolute,
                                    app_path.parts_view(),
                                    files@[i as int],
                                ) && files@[i as int].contents is Err);
                            }
                            return Err(
                                ArchiveError::FileRead {
                                    path: shown,
                                    message: clone_string(m),
                                },
                            );
                        },
                    }
                },
                None => {},
            }
        }
        i += 1;
    }
    proof {
        assert(files@.take(files@.len() as int) =~= files@);
    }
    match tar_finish(b) {
        Ok(bytes) => Ok(bytes),
        Err(m) => Err(ArchiveError::Finish { message: m }),
    }
}

/// Law: every archive entry comes from an included file of the list — a
/// regular file under the app path — and is archived under the root at
/// that file's own relative components, with that file's own bytes.
pub proof fn lemma_archive_entry_source(
    root: Seq<char>,
    app_abs: bool,
    app_parts: Seq<Seq<char>>,
    files: Seq<FsEntry>,
    k: int,
)
    requires
        0 <= k < archive_entries_spec(root, app_abs, app_parts, files).len(),
    ensures
        exists|i: int|
            0 <= i < files.len() && entry_included(app_abs, app_parts, #[trigger] files[i]) && (
            rel_parts_spec(files[i].path, app_abs, app_parts) matches Some(rel) && (files[i].contents
                matches Ok(bytes) && archive_entries_spec(root, app_abs, app_parts, files)[k] == (
            entry_name_spec(root, rel), bytes@))),
    decreases files.len(),
{
    let entries = archive_entries_spec(root, app_abs, app_parts, files);
    let rest = archive_entries_spec(root, app_abs, app_parts, files.drop_last());
    if k < rest.len() {
        lemma_archive_entry_source(root, app_abs, app_parts, files.drop_last(), k);
        let i = choose|i: int|
            0 <= i < files.drop_last().len() && entry_included(
                app_abs,
                app_parts,
                #[trigger] files.drop_last()[i],
            ) && (rel_parts_spec(files.drop_last()[i].path, app_abs, app_parts) matches Some(rel)
                && (files.drop_last()[i].contents matches Ok(bytes) && rest[k] == (
            entry_name_spec(root, rel), bytes@)));
        assert(files[i] == files.drop_last()[i]);
        assert(entry_included(app_abs, app_parts, files[i]) && (rel_parts_spec(
            files[i].path,
            app_abs,
            app_parts,
        ) matches Some(rel) && (files[i].contents matches Ok(bytes) && entries[k] == (
        entry_name_spec(root, rel), bytes@))));
    } else {
        let i = files.len() - 1;
        assert(entry_included(app_abs, app_parts, files[i]) && (rel_parts_spec(
            files[i].path,
            app_abs,
            app_parts,
        ) matches Some(rel) && (files[i].contents matches Ok(bytes) && entries[k] == (
        entry_name_spec(root, rel), bytes@))));
    }
}

/// Law: a directory entry in the file list never yields an archive entry —
/// the archive is the same with or without it.
pub proof fn lemma_directories_not_archived(
    root: Seq<char>,
    app_abs: bool,
    app_parts: Seq<Seq<char>>,
    files: Seq<FsEntry>,
    i: int,
)
    requires
        0 <= i < files.len(),
        files[i].is_dir,
    ensures
        archive_entries_spec(root, app_abs, app_parts, files) == archive_entries_spec(
            root,
            app_abs,
            app_parts,
            files.remove(i),
        ),
    decreases files.len(),
{
    if i == files.len() - 1 {
        assert(files.remove(i) =~= files.drop_last());
    } else {
        lemma_directories_not_archived(root, app_abs, app_parts, files.drop_last(), i);
        assert(files.remove(i).drop_last() =~= files.drop_last().remove(i));
        assert(files.remove(i).last() == files.last());
    }
}

} // verus!
