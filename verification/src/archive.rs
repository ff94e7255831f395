//! The archive container, kept behind a handful of calls into the `zip` crate.
//!
//! The writer is opaque to the verifier. What it holds is spoken of through
//! [`archive_entries`], the entries started so far, in order, each with its
//! name and the bytes written to it, and [`entry_open`], whether the last of
//! them still takes bytes.
//!
//! Entries are stored as they are, under a fixed date, in a buffer in memory.
//! So what `zip` answers depends on what it is handed and on nothing else, an
//! entry that was written can always be closed, and a writer is handed on only
//! by a call that succeeded.

use std::io::Write;
use vstd::prelude::*;

use crate::error::PipelineError;

verus! {

/// An archive under construction in memory: a `zip::ZipWriter` over a growing
/// buffer. Nothing of its inside is visible to proofs.
#[verifier::external_body]
pub struct ArchiveWriter {
    inner: zip::ZipWriter<std::io::Cursor<Vec<u8>>>,
}

/// The error type of `zip`.
#[verifier::external_type_specification]
#[verifier::external_body]
pub struct ExZipError(zip::result::ZipError);

/// The error type of std's I/O traits.
#[verifier::external_type_specification]
#[verifier::external_body]
pub struct ExIoError(std::io::Error);

/// The entries of the archive so far: name and content, in the order in which
/// they were started.
pub uninterp spec fn archive_entries(w: ArchiveWriter) -> Seq<(Seq<char>, Seq<u8>)>;

/// Whether the entry started last is still open for writing.
pub uninterp spec fn entry_open(w: ArchiveWriter) -> bool;

/// The bytes of the finished container that holds exactly `entries`, each
/// stored as it is, stamped with the first date the format knows and written
/// in one piece.
pub uninterp spec fn container_bytes(entries: Seq<(Seq<char>, Seq<u8>)>) -> Seq<u8>;

/// The longest name, in bytes, that the header of an entry has room for.
pub const MAX_NAME_BYTES: usize = 0xffff;

/// The longest content, in bytes, that an entry takes.
pub const MAX_CONTENT_BYTES: u64 = 0xffff_ffff;

/// Whether a name fits into the header of an entry.
pub open spec fn name_fits(name: Seq<char>) -> bool {
    vstd::utf8::encode_utf8(name).len() <= MAX_NAME_BYTES
}

/// Whether a content is no longer than an entry takes.
pub open spec fn content_fits(content: Seq<u8>) -> bool {
    content.len() <= MAX_CONTENT_BYTES
}

/// The names of `entries`, in their order.
pub open spec fn entry_names(entries: Seq<(Seq<char>, Seq<u8>)>) -> Seq<Seq<char>> {
    entries.map_values(|e: (Seq<char>, Seq<u8>)| e.0)
}

/// `zip::ZipWriter::new` over an empty buffer: an archive without entries.
#[verifier::external_body]
fn open_archive() -> (w: ArchiveWriter)
    ensures
        archive_entries(w) == Seq::<(Seq<char>, Seq<u8>)>::empty(),
        !entry_open(w),
{
    ArchiveWriter { inner: zip::ZipWriter::new(std::io::Cursor::new(Vec::new())) }
}

/// `zip::ZipWriter::start_file`, for an entry that is stored as it is under
/// the fixed date. It first closes the entry before, which cannot fail for a
/// stored entry that was written, and it refuses a name the archive already
/// holds; nothing else makes it fail over a buffer in memory. Where it
/// succeeds, the archive has one more entry, last, under `name`, empty and
/// open; where it fails, the writer is given up. A name too long for the
/// header makes it panic, so it is asked for names that fit only.
#[verifier::external_body]
fn start_entry(w: ArchiveWriter, name: &str) -> (r: Result<ArchiveWriter, zip::result::ZipError>)
    requires
        name_fits(name@),
    ensures
        r is Ok <==> !entry_names(archive_entries(w)).contains(name@),
        r matches Ok(v) ==> archive_entries(v) == archive_entries(w).push(
            (name@, Seq::<u8>::empty()),
        ) && entry_open(v),
{
    let mut w = w;
    let options = zip::write::FileOptions::<()>::default()
        .compression_method(zip::CompressionMethod::Stored)
        .last_modified_time(zip::DateTime::default());
    match w.inner.start_file(name, options) {
        Ok(()) => Ok(w),
        Err(e) => Err(e),
    }
}

/// `write_all` of the writer's `std::io::Write`: `bytes` become the content of
/// the entry started last, which stays open. It fails only for more bytes than
/// an entry takes, and is asked for no more; and only while the entry is open
/// and still empty, so that each entry is written in one piece.
#[verifier::external_body]
fn write_entry(w: ArchiveWriter, bytes: &[u8]) -> (r: Result<ArchiveWriter, std::io::Error>)
    requires
        entry_open(w),
        archive_entries(w).len() > 0,
        archive_entries(w).last().1.len() == 0,
        content_fits(bytes@),
    ensures
        r is Ok,
        r matches Ok(v) ==> archive_entries(v) == archive_entries(w).drop_last().push(
            (archive_entries(w).last().0, bytes@),
        ) && entry_open(v),
{
    let mut w = w;
    match w.inner.write_all(bytes) {
        Ok(()) => Ok(w),
        Err(e) => Err(e),
    }
}

/// `zip::ZipWriter::finish`: closes the last entry, writes the directory and
/// hands back the buffer. Over stored entries in memory nothing makes it
/// fail, and the buffer is the container of the entries the archive held.
#[verifier::external_body]
fn finish_archive(w: ArchiveWriter) -> (r: Result<Vec<u8>, zip::result::ZipError>)
    ensures
        r is Ok,
        r matches Ok(bytes) ==> bytes@ == container_bytes(archive_entries(w)),
{
    match w.inner.finish() {
        Ok(buffer) => Ok(buffer.into_inner()),
        Err(e) => Err(e),
    }
}

/// One entry to write: its name and its text.
#[derive(Debug, Clone, PartialEq, Eq)]
pub struct ArchiveEntry {
    pub name: String,
    pub text: String,
}

/// An entry as a pair of texts.
pub struct ArchiveEntryView {
    pub name: Seq<char>,
    pub text: Seq<char>,
}

impl View for ArchiveEntry {
    type V = ArchiveEntryView;

    open spec fn view(&self) -> ArchiveEntryView {
        ArchiveEntryView { name: self.name@, text: self.text@ }
    }
}

/// The entries of a list, each as a pair of texts.
pub open spec fn entry_views(entries: Seq<ArchiveEntry>) -> Seq<ArchiveEntryView> {
    entries.map_values(|e: ArchiveEntry| e@)
}

/// What the archive holds once `entries` are written, in their order: of each,
/// the name and the UTF-8 bytes of the text.
pub open spec fn stored_entries(entries: Seq<ArchiveEntryView>) -> Seq<(Seq<char>, Seq<u8>)> {
    entries.map_values(|e: ArchiveEntryView| (e.name, vstd::utf8::encode_utf8(e.text)))
}

/// Whether the text of every one of `entries` is no longer than an entry takes.
pub open spec fn texts_fit(entries: Seq<ArchiveEntryView>) -> bool {
    forall|i: int|
        0 <= i < entries.len() ==> content_fits(
            vstd::utf8::encode_utf8((#[trigger] entries[i]).text),
        )
}

/// Whether `entries` can be written into one archive: every name fits into a
/// header, no name comes twice, and no text is longer than an entry takes.
pub open spec fn can_be_written(entries: Seq<ArchiveEntryView>) -> bool {
    &&& forall|i: int| 0 <= i < entries.len() ==> name_fits((#[trigger] entries[i]).name)
    &&& forall|i: int, j: int|
        0 <= i < j < entries.len() ==> (#[trigger] entries[i]).name != (#[trigger] entries[j]).name
    &&& texts_fit(entries)
}

/// The failure of an archive that could not be written, with its cause in words.
fn refused(cause: String) -> (r: Result<Vec<u8>, PipelineError>)
    ensures
        r matches Err(e) && e == PipelineError::ArchiveWriteError(cause),
{
    Err(PipelineError::ArchiveWriteError(cause))
}

/// Writes `entries`, in order, into a fresh archive and returns the finished
/// container.
///
/// It succeeds exactly where the entries can be written, and the bytes are
/// then those of the container of exactly these entries. Where they cannot,
/// the failure is an `ArchiveWriteError`; for a name or a text that does not
/// fit, nothing is asked of `zip` for that entry.
pub fn write_archive(entries: &Vec<ArchiveEntry>) -> (r: Result<Vec<u8>, PipelineError>)
    ensures
        r is Ok <==> can_be_written(entry_views(entries@)),
        match r {
            Ok(bytes) => bytes@ == container_bytes(stored_entries(entry_views(entries@))),
            Err(e) => e is ArchiveWriteError,
        },
{
    let ghost all = entry_views(entries@);
    let mut w = open_archive();
    let mut i: usize = 0;
    while i < entries.len()
        invariant
            i <= entries.len(),
            all == entry_views(entries@),
            archive_entries(w) == stored_entries(all.take(i as int)),
            entry_open(w) == (i > 0),
            forall|j: int| 0 <= j < i ==> name_fits((#[trigger] all[j]).name),
            forall|j: int, k: int|
                0 <= j < k < i ==> (#[trigger] all[j]).name != (#[trigger] all[k]).name,
            forall|j: int|
                0 <= j < i ==> content_fits(vstd::utf8::encode_utf8((#[trigger] all[j]).text)),
        decreases entries.len() - i,
    {
        let entry = &entries[i];
        let ghost held = stored_entries(all.take(i as int));
        assert(all[i as int] == entry@);
        let name = entry.name.as_str();
        let content = entry.text.as_str().as_bytes();
        if name.as_bytes().len() > MAX_NAME_BYTES {
            return refused("entry name too long".to_string());
        }
        if content.len() as u64 > MAX_CONTENT_BYTES {
            return refused("entry too large".to_string());
        }
        proof {
            assert forall|j: int| 0 <= j < i implies #[trigger] entry_names(held)[j]
                == all[j].name by {
                assert(held[j] == (all[j].name, vstd::utf8::encode_utf8(all[j].text)));
            }
        }
        let started = match start_entry(w, name) {
            Ok(started) => started,
            Err(e) => {
                proof {
                    let j = choose|j: int|
                        0 <= j < entry_names(held).len() && entry_names(held)[j] == entry.name@;
                    assert(all[j].name == all[i as int].name);
                }
                return refused(e.to_string());
            },
        };
        proof {
            assert forall|j: int| 0 <= j < i implies (#[trigger] all[j]).name != entry.name@ by {
                assert(entry_names(held)[j] == all[j].name);
            }
        }
        w = match write_entry(started, content) {
            Ok(written) => written,
            Err(e) => {
                return refused(e.to_string());
            },
        };
        proof {
            let before = all.take(i as int);
            let after = all.take(i + 1);
            assert(after =~= before.push(all[i as int]));
            assert(stored_entries(after) =~= stored_entries(before).push(
                (entry.name@, vstd::utf8::encode_utf8(entry.text@)),
            ));
        }
        i = i + 1;
    }
    proof {
        assert(all.take(i as int) =~= all);
    }
    match finish_archive(w) {
        Ok(bytes) => Ok(bytes),
        Err(e) => refused(e.to_string()),
    }
}

} // verus!
