//! Packing of page images into one archive, done by the `zip` crate.

use crate::file_name::fits_entry_name;
use crate::pdf_converter::{listing, PageImage};
use vstd::prelude::*;

verus! {

/// How the bytes of the entries of an archive are kept.
#[derive(Clone, Copy, Debug, PartialEq, Eq, Structural)]
pub enum Compression {
    /// As they are.
    Stored,
    /// Deflated.
    Deflated,
}

/// An archive that is being written in memory: a `ZipWriter` of the `zip`
/// crate over a cursor of std, and the way in which it keeps its entries.
///
/// A writer on which a call has failed is given up, so every writer that
/// there is has taken each of its entries in one piece.
#[verifier::external_body]
pub struct ArchiveWriter {
    inner: zip::ZipWriter<std::io::Cursor<Vec<u8>>>,
    method: Compression,
}

/// The error type of std's input and output.
#[verifier::external_type_specification]
#[verifier::external_body]
pub struct ExIoError(std::io::Error);

/// The entries that were started on a writer, in the order in which they
/// were started, each with its name and the bytes written to it so far.
pub uninterp spec fn archive_entries(writer: ArchiveWriter) -> Seq<(Seq<char>, Seq<u8>)>;

/// The way in which a writer keeps its entries, as it was made with.
pub uninterp spec fn archive_method(writer: ArchiveWriter) -> Compression;

/// Whether the `zip` crate starts an entry of the given name on a writer
/// that keeps its entries the given way and holds the given entries: it
/// closes the entry started last and takes the new name.
pub uninterp spec fn entry_starts(
    method: Compression,
    entries: Seq<(Seq<char>, Seq<u8>)>,
    name: Seq<char>,
) -> bool;

/// The bytes of the finished archive of the given entries, kept the given
/// way under the crate's other defaults, or nothing where finishing fails.
///
/// The crate is built without its feature `time`: with it, the default
/// options of an entry would take the time of the day, and the bytes would
/// not follow from the entries.
pub uninterp spec fn finished_archive(
    method: Compression,
    entries: Seq<(Seq<char>, Seq<u8>)>,
) -> Option<Seq<u8>>;

/// The most bytes that an entry can have.
pub const MAX_ENTRY_BYTES: u64 = 0xFFFF_FFFF;

/// One of the entries has the given name.
pub open spec fn holds_name(entries: Seq<(Seq<char>, Seq<u8>)>, name: Seq<char>) -> bool {
    exists|k: int| 0 <= k < entries.len() && (#[trigger] entries[k]).0 == name
}

/// Two of the entries have the same name.
pub open spec fn names_repeat(entries: Seq<(Seq<char>, Seq<u8>)>) -> bool {
    exists|i: int, j: int|
        0 <= i < j < entries.len() && (#[trigger] entries[i]).0 == (#[trigger] entries[j]).0
}

/// Calls `ZipWriter::new` on an empty cursor.
///
/// Trusted: the new writer has no entries.
#[verifier::external_body]
fn archive_new(method: Compression) -> (writer: ArchiveWriter)
    ensures
        archive_entries(writer) == Seq::<(Seq<char>, Seq<u8>)>::empty(),
        archive_method(writer) == method,
{
    ArchiveWriter { inner: zip::ZipWriter::new(std::io::Cursor::new(Vec::new())), method }
}

/// Calls `ZipWriter::start_file` with the name and with the default options
/// but for the compression method, which is the writer's.
///
/// Trusted: whether it succeeds depends on the writer's method and entries
/// and on the name alone, so it has a name, [`entry_starts`]. Where it
/// succeeds, a new entry of that name, without bytes yet, stands behind the
/// entries that were there. It fails where an entry of that name is there
/// already, and succeeds on a writer without entries. Where it fails, the
/// crate's message is handed back. A name of more than 65535 bytes is left
/// out: the crate panics on it.
#[verifier::external_body]
fn archive_start_file(writer: ArchiveWriter, name: &str) -> (res: Result<ArchiveWriter, String>)
    requires
        fits_entry_name(name@),
    ensures
        res is Ok <==> entry_starts(archive_method(writer), archive_entries(writer), name@),
        res matches Ok(next) ==> archive_method(next) == archive_method(writer)
            && archive_entries(next) == archive_entries(writer).push((name@, Seq::<u8>::empty())),
        holds_name(archive_entries(writer), name@) ==> res is Err,
        archive_entries(writer).len() == 0 ==> res is Ok,
{
    let mut writer = writer;
    let method = match writer.method {
        Compression::Stored => zip::CompressionMethod::Stored,
        Compression::Deflated => zip::CompressionMethod::Deflated,
    };
    let options = zip::write::SimpleFileOptions::default().compression_method(method);
    match writer.inner.start_file(name, options) {
        Ok(()) => Ok(writer),
        Err(e) => Err(e.to_string()),
    }
}

/// Calls `Write::write_all` of std on the writer, for the bytes of the entry
/// started last, to which nothing was written yet.
///
/// Trusted: it succeeds where the bytes are no more than
/// [`MAX_ENTRY_BYTES`], and only there; where it succeeds, the entry started
/// last holds the bytes, and the other entries are as they were.
#[verifier::external_body]
fn archive_write_all(writer: ArchiveWriter, data: &[u8]) -> (res: Result<
    ArchiveWriter,
    std::io::Error,
>)
    requires
        archive_entries(writer).len() > 0,
        archive_entries(writer).last().1.len() == 0,
    ensures
        res is Ok <==> data@.len() <= MAX_ENTRY_BYTES,
        res matches Ok(next) ==> archive_method(next) == archive_method(writer)
            && archive_entries(next) == archive_entries(writer).drop_last().push(
            (archive_entries(writer).last().0, data@),
        ),
{
    let mut writer = writer;
    match std::io::Write::write_all(&mut writer.inner, data) {
        Ok(()) => Ok(writer),
        Err(e) => Err(e),
    }
}

/// Calls `ZipWriter::finish` and takes the bytes out of the cursor that it
/// gives back.
///
/// Trusted: the outcome depends on the writer's method and entries alone,
/// so it has a name, [`finished_archive`]; a writer without entries is
/// finished with success. Where it fails, the crate's message is handed
/// back.
#[verifier::external_body]
fn archive_finish(writer: ArchiveWriter) -> (res: Result<Vec<u8>, String>)
    ensures
        res is Ok <==> finished_archive(archive_method(writer), archive_entries(writer)) is Some,
        res matches Ok(bytes) ==> finished_archive(
            archive_method(writer),
            archive_entries(writer),
        ) == Some(bytes@),
        archive_entries(writer).len() == 0 ==> res is Ok,
{
    writer.inner.finish().map(|cursor| cursor.into_inner()).map_err(|e| e.to_string())
}

/// Why an archive could not be made, each time with the message of its
/// cause.
#[derive(Debug)]
pub enum ZipError {
    /// The place for the archive could not be made.
    Io(String),
    /// The bytes of an entry could not be written.
    IoWrite(String),
    /// A page image could not be read.
    IoBuffer(String),
    /// The archive writer refused an entry, or could not finish.
    ZipLib(String),
}

/// Entry `i` of the list is packed behind those before it: it is started,
/// and its bytes are few enough to be written.
pub open spec fn entry_packs(
    method: Compression,
    entries: Seq<(Seq<char>, Seq<u8>)>,
    i: int,
) -> bool {
    entry_starts(method, entries.take(i), entries[i].0) && entries[i].1.len() <= MAX_ENTRY_BYTES
}

/// The entries are packed into an archive: every one of them is packed
/// behind those before it, and the archive of them all is finished.
pub open spec fn packs(method: Compression, entries: Seq<(Seq<char>, Seq<u8>)>) -> bool {
    &&& forall|i: int| 0 <= i < entries.len() ==> #[trigger] entry_packs(method, entries, i)
    &&& finished_archive(method, entries) is Some
}

/// Entry `i` is the first of the list that is not packed.
pub open spec fn stops_at(method: Compression, entries: Seq<(Seq<char>, Seq<u8>)>, i: int) -> bool {
    &&& 0 <= i < entries.len()
    &&& !entry_packs(method, entries, i)
    &&& forall|j: int| 0 <= j < i ==> #[trigger] entry_packs(method, entries, j)
}

/// `res` is how the packing of the entries ends: with the bytes of the
/// finished archive where they are packed; with the writer's refusal where
/// the first entry that is not packed is not started, or where the archive
/// is not finished; with the failed write where that entry is started but
/// has too many bytes.
pub open spec fn packed(
    method: Compression,
    entries: Seq<(Seq<char>, Seq<u8>)>,
    res: Result<Vec<u8>, ZipError>,
) -> bool {
    &&& res is Ok <==> packs(method, entries)
    &&& res matches Ok(bytes) ==> finished_archive(method, entries) == Some(bytes@)
    &&& forall|i: int| #[trigger]
        stops_at(method, entries, i) ==> (if entry_starts(method, entries.take(i), entries[i].0) {
            res matches Err(ZipError::IoWrite(_))
        } else {
            res matches Err(ZipError::ZipLib(_))
        })
    &&& (forall|i: int| 0 <= i < entries.len() ==> #[trigger] entry_packs(method, entries, i))
        && finished_archive(method, entries) is None ==> res matches Err(ZipError::ZipLib(_))
}

/// Packs the files into one archive, one entry for each file, under the
/// file's name and in the order of the list, and hands back the archive's
/// bytes. The packing ends at the first entry that the writer does not
/// start or that has too many bytes. Files of the same name cannot be packed
/// together; no files at all are packed into an archive without entries.
pub fn pack_files(files: &Vec<PageImage>, method: Compression) -> (res: Result<Vec<u8>, ZipError>)
    ensures
        packed(method, listing(files@), res),
        names_repeat(listing(files@)) ==> res is Err,
        files@.len() == 0 ==> res is Ok,
{
    let ghost entries = listing(files@);
    let mut archive = archive_new(method);
    let mut i: usize = 0;
    while i < files.len()
        invariant
            0 <= i <= files.len(),
            entries == listing(files@),
            archive_method(archive) == method,
            archive_entries(archive) == entries.take(i as int),
            !names_repeat(entries.take(i as int)),
            forall|j: int| 0 <= j < i ==> #[trigger] entry_packs(method, entries, j),
        decreases files.len() - i,
    {
        let file = &files[i];
        let ghost before = entries.take(i as int);
        let ghost after = entries.take(i + 1);
        assert(entries[i as int] == file@);
        archive = match archive_start_file(archive, file.name.as_str()) {
            Ok(started) => started,
            Err(message) => {
                proof {
                    assert(stops_at(method, entries, i as int));
                    lemma_stops_once(method, entries, i as int);
                }
                return Err(ZipError::ZipLib(message));
            },
        };
        proof {
            assert(!holds_name(before, file@.0));
            assert forall|a: int, b: int| 0 <= a < b < after.len() implies (
            #[trigger] after[a]).0 != (#[trigger] after[b]).0 by {
                if b < i {
                    assert(before[a] == after[a] && before[b] == after[b]);
                } else {
                    assert(before[a] == after[a]);
                }
            }
        }
        archive = match archive_write_all(archive, file.data.as_slice()) {
            Ok(written) => written,
            Err(e) => {
                proof {
                    assert(stops_at(method, entries, i as int));
                    lemma_stops_once(method, entries, i as int);
                }
                return Err(ZipError::IoWrite(e.to_string()));
            },
        };
        assert(archive_entries(archive) =~= after);
        i += 1;
    }
    proof {
        assert(entries.take(i as int) =~= entries);
        assert forall|k: int| !(#[trigger] stops_at(method, entries, k)) by {
            if 0 <= k < entries.len() {
                assert(entry_packs(method, entries, k));
            }
        }
    }
    match archive_finish(archive) {
        Ok(bytes) => Ok(bytes),
        Err(message) => Err(ZipError::ZipLib(message)),
    }
}

/// Only one entry is the first that is not packed.
pub proof fn lemma_stops_once(method: Compression, entries: Seq<(Seq<char>, Seq<u8>)>, i: int)
    requires
        stops_at(method, entries, i),
    ensures
        forall|k: int| #[trigger] stops_at(method, entries, k) ==> k == i,
        !packs(method, entries),
{
    assert forall|k: int| #[trigger] stops_at(method, entries, k) implies k == i by {
        if k < i {
            assert(entry_packs(method, entries, k));
        }
        if i < k {
            assert(entry_packs(method, entries, i));
        }
    }
}

/// A second packing of the same files ends as the first did: with the same
/// bytes, or with an error of the same kind.
pub proof fn lemma_packing_is_repeatable(
    method: Compression,
    entries: Seq<(Seq<char>, Seq<u8>)>,
    first: Result<Vec<u8>, ZipError>,
    second: Result<Vec<u8>, ZipError>,
)
    requires
        packed(method, entries, first),
        packed(method, entries, second),
    ensures
        first is Ok <==> second is Ok,
        first matches Ok(bytes) ==> (second matches Ok(again) && again@ == bytes@),
        first matches Err(ZipError::ZipLib(_)) <==> second matches Err(ZipError::ZipLib(_)),
        first matches Err(ZipError::IoWrite(_)) <==> second matches Err(ZipError::IoWrite(_)),
{
    if !packs(method, entries) {
        if exists|i: int| stops_at(method, entries, i) {
            let i = choose|i: int| stops_at(method, entries, i);
            assert(stops_at(method, entries, i));
        } else {
            lemma_some_entry_stops(method, entries, entries.len() as int);
        }
    }
}

/// Where the first `n` entries are not all packed, one of them is the
/// first that is not.
proof fn lemma_some_entry_stops(method: Compression, entries: Seq<(Seq<char>, Seq<u8>)>, n: int)
    requires
        0 <= n <= entries.len(),
    ensures
        (forall|j: int| 0 <= j < n ==> #[trigger] entry_packs(method, entries, j)) || (
        exists|i: int| i < n && #[trigger] stops_at(method, entries, i)),
    decreases n,
{
    if n > 0 {
        lemma_some_entry_stops(method, entries, n - 1);
        if forall|j: int| 0 <= j < n - 1 ==> #[trigger] entry_packs(method, entries, j) {
            if !entry_packs(method, entries, n - 1) {
                assert(stops_at(method, entries, n - 1));
            }
        }
    }
}

/// Packs the files into one archive, one deflated entry for each file, under
/// the file's name and in the order of the list, and hands back the
/// archive's bytes.
pub fn write_to_zip(files: &Vec<PageImage>) -> (res: Result<Vec<u8>, ZipError>)
    ensures
        packed(Compression::Deflated, listing(files@), res),
        names_repeat(listing(files@)) ==> res is Err,
        files@.len() == 0 ==> res is Ok,
{
    pack_files(files, Compression::Deflated)
}

} // verus!
