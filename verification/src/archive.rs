//! The new archive: the extracted files written, one entry each, into a ZIP
//! archive that is built in memory.

use vstd::prelude::*;
use vstd::string::StringExecFns;
use crate::repack::{entry_name_of, zip_entry_name};

verus! {

/// A `zip::ZipWriter` over a buffer in memory. Its inside is closed to the
/// verifier: all that is known of it is what `written_entries` names.
#[verifier::external_body]
pub struct CbzWriter {
    inner: zip::ZipWriter<std::io::Cursor<Vec<u8>>>,
}

/// The error type of the zip crate, carried through as it comes.
#[verifier::external_type_specification]
#[verifier::external_body]
pub struct ExZipError(zip::result::ZipError);

/// The error type of `std::io`, carried through as it comes.
#[verifier::external_type_specification]
#[verifier::external_body]
pub struct ExIoError(std::io::Error);

/// The entries that a writer has taken so far, in the order in which they
/// were started: each with its name, the code of its compression method and
/// its permission bits as they were handed over, and the bytes written to it.
pub uninterp spec fn written_entries(w: CbzWriter) -> Seq<(Seq<char>, u16, u32, Seq<u8>)>;

/// Whether a writer that has taken `entries` starts one more entry under
/// this name, method code and permission bits.
pub uninterp spec fn start_accepted(
    entries: Seq<(Seq<char>, u16, u32, Seq<u8>)>,
    name: Seq<char>,
    method: u16,
    mode: u32,
) -> bool;

/// Whether a writer that has taken `entries`, the last of them just started,
/// takes `data` as the content of that last entry.
pub uninterp spec fn write_accepted(
    entries: Seq<(Seq<char>, u16, u32, Seq<u8>)>,
    data: Seq<u8>,
) -> bool;

/// The bytes of the archive that a writer completes after it has taken
/// `entries`, or nothing where it cannot complete it.
pub uninterp spec fn finished_archive(entries: Seq<(Seq<char>, u16, u32, Seq<u8>)>) -> Option<
    Seq<u8>,
>;

/// `zip::ZipWriter::new` over an empty buffer in memory: a writer that has
/// taken no entry yet.
#[verifier::external_body]
fn new_writer() -> (w: CbzWriter)
    ensures
        written_entries(w) == Seq::<(Seq<char>, u16, u32, Seq<u8>)>::empty(),
{
    CbzWriter { inner: zip::ZipWriter::new(std::io::Cursor::new(Vec::new())) }
}

/// `zip::ZipWriter::start_file` with the compression method of the given
/// code (`zip::CompressionMethod::from_u16`) and the given permission bits.
/// The writer works on memory alone, so whether it accepts is a function of
/// what it has taken and of the arguments, named by `start_accepted`. Where
/// it accepts, the writer has one more entry, under the name as given and
/// with no content yet. A name longer than 65535 bytes is left out: the
/// crate stores the length in sixteen bits without a test.
#[verifier::external_body]
#[allow(deprecated)]
fn start_entry(w: &mut CbzWriter, name: &str, method: u16, mode: u32) -> (r: Result<
    (),
    zip::result::ZipError,
>)
    requires
        vstd::utf8::encode_utf8(name@).len() <= 65535,
    ensures
        (r is Ok) == start_accepted(written_entries(*old(w)), name@, method, mode),
        r is Ok ==> written_entries(*final(w)) == written_entries(*old(w)).push(
            (name@, method, mode, Seq::<u8>::empty()),
        ),
{
    let options = zip::write::SimpleFileOptions::default().compression_method(
        zip::CompressionMethod::from_u16(method),
    ).unix_permissions(mode);
    w.inner.start_file(name, options)
}

/// `std::io::Write::write_all` on a `zip::ZipWriter` whose last entry was
/// just started. Whether it succeeds is named by `write_accepted`; where it
/// does, the bytes are the content of that entry.
#[verifier::external_body]
fn write_content(w: &mut CbzWriter, data: &[u8]) -> (r: Result<(), std::io::Error>)
    requires
        written_entries(*old(w)).len() > 0,
        written_entries(*old(w)).last().3.len() == 0,
    ensures
        (r is Ok) == write_accepted(written_entries(*old(w)), data@),
        r is Ok ==> written_entries(*final(w)) == written_entries(*old(w)).drop_last().push(
            (
                written_entries(*old(w)).last().0,
                written_entries(*old(w)).last().1,
                written_entries(*old(w)).last().2,
                data@,
            ),
        ),
{
    std::io::Write::write_all(&mut w.inner, data)
}

/// `zip::ZipWriter::finish`: completes the archive and hands out the buffer.
/// The bytes are a function of what the writer has taken, named by
/// `finished_archive`. Nothing is claimed of what a reader makes of them.
#[verifier::external_body]
fn finish_writer(w: CbzWriter) -> (r: Result<Vec<u8>, zip::result::ZipError>)
    ensures
        match r {
            Ok(bytes) => finished_archive(written_entries(w)) == Some(bytes@),
            Err(_) => finished_archive(written_entries(w)) is None,
        },
{
    w.inner.finish().map(|cursor| cursor.into_inner())
}

/// One extracted file: its path relative to the directory it was extracted
/// to, and its bytes.
#[derive(Debug, Clone)]
pub struct ExtractedFile {
    pub relative_path: String,
    pub content: Vec<u8>,
}

/// Why an archive could not be built.
#[derive(Debug, Clone)]
pub enum PackError {
    /// The entry for the file at this index could not be started.
    Start(usize, String),
    /// The content of the file at this index could not be written.
    Write(usize, String),
    /// The archive could not be completed.
    Finish(String),
}

/// The permission bits that every entry gets.
pub const ENTRY_MODE: u32 = 0o755;

/// The code of the compression method that every entry gets: DEFLATE.
pub const DEFLATE_METHOD: u16 = 8;

/// The longest entry name, in bytes, that an archive can hold.
pub const MAX_NAME_BYTES: usize = 65535;

/// The name that an extracted file gets in the archive.
pub open spec fn planned_name(f: ExtractedFile) -> Seq<char> {
    entry_name_of(f.relative_path@)
}

/// The entry that is started for an extracted file: its path with forward
/// slashes, DEFLATE, permission bits 0755, and no content yet.
pub open spec fn started_entry(f: ExtractedFile) -> (Seq<char>, u16, u32, Seq<u8>) {
    (planned_name(f), DEFLATE_METHOD, ENTRY_MODE, Seq::<u8>::empty())
}

/// The entry that stands for an extracted file: as it is started, with the
/// file's bytes unchanged as its content.
pub open spec fn entry_of(f: ExtractedFile) -> (Seq<char>, u16, u32, Seq<u8>) {
    (planned_name(f), DEFLATE_METHOD, ENTRY_MODE, f.content@)
}

/// The entries that stand for the first `n` extracted files, in their order.
pub open spec fn entries_of(files: Seq<ExtractedFile>, n: int) -> Seq<
    (Seq<char>, u16, u32, Seq<u8>),
> {
    Seq::new(n as nat, |i: int| entry_of(files[i]))
}

/// Whether a name is short enough for an archive, as UTF-8.
pub open spec fn name_fits(name: Seq<char>) -> bool {
    vstd::utf8::encode_utf8(name).len() <= MAX_NAME_BYTES
}

/// Whether the entry for the file at index `i` can be started after the
/// files before it were written.
pub open spec fn start_ok(files: Seq<ExtractedFile>, i: int) -> bool {
    name_fits(planned_name(files[i])) && start_accepted(
        entries_of(files, i),
        planned_name(files[i]),
        DEFLATE_METHOD,
        ENTRY_MODE,
    )
}

/// Whether the content of the file at index `i` can be written after its
/// entry was started.
pub open spec fn write_ok(files: Seq<ExtractedFile>, i: int) -> bool {
    write_accepted(entries_of(files, i).push(started_entry(files[i])), files[i].content@)
}

/// Whether the first `n` files can all be written.
pub open spec fn all_written(files: Seq<ExtractedFile>, n: int) -> bool {
    forall|j: int| 0 <= j < n ==> #[trigger] start_ok(files, j) && write_ok(files, j)
}

impl PackError {
    /// The message of the error, with the text that the writer gave.
    pub fn message(&self) -> (msg: String)
        ensures
            msg@ == match *self {
                PackError::Start(_, detail) => "Zip error: "@ + detail@,
                PackError::Write(_, detail) => "Write error: "@ + detail@,
                PackError::Finish(detail) => "Failed to finish zip: "@ + detail@,
            },
    {
        match self {
            PackError::Start(_, detail) => String::from_str("Zip error: ").concat(
                detail.as_str(),
            ),
            PackError::Write(_, detail) => String::from_str("Write error: ").concat(
                detail.as_str(),
            ),
            PackError::Finish(detail) => String::from_str("Failed to finish zip: ").concat(
                detail.as_str(),
            ),
        }
    }
}

/// Writes the extracted files into a new archive in memory, one entry for
/// each file in the order given, each under the file's path with forward
/// slashes, compressed with DEFLATE, with permission bits 0755 and with the
/// file's bytes. It succeeds exactly when the writer takes every file and
/// completes the archive, and the bytes are then those of that archive. An
/// error names the first file that could not be started or written; a name
/// of more than 65535 bytes is refused before the writer sees it.
pub fn pack_entries(files: &Vec<ExtractedFile>) -> (r: Result<Vec<u8>, PackError>)
    ensures
        match r {
            Ok(bytes) => all_written(files@, files@.len() as int) && finished_archive(
                entries_of(files@, files@.len() as int),
            ) == Some(bytes@),
            Err(PackError::Start(i, _)) => i < files@.len() && all_written(files@, i as int)
                && !start_ok(files@, i as int),
            Err(PackError::Write(i, _)) => i < files@.len() && all_written(files@, i as int)
                && start_ok(files@, i as int) && !write_ok(files@, i as int),
            Err(PackError::Finish(_)) => all_written(files@, files@.len() as int)
                && finished_archive(entries_of(files@, files@.len() as int)) is None,
        },
{
    let mut writer = new_writer();
    let n: usize = files.len();
    let mut i: usize = 0;
    assert(entries_of(files@, 0) =~= Seq::<(Seq<char>, u16, u32, Seq<u8>)>::empty());
    while i < n
        invariant
            i <= n,
            n == files@.len(),
            all_written(files@, i as int),
            written_entries(writer) == entries_of(files@, i as int),
        decreases n - i,
    {
        let file = &files[i];
        let name = zip_entry_name(file.relative_path.as_str());
        if name.as_str().as_bytes().len() > MAX_NAME_BYTES {
            return Err(PackError::Start(i, String::from_str("File name is too long")));
        }
        assert(name_fits(planned_name(files@[i as int])));
        match start_entry(&mut writer, name.as_str(), DEFLATE_METHOD, ENTRY_MODE) {
            Ok(()) => {},
            Err(e) => {
                return Err(PackError::Start(i, e.to_string()));
            },
        }
        let ghost before = entries_of(files@, i as int);
        let ghost started = before.push(started_entry(files@[i as int]));
        assert(written_entries(writer) == started);
        match write_content(&mut writer, file.content.as_slice()) {
            Ok(()) => {},
            Err(e) => {
                return Err(PackError::Write(i, e.to_string()));
            },
        }
        proof {
            assert(started.drop_last() =~= before);
            assert(before.push(entry_of(files@[i as int])) =~= entries_of(files@, i + 1));
        }
        i += 1;
    }
    match finish_writer(writer) {
        Ok(bytes) => Ok(bytes),
        Err(e) => Err(PackError::Finish(e.to_string())),
    }
}

} // verus!
