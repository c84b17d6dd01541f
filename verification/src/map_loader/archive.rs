//! Reading a map archive: the zip entries, what each is used for, and the map they make up.
//! Writing the map's files is left to the caller.

use std::io::Cursor;
use std::io::Read;
use vstd::prelude::*;
use zip::ZipArchive;

use crate::map_loader::service::{
    archive_entry_role, entry_role_of, map_view, opt_view, CustomMapInfo, EntryRole,
};

verus! {

/// A zip archive read from memory.
#[verifier::external_type_specification]
#[verifier::external_body]
#[verifier::reject_recursive_types(R)]
pub struct ExZipArchive<R>(zip::ZipArchive<R>);

/// A reader over bytes held in memory.
#[verifier::external_type_specification]
#[verifier::external_body]
#[verifier::reject_recursive_types(T)]
pub struct ExCursor<T>(std::io::Cursor<T>);

/// One entry of an archive: its file name, its extension and its unpacked bytes.
#[derive(Debug)]
pub struct ArchiveEntry {
    pub file_name: String,
    pub extension: Option<String>,
    pub data: Vec<u8>,
}

/// The model of an entry.
pub open spec fn entry_view(e: ArchiveEntry) -> (Seq<char>, Option<Seq<char>>, Seq<u8>) {
    (e.file_name@, opt_view(e.extension), e.data@)
}

/// Whether `ZipArchive::new` reads these bytes as an archive.
pub uninterp spec fn zip_opens(bytes: Seq<u8>) -> bool;

/// The bytes an opened archive reads from.
pub uninterp spec fn zip_source(archive: ZipArchive<Cursor<Vec<u8>>>) -> Seq<u8>;

/// How many entries `ZipArchive::len` counts in an archive of these bytes.
pub uninterp spec fn zip_entry_count(bytes: Seq<u8>) -> nat;

/// What `ZipArchive::by_index` gives for the `i`-th entry of an archive of these bytes, read
/// to its end: `None` when reading fails; `Some(None)` for an entry without a usable name
/// (no enclosed path, or a file name that is not text); otherwise the entry.
pub uninterp spec fn zip_entry_at(bytes: Seq<u8>, i: nat) -> Option<
    Option<(Seq<char>, Option<Seq<char>>, Seq<u8>)>,
>;

/// What `serde_json::from_slice` reads from a map's `info.json`: its `author` and `desc` texts,
/// or `None` when the bytes are not such an object.
pub uninterp spec fn info_json_of(data: Seq<u8>) -> Option<(Seq<char>, Seq<char>)>;

/// Opens an archive over bytes (`ZipArchive::new` on a `Cursor`). Whether it opens is named
/// by `zip_opens`; the error's text is not stated.
#[verifier::external_body]
fn zip_open(bytes: Vec<u8>) -> (r: Result<ZipArchive<Cursor<Vec<u8>>>, String>)
    ensures
        r is Ok == zip_opens(bytes@),
        r matches Ok(a) ==> zip_source(a) == bytes@,
{
    match ZipArchive::new(Cursor::new(bytes)) {
        Ok(a) => Ok(a),
        Err(e) => Err(e.to_string()),
    }
}

/// The number of entries of an archive (`ZipArchive::len`).
#[verifier::external_body]
fn zip_len(archive: &ZipArchive<Cursor<Vec<u8>>>) -> (r: usize)
    ensures
        r == zip_entry_count(zip_source(*archive)),
{
    archive.len()
}

/// The `i`-th entry of an archive (`ZipArchive::by_index`), with the file name and extension
/// of its enclosed path and its bytes read to the end. The error's text is not stated.
#[verifier::external_body]
fn zip_entry(archive: &mut ZipArchive<Cursor<Vec<u8>>>, i: usize) -> (r: Result<Option<ArchiveEntry>, String>)
    ensures
        zip_source(*final(archive)) == zip_source(*old(archive)),
        zip_entry_at(zip_source(*old(archive)), i as nat) == match r {
            Err(_) => None,
            Ok(None) => Some(None),
            Ok(Some(e)) => Some(Some(entry_view(e))),
        },
{
    let mut file = match archive.by_index(i) {
        Ok(f) => f,
        Err(e) => return Err(e.to_string()),
    };
    let Some(path) = file.enclosed_name() else { return Ok(None) };
    let Some(file_name) = path.file_name().and_then(|f| f.to_str()).map(str::to_owned) else { return Ok(None) };
    let extension = path.extension().and_then(|e| e.to_str()).map(str::to_owned);
    let mut data = Vec::new();
    file.read_to_end(&mut data).map_err(|e| e.to_string())?;
    Ok(Some(ArchiveEntry { file_name, extension, data }))
}

/// The author and description of a map's `info.json` (`serde_json::from_slice`, taking the
/// `author` and `desc` texts). The error's text is not stated.
#[verifier::external_body]
fn parse_info_json(data: &Vec<u8>) -> (r: Result<(String, String), String>)
    ensures
        info_json_of(data@) == match r {
            Ok((a, d)) => Some((a@, d@)),
            Err(_) => None,
        },
{
    let v: serde_json::Value = match serde_json::from_slice(data) {
        Ok(v) => v,
        Err(e) => return Err(e.to_string()),
    };
    match (v.get("author").and_then(|a| a.as_str()), v.get("desc").and_then(|d| d.as_str())) {
        (Some(a), Some(d)) => Ok((a.to_owned(), d.to_owned())),
        _ => Err(String::from("info.json needs the texts `author` and `desc`")),
    }
}

/// Why an import failed.
#[derive(Debug)]
pub enum ImportError {
    /// The archive could not be read; the reader's message.
    Archive(String),
    /// The map's `info.json` could not be read; the reader's message.
    InfoJson(String),
    /// The archive holds no package data.
    NoPackage,
}

impl ImportError {
    /// The text shown for the error.
    pub fn message(&self) -> (r: String)
        ensures
            self is NoPackage ==> r@ == "failed to load package data"@,
    {
        match self {
            ImportError::Archive(m) => m.clone(),
            ImportError::InfoJson(m) => m.clone(),
            ImportError::NoPackage => "failed to load package data".to_owned(),
        }
    }
}

/// What an import has gathered so far: the map's name, author and description, the package
/// and the preview picture.
pub type Gathered = ((Seq<char>, Option<Seq<char>>, Option<Seq<char>>), Seq<u8>, Seq<u8>);

/// The kinds of failure, as a model.
#[derive(PartialEq, Eq, Structural)]
pub enum ImportFailure {
    Archive,
    InfoJson,
    NoPackage,
}

/// The model of an error.
pub open spec fn failure_of(e: ImportError) -> ImportFailure {
    match e {
        ImportError::Archive(_) => ImportFailure::Archive,
        ImportError::InfoJson(_) => ImportFailure::InfoJson,
        ImportError::NoPackage => ImportFailure::NoPackage,
    }
}

/// One entry taken in: `info.json` sets the author and description, a package replaces the
/// package kept so far, `preview.jpg` is appended to the picture; other entries and entries
/// without a usable name change nothing. An entry that cannot be read, or an `info.json` that
/// cannot be parsed, fails the import.
pub open spec fn take_entry(acc: Gathered, e: Option<Option<(Seq<char>, Option<Seq<char>>, Seq<u8>)>>) -> Result<
    Gathered,
    ImportFailure,
> {
    match e {
        None => Err(ImportFailure::Archive),
        Some(None) => Ok(acc),
        Some(Some((name, ext, data))) => match entry_role_of(name, ext) {
            EntryRole::Info => match info_json_of(data) {
                Some((a, d)) => Ok(((acc.0.0, Some(a), Some(d)), acc.1, acc.2)),
                None => Err(ImportFailure::InfoJson),
            },
            EntryRole::Package => Ok((acc.0, data, acc.2)),
            EntryRole::Preview => Ok((acc.0, acc.1, acc.2 + data)),
            EntryRole::Other => Ok(acc),
        },
    }
}

/// The first `n` entries of an archive of `bytes` taken in, in order, from `start`.
pub open spec fn take_entries(start: Gathered, bytes: Seq<u8>, n: nat) -> Result<Gathered, ImportFailure>
    decreases n,
{
    if n == 0 {
        Ok(start)
    } else {
        match take_entries(start, bytes, (n - 1) as nat) {
            Err(f) => Err(f),
            Ok(acc) => take_entry(acc, zip_entry_at(bytes, (n - 1) as nat)),
        }
    }
}

/// Once an entry fails the import, taking in more entries gives the same failure.
proof fn lemma_failure_sticks(start: Gathered, bytes: Seq<u8>, k: nat, n: nat)
    requires
        k <= n,
        take_entries(start, bytes, k) is Err,
    ensures
        take_entries(start, bytes, n) == take_entries(start, bytes, k),
    decreases n - k,
{
    if k < n {
        assert(take_entries(start, bytes, k + 1) == take_entries(start, bytes, k));
        lemma_failure_sticks(start, bytes, k + 1, n);
    }
}

/// What importing an archive gives: the map record with what `info.json` said, the package and
/// the picture (the default picture, then any `preview.jpg` of the archive); an error when the
/// archive cannot be read, an entry fails, or no package data was found.
pub open spec fn import_of(
    info: (Seq<char>, Option<Seq<char>>, Option<Seq<char>>),
    bytes: Seq<u8>,
    default_preview: Seq<u8>,
) -> Result<Gathered, ImportFailure> {
    if !zip_opens(bytes) {
        Err(ImportFailure::Archive)
    } else {
        match take_entries((info, Seq::empty(), default_preview), bytes, zip_entry_count(bytes)) {
            Err(f) => Err(f),
            Ok(g) => if g.1.len() == 0 {
                Err(ImportFailure::NoPackage)
            } else {
                Ok(g)
            },
        }
    }
}

/// A map unpacked from an archive: its record, its package and its picture (maybe empty).
#[derive(Debug)]
pub struct ImportedMap {
    pub info: CustomMapInfo,
    pub package: Vec<u8>,
    pub preview: Vec<u8>,
}

/// The model of an unpacked map.
pub open spec fn imported_view(m: ImportedMap) -> Gathered {
    (map_view(m.info), m.package@, m.preview@)
}

/// Appends bytes.
fn append_bytes(out: &mut Vec<u8>, data: &Vec<u8>)
    ensures
        final(out)@ == old(out)@ + data@,
{
    let mut i: usize = 0;
    while i < data.len()
        invariant
            i <= data@.len(),
            out@ == old(out)@ + data@.take(i as int),
        decreases data@.len() - i,
    {
        out.push(data[i]);
        assert(data@.take(i + 1) =~= data@.take(i as int).push(data@[i as int]));
        i = i + 1;
    }
    assert(data@.take(i as int) =~= data@);
}

/// Unpacks a map archive held in memory (see `import_of`). `default_preview` is the picture
/// known before the archive is read (empty when there is none).
pub fn import_archive_bytes(info: CustomMapInfo, archive_bytes: Vec<u8>, default_preview: Vec<u8>) -> (r: Result<
    ImportedMap,
    ImportError,
>)
    ensures
        match (r, import_of(map_view(info), archive_bytes@, default_preview@)) {
            (Ok(m), Ok(g)) => imported_view(m) == g,
            (Err(e), Err(f)) => failure_of(e) == f,
            _ => false,
        },
{
    let ghost bytes = archive_bytes@;
    let ghost start: Gathered = (map_view(info), Seq::empty(), default_preview@);
    let mut archive = match zip_open(archive_bytes) {
        Ok(a) => a,
        Err(m) => {
            return Err(ImportError::Archive(m));
        },
    };
    let n = zip_len(&archive);
    let mut gathered = ImportedMap { info, package: Vec::new(), preview: default_preview };
    let mut i: usize = 0;
    while i < n
        invariant
            i <= n,
            n == zip_entry_count(bytes),
            zip_opens(bytes),
            zip_source(archive) == bytes,
            take_entries(start, bytes, i as nat) == Ok::<Gathered, ImportFailure>(imported_view(gathered)),
            start == (map_view(info), Seq::<u8>::empty(), default_preview@),
            bytes == archive_bytes@,
        decreases n - i,
    {
        let entry = match zip_entry(&mut archive, i) {
            Ok(e) => e,
            Err(m) => {
                proof {
                    lemma_failure_sticks(start, bytes, (i + 1) as nat, n as nat);
                }
                return Err(ImportError::Archive(m));
            },
        };
        match take_archive_entry(&mut gathered, entry) {
            Ok(()) => {},
            Err(e) => {
                proof {
                    lemma_failure_sticks(start, bytes, (i + 1) as nat, n as nat);
                }
                return Err(e);
            },
        }
        i = i + 1;
    }
    if gathered.package.len() == 0 {
        return Err(ImportError::NoPackage);
    }
    Ok(gathered)
}

/// The model of an entry as the archive reader gives it: `None` for one without a usable name.
pub open spec fn read_entry_view(entry: Option<ArchiveEntry>) -> Option<(Seq<char>, Option<Seq<char>>, Seq<u8>)> {
    match entry {
        Some(e) => Some(entry_view(e)),
        None => None,
    }
}

/// Takes one read entry into what an import has gathered (see `take_entry`).
pub fn take_archive_entry(map: &mut ImportedMap, entry: Option<ArchiveEntry>) -> (r: Result<(), ImportError>)
    ensures
        match (r, take_entry(imported_view(*old(map)), Some(read_entry_view(entry)))) {
            (Ok(()), Ok(g)) => imported_view(*final(map)) == g,
            (Err(e), Err(f)) => failure_of(e) == f,
            _ => false,
        },
{
    match entry {
        None => Ok(()),
        Some(e) => {
            let extension: Option<&str> = match &e.extension {
                Some(x) => Some(x.as_str()),
                None => None,
            };
            match archive_entry_role(e.file_name.as_str(), extension) {
                EntryRole::Info => match parse_info_json(&e.data) {
                    Ok((author, desc)) => {
                        map.info = CustomMapInfo {
                            id: map.info.id.clone(),
                            author: Some(author),
                            description: Some(desc),
                        };
                        Ok(())
                    },
                    Err(m) => Err(ImportError::InfoJson(m)),
                },
                EntryRole::Package => {
                    map.package = e.data;
                    Ok(())
                },
                EntryRole::Preview => {
                    append_bytes(&mut map.preview, &e.data);
                    Ok(())
                },
                EntryRole::Other => Ok(()),
            }
        },
    }
}

} // verus!
