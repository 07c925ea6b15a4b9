use vstd::prelude::*;
use vstd::utf8::{valid_utf8, decode_utf8, encode_utf8};
use crate::error::{OpsError, ErrorView};

verus! {

/// The packaging of a release archive.
#[derive(Clone, Copy, Debug, PartialEq, Eq, Structural)]
pub enum ArchiveKind {
    TarGz,
    Zip,
}

/// The file name of an archive entry, as the archive records it.
pub enum EntryName {
    /// The entry's path would leave the extraction directory.
    Unenclosed,
    /// The entry's path has no file name.
    Missing,
    /// The file name's bytes, which need not be UTF-8.
    Bytes(Vec<u8>),
}

/// An archive entry as it is reached when the entries are read in order.
pub enum ArchiveSlot {
    /// Reading the entry or its path failed with this message.
    Failed(String),
    Entry(EntryName),
}

pub enum NameView {
    Unenclosed,
    Missing,
    Bytes(Seq<u8>),
}

pub enum SlotView {
    Failed(Seq<char>),
    Entry(NameView),
}

impl View for ArchiveSlot {
    type V = SlotView;

    open spec fn view(&self) -> SlotView {
        match self {
            ArchiveSlot::Failed(m) => SlotView::Failed(m@),
            ArchiveSlot::Entry(EntryName::Unenclosed) => SlotView::Entry(NameView::Unenclosed),
            ArchiveSlot::Entry(EntryName::Missing) => SlotView::Entry(NameView::Missing),
            ArchiveSlot::Entry(EntryName::Bytes(b)) => SlotView::Entry(NameView::Bytes(b@)),
        }
    }
}

/// The number of entries that iterating a gzip-compressed tar archive
/// yields (a failed entry ends the iteration and is counted), or the message
/// of the failure to start iterating.
pub uninterp spec fn tar_gz_count(archive: Seq<u8>) -> Result<usize, Seq<char>>;

/// The `index`-th entry of a gzip-compressed tar archive.
pub uninterp spec fn tar_gz_slot(archive: Seq<u8>, index: int) -> SlotView;

/// The contents of the `index`-th entry of a gzip-compressed tar archive.
pub uninterp spec fn tar_gz_contents(archive: Seq<u8>, index: int) -> Result<Seq<u8>, Seq<char>>;

/// The number of entries of a zip archive, or the message of the failure to open it.
pub uninterp spec fn zip_count(archive: Seq<u8>) -> Result<usize, Seq<char>>;

/// The `index`-th entry of a zip archive.
pub uninterp spec fn zip_slot(archive: Seq<u8>, index: int) -> SlotView;

/// The contents of the `index`-th entry of a zip archive.
pub uninterp spec fn zip_contents(archive: Seq<u8>, index: int) -> Result<Seq<u8>, Seq<char>>;

/// `tar::Archive::entries` over a `flate2::read::GzDecoder`, counted with
/// `Iterator::count`. The count, or the error's message, is named `tar_gz_count`.
#[verifier::external_body]
fn tar_gz_entry_count(z: &[u8]) -> (res: Result<usize, String>)
    ensures
        match res {
            Ok(n) => tar_gz_count(z@) == Ok::<usize, Seq<char>>(n),
            Err(m) => tar_gz_count(z@) == Err::<usize, Seq<char>>(m@),
        },
{
    match tar::Archive::new(flate2::read::GzDecoder::new(z)).entries() {
        Ok(entries) => Ok(entries.count()),
        Err(err) => Err(err.to_string()),
    }
}

/// The `index`-th item of `tar::Archive::entries` over a
/// `flate2::read::GzDecoder`: the error's message, or the file name of
/// `tar::Entry::path` as raw bytes. The result is named `tar_gz_slot`. The
/// index is below the count, so the item exists.
#[verifier::external_body]
fn tar_gz_entry(z: &[u8], index: usize) -> (res: ArchiveSlot)
    requires
        tar_gz_count(z@) matches Ok(n) && index < n,
    ensures
        res@ == tar_gz_slot(z@, index as int),
{
    let mut archive = tar::Archive::new(flate2::read::GzDecoder::new(z));
    let item = archive.entries().unwrap().nth(index).unwrap();
    match item {
        Err(err) => ArchiveSlot::Failed(err.to_string()),
        Ok(entry) => match entry.path() {
            Err(err) => ArchiveSlot::Failed(err.to_string()),
            Ok(path) => match path.file_name() {
                None => ArchiveSlot::Entry(EntryName::Missing),
                Some(name) => ArchiveSlot::Entry(EntryName::Bytes(name.as_encoded_bytes().to_vec())),
            },
        },
    }
}

/// `std::io::Read::read_to_end` on the `index`-th `tar::Entry` of a
/// `flate2::read::GzDecoder`: the contents, or the error's message, named
/// `tar_gz_contents`. The entry was read without error before.
#[verifier::external_body]
fn tar_gz_entry_contents(z: &[u8], index: usize) -> (res: Result<Vec<u8>, String>)
    requires
        tar_gz_count(z@) matches Ok(n) && index < n,
        tar_gz_slot(z@, index as int) is Entry,
    ensures
        match res {
            Ok(v) => tar_gz_contents(z@, index as int) == Ok::<Seq<u8>, Seq<char>>(v@),
            Err(m) => tar_gz_contents(z@, index as int) == Err::<Seq<u8>, Seq<char>>(m@),
        },
{
    let mut archive = tar::Archive::new(flate2::read::GzDecoder::new(z));
    let mut entry = archive.entries().unwrap().nth(index).unwrap().unwrap();
    let mut contents = Vec::new();
    match std::io::Read::read_to_end(&mut entry, &mut contents) {
        Ok(_) => Ok(contents),
        Err(err) => Err(err.to_string()),
    }
}

/// `zip::ZipArchive::new` over the bytes, then `ZipArchive::len`; the count,
/// or the error's message, is named `zip_count`.
#[verifier::external_body]
fn zip_entry_count(z: &[u8]) -> (res: Result<usize, String>)
    ensures
        match res {
            Ok(n) => zip_count(z@) == Ok::<usize, Seq<char>>(n),
            Err(m) => zip_count(z@) == Err::<usize, Seq<char>>(m@),
        },
{
    match zip::ZipArchive::new(std::io::Cursor::new(z)) {
        Ok(archive) => Ok(archive.len()),
        Err(err) => Err(err.to_string()),
    }
}

/// `zip::ZipArchive::by_index`: the error's message, or whether the entry's
/// `enclosed_name` exists and the raw bytes of its file name. The result is
/// named `zip_slot`. The archive opened before and the index is below its count.
#[verifier::external_body]
fn zip_entry(z: &[u8], index: usize) -> (res: ArchiveSlot)
    requires
        zip_count(z@) matches Ok(n) && index < n,
    ensures
        res@ == zip_slot(z@, index as int),
{
    let mut archive = zip::ZipArchive::new(std::io::Cursor::new(z)).unwrap();
    let slot = match archive.by_index(index) {
        Err(err) => ArchiveSlot::Failed(err.to_string()),
        Ok(file) => match file.enclosed_name() {
            None => ArchiveSlot::Entry(EntryName::Unenclosed),
            Some(path) => match path.file_name() {
                None => ArchiveSlot::Entry(EntryName::Missing),
                Some(name) => ArchiveSlot::Entry(EntryName::Bytes(name.as_encoded_bytes().to_vec())),
            },
        },
    };
    slot
}

/// `std::io::Read::read_to_end` on `zip::ZipArchive::by_index`: the contents,
/// or the error's message, named `zip_contents`. The entry was opened
/// without error before.
#[verifier::external_body]
fn zip_entry_contents(z: &[u8], index: usize) -> (res: Result<Vec<u8>, String>)
    requires
        zip_count(z@) matches Ok(n) && index < n,
        zip_slot(z@, index as int) is Entry,
    ensures
        match res {
            Ok(v) => zip_contents(z@, index as int) == Ok::<Seq<u8>, Seq<char>>(v@),
            Err(m) => zip_contents(z@, index as int) == Err::<Seq<u8>, Seq<char>>(m@),
        },
{
    let mut archive = zip::ZipArchive::new(std::io::Cursor::new(z)).unwrap();
    let mut file = archive.by_index(index).unwrap();
    let mut contents = Vec::new();
    match std::io::Read::read_to_end(&mut file, &mut contents) {
        Ok(_) => Ok(contents),
        Err(err) => Err(err.to_string()),
    }
}

/// `String::from_utf8`: the text when the bytes are UTF-8, none otherwise.
#[verifier::external_body]
fn utf8_string(bytes: Vec<u8>) -> (res: Option<String>)
    ensures
        res is Some <==> valid_utf8(bytes@),
        res matches Some(s) ==> s@ == decode_utf8(bytes@),
{
    String::from_utf8(bytes).ok()
}

/// `p` is a prefix of `b`.
pub open spec fn is_byte_prefix(p: Seq<u8>, b: Seq<u8>) -> bool {
    p.len() <= b.len() && b.take(p.len() as int) == p
}

pub fn starts_with(b: &[u8], p: &[u8]) -> (res: bool)
    ensures
        res == is_byte_prefix(p@, b@),
{
    if p.len() > b.len() {
        return false;
    }
    let mut i: usize = 0;
    while i < p.len()
        invariant
            p@.len() <= b@.len(),
            i <= p@.len(),
            forall|j: int| 0 <= j < i ==> b@[j] == p@[j],
        decreases p@.len() - i,
    {
        if b[i] != p[i] {
            assert(b@.take(p@.len() as int)[i as int] != p@[i as int]);
            return false;
        }
        i = i + 1;
    }
    assert(b@.take(p@.len() as int) =~= p@);
    true
}

pub open spec fn entry_count(kind: ArchiveKind, z: Seq<u8>) -> Result<usize, Seq<char>> {
    match kind {
        ArchiveKind::TarGz => tar_gz_count(z),
        ArchiveKind::Zip => zip_count(z),
    }
}

pub open spec fn entry_slot(kind: ArchiveKind, z: Seq<u8>, i: int) -> SlotView {
    match kind {
        ArchiveKind::TarGz => tar_gz_slot(z, i),
        ArchiveKind::Zip => zip_slot(z, i),
    }
}

pub open spec fn entry_contents(kind: ArchiveKind, z: Seq<u8>, i: int) -> Result<Seq<u8>, Seq<char>> {
    match kind {
        ArchiveKind::TarGz => tar_gz_contents(z, i),
        ArchiveKind::Zip => zip_contents(z, i),
    }
}

/// An entry that the search passes over: its file name is UTF-8 and does
/// not start with `prefix`.
pub open spec fn passes(s: SlotView, prefix: Seq<u8>) -> bool {
    s matches SlotView::Entry(NameView::Bytes(b)) && valid_utf8(b) && !is_byte_prefix(prefix, b)
}

/// `k` is the first entry below `n` that the search stops at.
pub open spec fn first_stop(kind: ArchiveKind, z: Seq<u8>, prefix: Seq<u8>, n: int, k: int) -> bool {
    &&& 0 <= k < n
    &&& !passes(entry_slot(kind, z, k), prefix)
    &&& forall|j: int| 0 <= j < k ==> passes(#[trigger] entry_slot(kind, z, j), prefix)
}

/// What the search gives at the entry it stops at: the entry when its name
/// starts with the prefix, otherwise the reason it cannot go on.
pub open spec fn stop_outcome(s: SlotView, contents: Result<Seq<u8>, Seq<char>>) -> Result<(Seq<char>, Seq<u8>), ErrorView> {
    match s {
        SlotView::Failed(m) => Err(ErrorView::Other(m)),
        SlotView::Entry(NameView::Unenclosed) => Err(ErrorView::UnenclosedPath),
        SlotView::Entry(NameView::Missing) => Err(ErrorView::MissingFileName),
        SlotView::Entry(NameView::Bytes(b)) => if !valid_utf8(b) {
            Err(ErrorView::FileNameEncoding)
        } else {
            match contents {
                Ok(c) => Ok((decode_utf8(b), c)),
                Err(m) => Err(ErrorView::Other(m)),
            }
        },
    }
}

/// The executable that a release archive holds: the first entry, in archive
/// order, whose file name starts with `e_name`, with its contents. The search
/// stops with an error at the first entry that fails to read or whose file
/// name is absent, unsafe or not UTF-8.
pub open spec fn unzip_outcome(kind: ArchiveKind, z: Seq<u8>, e_name: Seq<char>) -> Result<(Seq<char>, Seq<u8>), ErrorView> {
    let prefix = encode_utf8(e_name);
    match entry_count(kind, z) {
        Err(m) => Err(ErrorView::Other(m)),
        Ok(n) => if exists|k: int| first_stop(kind, z, prefix, n as int, k) {
            let k = choose|k: int| first_stop(kind, z, prefix, n as int, k);
            stop_outcome(entry_slot(kind, z, k), entry_contents(kind, z, k))
        } else {
            Err(ErrorView::ExecutableNotFound(e_name))
        },
    }
}

fn count_entries(z: &[u8], kind: ArchiveKind) -> (res: Result<usize, String>)
    ensures
        match res {
            Ok(n) => entry_count(kind, z@) == Ok::<usize, Seq<char>>(n),
            Err(m) => entry_count(kind, z@) == Err::<usize, Seq<char>>(m@),
        },
{
    match kind {
        ArchiveKind::TarGz => tar_gz_entry_count(z),
        ArchiveKind::Zip => zip_entry_count(z),
    }
}

fn read_entry(z: &[u8], kind: ArchiveKind, index: usize) -> (res: ArchiveSlot)
    requires
        entry_count(kind, z@) matches Ok(n) && index < n,
    ensures
        res@ == entry_slot(kind, z@, index as int),
{
    match kind {
        ArchiveKind::TarGz => tar_gz_entry(z, index),
        ArchiveKind::Zip => zip_entry(z, index),
    }
}

fn read_contents(z: &[u8], kind: ArchiveKind, index: usize) -> (res: Result<Vec<u8>, String>)
    requires
        entry_count(kind, z@) matches Ok(n) && index < n,
        entry_slot(kind, z@, index as int) is Entry,
    ensures
        match res {
            Ok(v) => entry_contents(kind, z@, index as int) == Ok::<Seq<u8>, Seq<char>>(v@),
            Err(m) => entry_contents(kind, z@, index as int) == Err::<Seq<u8>, Seq<char>>(m@),
        },
{
    match kind {
        ArchiveKind::TarGz => tar_gz_entry_contents(z, index),
        ArchiveKind::Zip => zip_entry_contents(z, index),
    }
}

/// Finds the executable named `e_name` in a release archive and returns its
/// file name and contents (see `unzip_outcome`).
pub fn unzip(z: &[u8], e_name: &str, kind: ArchiveKind) -> (res: Result<(String, Vec<u8>), OpsError>)
    ensures
        match res {
            Ok((name, contents)) => unzip_outcome(kind, z@, e_name@) == Ok::<(Seq<char>, Seq<u8>), ErrorView>((name@, contents@)),
            Err(e) => unzip_outcome(kind, z@, e_name@) == Err::<(Seq<char>, Seq<u8>), ErrorView>(e@),
        },
{
    let prefix = e_name.as_bytes();
    let n = match count_entries(z, kind) {
        Ok(n) => n,
        Err(m) => { return Err(OpsError::Other(m)); },
    };
    let mut i: usize = 0;
    while i < n
        invariant
            entry_count(kind, z@) == Ok::<usize, Seq<char>>(n),
            prefix@ == encode_utf8(e_name@),
            i <= n,
            forall|j: int| 0 <= j < i ==> passes(#[trigger] entry_slot(kind, z@, j), prefix@),
        decreases n - i,
    {
        let slot = read_entry(z, kind, i);
        let ghost k = i as int;
        let ghost stop = first_stop(kind, z@, prefix@, n as int, k);
        match slot {
            ArchiveSlot::Failed(m) => {
                assert(stop);
                return Err(OpsError::Other(m));
            },
            ArchiveSlot::Entry(EntryName::Unenclosed) => {
                assert(stop);
                return Err(OpsError::UnenclosedPath);
            },
            ArchiveSlot::Entry(EntryName::Missing) => {
                assert(stop);
                return Err(OpsError::MissingFileName);
            },
            ArchiveSlot::Entry(EntryName::Bytes(b)) => {
                let matched = starts_with(b.as_slice(), prefix);
                match utf8_string(b) {
                    None => {
                        assert(stop);
                        return Err(OpsError::FileNameEncoding);
                    },
                    Some(name) => {
                        if matched {
                            assert(stop);
                            let contents = match read_contents(z, kind, i) {
                                Ok(c) => c,
                                Err(m) => { return Err(OpsError::Other(m)); },
                            };
                            return Ok((name, contents));
                        }
                    },
                }
            },
        }
        i = i + 1;
    }
    Err(OpsError::ExecutableNotFound(e_name.to_owned()))
}

} // verus!
