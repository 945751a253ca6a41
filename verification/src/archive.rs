//! Decoding an archive: a gzip-compressed stream holding a sequential
//! container of entries, each with a relative path, a type, content bytes,
//! and, for a link, its target.  The decompression and the container
//! parsing are the work of outside libraries; everything around them is
//! verified against the names given to their results.

use vstd::prelude::*;

verus! {

/// What decompressing a gzip stream yields: the decompressed bytes, or
/// nothing when the stream is malformed.  The result depends on the input
/// bytes alone.
pub uninterp spec fn gunzip_of(data: Seq<u8>) -> Option<Seq<u8>>;

/// What parsing a container stream yields: for each entry in order, its
/// relative path, its raw type byte, its content bytes, and its link
/// target; or nothing when the entries cannot be read.  The result depends
/// on the input bytes alone.
pub uninterp spec fn tar_entries_of(data: Seq<u8>) -> Option<
    Seq<(Seq<char>, u8, Seq<u8>, Option<Seq<char>>)>,
>;

/// Relies on flate2's read::GzDecoder: reading it to the end decompresses
/// the single-member gzip stream `data`, or fails when the stream is
/// malformed.
#[verifier::external_body]
fn gunzip(data: &Vec<u8>) -> (r: Option<Vec<u8>>)
    ensures
        r is Some <==> gunzip_of(data@) is Some,
        r matches Some(v) ==> gunzip_of(data@) == Some(v@),
{
    let mut out: Vec<u8> = Vec::new();
    let mut decoder = flate2::read::GzDecoder::new(data.as_slice());
    match std::io::Read::read_to_end(&mut decoder, &mut out) {
        Ok(_) => Some(out),
        Err(_) => None,
    }
}

/// Relies on tar::Archive: iterating its entries yields each entry's
/// relative path, type byte, content bytes, and link target, in the order
/// they stand in the stream; an unreadable entry, or a path or link that is
/// not UTF-8, fails the whole parse.
#[verifier::external_body]
fn untar(data: &Vec<u8>) -> (r: Option<Vec<(String, u8, Vec<u8>, Option<String>)>>)
    ensures
        r is Some <==> tar_entries_of(data@) is Some,
        r matches Some(v) ==> tar_entries_of(data@) == Some(v.deep_view()),
{
    let mut out = Vec::new();
    let mut archive = tar::Archive::new(data.as_slice());
    for entry in archive.entries().ok()? {
        let mut entry = entry.ok()?;
        let path = String::from_utf8(entry.path_bytes().into_owned()).ok()?;
        let link = match entry.link_name_bytes() {
            Some(b) => Some(String::from_utf8(b.into_owned()).ok()?),
            None => None,
        };
        let kind = entry.header().entry_type().as_byte();
        let mut bytes = Vec::new();
        std::io::Read::read_to_end(&mut entry, &mut bytes).ok()?;
        out.push((path, kind, bytes, link));
    }
    Some(out)
}

/// The type of an entry of the container.
#[derive(Clone, Copy, Debug, PartialEq, Eq, Structural)]
pub enum EntryKind {
    File,
    Directory,
    Symlink,
    Other,
}

/// The entry type encoded by the container's raw type byte: `0` and `'0'`
/// are a regular file, `'5'` a directory, `'2'` a symbolic link; everything
/// else is kept but not reproduced.
pub open spec fn kind_of_byte(b: u8) -> EntryKind {
    if b == 0 || b == 48 {
        EntryKind::File
    } else if b == 53 {
        EntryKind::Directory
    } else if b == 50 {
        EntryKind::Symlink
    } else {
        EntryKind::Other
    }
}

/// One entry of an extracted archive: its path relative to the extraction
/// destination, its type, its content bytes, and, for a link, its target.
#[derive(Clone, Debug, PartialEq, Eq)]
pub struct ArchiveEntry {
    pub path: String,
    pub kind: EntryKind,
    pub data: Vec<u8>,
    pub link_target: Option<String>,
}

impl ArchiveEntry {
    /// Whether this entry carries over the raw entry `raw`.
    pub open spec fn models(self, raw: (Seq<char>, u8, Seq<u8>, Option<Seq<char>>)) -> bool {
        &&& self.path@ == raw.0
        &&& self.kind == kind_of_byte(raw.1)
        &&& self.data@ == raw.2
        &&& self.link_target.deep_view() == raw.3
    }
}

/// Why an archive could not be extracted.
#[derive(Clone, Copy, Debug, PartialEq, Eq, Structural)]
pub enum ExtractError {
    /// The compressed stream is malformed.
    BadGzip,
    /// The container's entries cannot be read.
    BadArchive,
    /// No extraction destination can be derived from the archive's name.
    BadDestination,
}

/// What extracting `data` yields: the entries of the container found inside
/// the gzip stream, or nothing when either layer is malformed.
pub open spec fn archive_entries_spec(data: Seq<u8>) -> Option<
    Seq<(Seq<char>, u8, Seq<u8>, Option<Seq<char>>)>,
> {
    match gunzip_of(data) {
        Some(t) => tar_entries_of(t),
        None => None,
    }
}

/// Re-extraction is idempotent in content: any two entry lists decoded from
/// the same raw entries — as two extractions of the same archive bytes are —
/// carry the same relative paths, kinds, content bytes and link targets.
pub proof fn lemma_reextraction_idempotent(
    raws: Seq<(Seq<char>, u8, Seq<u8>, Option<Seq<char>>)>,
    first: Seq<ArchiveEntry>,
    second: Seq<ArchiveEntry>,
)
    requires
        first.len() == raws.len(),
        forall|i: int| 0 <= i < raws.len() ==> first[i].models(raws[i]),
        second.len() == raws.len(),
        forall|i: int| 0 <= i < raws.len() ==> second[i].models(raws[i]),
    ensures
        first.len() == second.len(),
        forall|i: int|
            0 <= i < raws.len() ==> {
                &&& first[i].path@ == second[i].path@
                &&& first[i].kind == second[i].kind
                &&& first[i].data@ == second[i].data@
                &&& first[i].link_target.deep_view() == second[i].link_target.deep_view()
            },
{
}

/// Decompresses the archive bytes `data` and parses the container inside,
/// returning its entries in order.
pub fn extract_archive(data: &Vec<u8>) -> (r: Result<Vec<ArchiveEntry>, ExtractError>)
    ensures
        r is Ok <==> archive_entries_spec(data@) is Some,
        gunzip_of(data@) is None ==> r == Result::<Vec<ArchiveEntry>, ExtractError>::Err(
            ExtractError::BadGzip,
        ),
        (gunzip_of(data@) matches Some(t) && tar_entries_of(t) is None) ==> r == Result::<
            Vec<ArchiveEntry>,
            ExtractError,
        >::Err(ExtractError::BadArchive),
        r matches Ok(v) ==> archive_entries_spec(data@) matches Some(raws) && v@.len()
            == raws.len() && (forall|i: int| 0 <= i < raws.len() ==> v[i].models(raws[i])),
    {
    let decompressed = match gunzip(data) {
        Some(d) => d,
        None => {
            return Err(ExtractError::BadGzip);
        },
    };
    let mut raw_entries = match untar(&decompressed) {
        Some(e) => e,
        None => {
            return Err(ExtractError::BadArchive);
        },
    };
    let ghost raws = raw_entries.deep_view();
    let mut entries: Vec<ArchiveEntry> = Vec::new();
    while raw_entries.len() > 0
        invariant
            entries@.len() + raw_entries@.len() == raws.len(),
            raw_entries.deep_view() =~= raws.subrange(entries@.len() as int, raws.len() as int),
            forall|j: int| 0 <= j < entries@.len() ==> entries[j].models(raws[j]),
        decreases raw_entries@.len(),
    {
        let ghost done = entries@.len() as int;
        let ghost prev = raw_entries@;
        let ghost prev_dv = raw_entries.deep_view();
        proof {
            assert(prev_dv[0] == prev[0].deep_view());
        }
        let (path, kind_byte, bytes, link) = raw_entries.remove(0);
        proof {
            assert(bytes.deep_view() =~= bytes@);
            assert forall|i: int| 0 <= i < raw_entries@.len() implies raw_entries.deep_view()[i]
                == raws[done + 1 + i] by {
                assert(raw_entries@[i] == prev[i + 1]);
                assert(raw_entries.deep_view()[i] == raw_entries@[i].deep_view());
                assert(prev_dv[i + 1] == prev[i + 1].deep_view());
            }
            assert(raw_entries.deep_view() =~= raws.subrange(done + 1, raws.len() as int));
        }
        let kind = if kind_byte == 0 || kind_byte == 48 {
            EntryKind::File
        } else if kind_byte == 53 {
            EntryKind::Directory
        } else if kind_byte == 50 {
            EntryKind::Symlink
        } else {
            EntryKind::Other
        };
        entries.push(ArchiveEntry { path, kind, data: bytes, link_target: link });
    }
    Ok(entries)
}

} // verus!
