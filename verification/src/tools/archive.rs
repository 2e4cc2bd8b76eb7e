//! The boundary to the zip reader: the archive, cursor and error types it
//! works with, names for what it decodes from a byte string and for when the
//! decode succeeds, and the three calls the extractor makes into it.

use vstd::prelude::*;
use std::io::Cursor;
use crate::Error;

verus! {

#[verifier::external_type_specification]
#[verifier::external_body]
#[verifier::reject_recursive_types(T)]
pub struct ExCursor<T>(Cursor<T>);

#[verifier::external_type_specification]
#[verifier::external_body]
#[verifier::reject_recursive_types(R)]
pub struct ExZipArchive<R>(zip::ZipArchive<R>);

#[verifier::external_type_specification]
#[verifier::external_body]
pub struct ExZipError(zip::result::ZipError);

/// What the zip reader decodes from a byte string: each entry's name and
/// uncompressed contents, in archive order, duplicate names collapsed the
/// way the reader collapses them. On bytes that are not a readable archive
/// the value is unconstrained; no call below then vouches for it.
pub uninterp spec fn zip_entries_of(bytes: Seq<u8>) -> Seq<(Seq<char>, Seq<u8>)>;

/// Whether the zip reader accepts a byte string as an archive at all. The
/// reader works on in-memory bytes, so its verdict is a function of the
/// bytes alone.
pub uninterp spec fn zip_parses(bytes: Seq<u8>) -> bool;

/// Whether one entry of an accepted archive decodes cleanly: readable local
/// header, supported and unencrypted compression, contents that decompress
/// without error. A function of the bytes and the index alone.
pub uninterp spec fn entry_decodes(bytes: Seq<u8>, i: int) -> bool;

/// The byte string an open archive was opened over.
pub uninterp spec fn archive_bytes(a: zip::ZipArchive<Cursor<Vec<u8>>>) -> Seq<u8>;

/// The entries an opened archive holds: each entry's name and uncompressed
/// contents, in order.
pub uninterp spec fn archive_entries(a: zip::ZipArchive<Cursor<Vec<u8>>>) -> Seq<
    (Seq<char>, Seq<u8>),
>;

/// The reader accepts the bytes and every entry decodes: exactly the byte
/// strings an extraction works on without failing.
pub open spec fn archive_decodes(bytes: Seq<u8>) -> bool {
    zip_parses(bytes) && (forall|i: int|
        0 <= i < zip_entries_of(bytes).len() ==> #[trigger] entry_decodes(bytes, i))
}

/// Relies on zip::ZipArchive::new: opens an archive over the given bytes.
/// What it decodes, and whether it accepts the bytes, are functions of the
/// bytes alone.
#[verifier::external_body]
fn zip_open(bytes: Vec<u8>) -> (r: Result<
    zip::ZipArchive<Cursor<Vec<u8>>>,
    zip::result::ZipError,
>)
    ensures
        r is Ok <==> zip_parses(bytes@),
        r matches Ok(a) ==> archive_entries(a) == zip_entries_of(bytes@) && archive_bytes(a)
            == bytes@,
{
    zip::ZipArchive::new(Cursor::new(bytes))
}

/// Relies on zip::ZipArchive::len: how many entries the archive holds.
#[verifier::external_body]
fn zip_len(a: &zip::ZipArchive<Cursor<Vec<u8>>>) -> (r: usize)
    ensures
        r == archive_entries(*a).len(),
{
    a.len()
}

/// Relies on zip::ZipArchive::by_index and std::io::Read::read_to_end: reads
/// one entry's name and uncompressed contents. The call succeeds exactly
/// when the entry decodes; either way the archive's contents are left as
/// they were.
#[verifier::external_body]
fn zip_entry(a: &mut zip::ZipArchive<Cursor<Vec<u8>>>, i: usize) -> (r: Result<
    (String, Vec<u8>),
    zip::result::ZipError,
>)
    requires
        i < archive_entries(*old(a)).len(),
    ensures
        archive_entries(*final(a)) == archive_entries(*old(a)),
        archive_bytes(*final(a)) == archive_bytes(*old(a)),
        r is Ok <==> entry_decodes(archive_bytes(*old(a)), i as int),
        r matches Ok(e) ==> (e.0@, e.1@) == archive_entries(*old(a))[i as int],
{
    let mut f = a.by_index(i)?;
    let name = f.name().to_owned();
    let mut data: Vec<u8> = Vec::new();
    std::io::Read::read_to_end(&mut f, &mut data)?;
    Ok((name, data))
}

/// The name/contents pairs a list of decoded entries stands for.
pub open spec fn pairs_view(es: Seq<(String, Vec<u8>)>) -> Seq<(Seq<char>, Seq<u8>)> {
    Seq::new(es.len(), |i: int| (es[i].0@, es[i].1@))
}

/// Decodes every entry of the archive in order. It succeeds exactly when
/// the reader accepts the bytes and every entry decodes; a byte string it
/// cannot fully decode yields no partial result.
pub fn read_entries(bytes: Vec<u8>) -> (r: Result<Vec<(String, Vec<u8>)>, Error>)
    ensures
        r is Ok <==> archive_decodes(bytes@),
        r matches Ok(es) ==> pairs_view(es@) == zip_entries_of(bytes@),
        r is Err ==> r == Result::<Vec<(String, Vec<u8>)>, Error>::Err(Error::ArchiveInvalid),
{
    let ghost b = bytes@;
    let mut archive = match zip_open(bytes) {
        Result::Ok(a) => a,
        Result::Err(_) => {
            return Result::Err(Error::ArchiveInvalid);
        },
    };
    let n = zip_len(&archive);
    let mut out: Vec<(String, Vec<u8>)> = Vec::new();
    let mut i: usize = 0;
    while i < n
        invariant
            b == bytes@,
            archive_entries(archive) == zip_entries_of(b),
            archive_bytes(archive) == b,
            zip_parses(b),
            n == zip_entries_of(b).len(),
            i <= n,
            out@.len() == i,
            pairs_view(out@) =~= zip_entries_of(b).take(i as int),
            forall|j: int| 0 <= j < i ==> #[trigger] entry_decodes(b, j),
        decreases n - i,
    {
        let entry = match zip_entry(&mut archive, i) {
            Result::Ok(e) => e,
            Result::Err(_) => {
                return Result::Err(Error::ArchiveInvalid);
            },
        };
        let ghost before = pairs_view(out@);
        out.push(entry);
        proof {
            assert(pairs_view(out@) =~= before.push(zip_entries_of(b)[i as int]));
            assert(pairs_view(out@) =~= zip_entries_of(b).take(i as int + 1));
        }
        i = i + 1;
    }
    proof {
        assert(zip_entries_of(b).take(n as int) =~= zip_entries_of(b));
    }
    Result::Ok(out)
}

/// Unwraps a double-nested archive: the raw contents of the outer archive's
/// first entry, which one tool's release packaging stores as an inner
/// archive. It succeeds exactly when the reader accepts the outer bytes,
/// the outer archive is non-empty, and that first entry decodes.
pub fn nested_inner(bytes: Vec<u8>) -> (r: Result<Vec<u8>, Error>)
    ensures
        r is Ok <==> (zip_parses(bytes@) && zip_entries_of(bytes@).len() > 0 && entry_decodes(
            bytes@,
            0,
        )),
        r matches Ok(ib) ==> ib@ == zip_entries_of(bytes@)[0].1,
        r is Err ==> r == Result::<Vec<u8>, Error>::Err(Error::ArchiveInvalid),
{
    let ghost b = bytes@;
    let mut archive = match zip_open(bytes) {
        Result::Ok(a) => a,
        Result::Err(_) => {
            return Result::Err(Error::ArchiveInvalid);
        },
    };
    let n = zip_len(&archive);
    if n == 0 {
        return Result::Err(Error::ArchiveInvalid);
    }
    match zip_entry(&mut archive, 0) {
        Result::Ok(e) => Result::Ok(e.1),
        Result::Err(_) => Result::Err(Error::ArchiveInvalid),
    }
}

} // verus!
