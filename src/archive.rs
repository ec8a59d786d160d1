//! Read access to a zip archive held in memory, through the `zip` crate.

use std::io::Read;
use vstd::prelude::*;

verus! {

#[verifier::external_type_specification]
#[verifier::external_body]
#[verifier::reject_recursive_types(T)]
pub struct ExCursor<T>(std::io::Cursor<T>);

#[verifier::external_type_specification]
#[verifier::external_body]
#[verifier::reject_recursive_types(R)]
pub struct ExZipArchive<R>(zip::ZipArchive<R>);

#[verifier::external_type_specification]
#[verifier::external_body]
pub struct ExZipError(zip::result::ZipError);

/// Whether the bytes hold a zip archive whose central directory can be read.
pub uninterp spec fn zip_readable(data: Seq<u8>) -> bool;

/// The names of the entries that the central directory in the bytes lists.
pub uninterp spec fn zip_entry_names(data: Seq<u8>) -> Set<Seq<char>>;

/// The entries of the archive in the bytes whose data can be decompressed,
/// with that data.
pub uninterp spec fn zip_entry_contents(data: Seq<u8>) -> Map<Seq<char>, Seq<u8>>;

/// The names of all entries that the archive's central directory lists.
pub uninterp spec fn entry_names(a: zip::ZipArchive<std::io::Cursor<Vec<u8>>>) -> Set<Seq<char>>;

/// The entries of the archive whose data can be decompressed, with that data.
pub uninterp spec fn entry_contents(a: zip::ZipArchive<std::io::Cursor<Vec<u8>>>) -> Map<
    Seq<char>,
    Seq<u8>,
>;

/// Relies on `zip::ZipArchive::new` (zip 2.6): it reads the central directory
/// of the buffer alone, and fails when the buffer is not a readable zip
/// archive. Offsets read from the directory are added with `checked_add`, so a
/// crafted directory gives an error, not an overflow.
#[verifier::external_body]
pub(crate) fn open_archive(data: &[u8]) -> (r: Result<
    zip::ZipArchive<std::io::Cursor<Vec<u8>>>,
    zip::result::ZipError,
>)
    ensures
        r is Ok <==> zip_readable(data@),
        r is Ok ==> entry_names(r->Ok_0) == zip_entry_names(data@) && entry_contents(r->Ok_0)
            == zip_entry_contents(data@),
{
    zip::ZipArchive::new(std::io::Cursor::new(data.to_vec()))
}

/// Relies on `zip::ZipArchive::file_names`: one name for each entry of the
/// central directory, in no particular order.
#[verifier::external_body]
pub(crate) fn file_names(a: &zip::ZipArchive<std::io::Cursor<Vec<u8>>>) -> (r: Vec<String>)
    ensures
        forall|n: Seq<char>|
            entry_names(*a).contains(n) <==> exists|i: int| 0 <= i < r@.len() && r@[i]@ == n,
{
    a.file_names().map(|s| s.to_string()).collect()
}

/// Relies on `zip::ZipArchive::by_name`, and on reading the entry it returns to
/// its end: an entry that is not listed is not found, and a listed entry gives
/// its decompressed data or an error.
#[verifier::external_body]
pub(crate) fn read_entry(a: &mut zip::ZipArchive<std::io::Cursor<Vec<u8>>>, name: &str) -> (r:
    Result<Vec<u8>, zip::result::ZipError>)
    ensures
        entry_names(*final(a)) == entry_names(*old(a)),
        entry_contents(*final(a)) == entry_contents(*old(a)),
        !entry_names(*old(a)).contains(name@) ==> r is Err,
        r is Ok <==> entry_contents(*old(a)).contains_key(name@),
        r is Ok ==> r->Ok_0@ == entry_contents(*old(a))[name@],
{
    let mut entry = a.by_name(name)?;
    let mut data = Vec::new();
    entry.read_to_end(&mut data)?;
    Ok(data)
}

} // verus!
