//! Reading the downloaded dataset: a zip archive whose members are text
//! tables in a legacy single-byte encoding.
//!
//! The zip crate does the decompression and `encoding_rs` the transcoding;
//! both are relied on through the contracts stated here.

use std::io::Cursor;

use vstd::prelude::*;

use zip::result::ZipError;
use zip::ZipArchive;

verus! {

#[verifier::external_type_specification]
#[verifier::external_body]
#[verifier::reject_recursive_types(T)]
pub struct ExCursor<T>(Cursor<T>);

#[verifier::external_type_specification]
#[verifier::external_body]
#[verifier::reject_recursive_types(R)]
pub struct ExZipArchive<R>(ZipArchive<R>);

#[verifier::external_type_specification]
#[verifier::external_body]
pub struct ExZipError(ZipError);

/// The member names an archive's directory holds, in stored order (one name
/// per directory entry; an archive with duplicate names keeps one entry per
/// name).
pub uninterp spec fn zip_member_names(a: ZipArchive<Cursor<Vec<u8>>>) -> Seq<Seq<char>>;

/// The decompressed bytes of the archive member with the given name.
pub uninterp spec fn zip_member_data(a: ZipArchive<Cursor<Vec<u8>>>, name: Seq<char>) -> Seq<u8>;

/// Whether the archive member with the given name can be read in full: the
/// name looks up in the directory and the stored data decompresses with a
/// valid checksum. The archive value holds all its bytes, so this is a
/// function of the archive and the name alone.
pub uninterp spec fn zip_member_readable(a: ZipArchive<Cursor<Vec<u8>>>, name: Seq<char>) -> bool;

/// Whether a byte sequence parses as a zip archive.
pub uninterp spec fn zip_parses(bytes: Seq<u8>) -> bool;

/// The member names of the archive a byte sequence holds, in stored order.
pub uninterp spec fn zip_names_of(bytes: Seq<u8>) -> Seq<Seq<char>>;

/// The decompressed bytes of the named member of the archive a byte sequence
/// holds.
pub uninterp spec fn zip_data_of(bytes: Seq<u8>, name: Seq<char>) -> Seq<u8>;

/// Whether the named member of the archive a byte sequence holds can be read
/// in full.
pub uninterp spec fn zip_readable_of(bytes: Seq<u8>, name: Seq<char>) -> bool;

/// Relies on `zip::ZipArchive::new`: parse the central directory of the
/// archive held in the cursor and keep the reader for later member reads.
/// Parsing an owned byte buffer is deterministic, and the directory, member
/// data and member readability of the parsed archive are functions of the
/// bytes alone.
#[verifier::external_body]
pub fn zip_open(bytes: Vec<u8>) -> (r: Result<ZipArchive<Cursor<Vec<u8>>>, ZipError>)
    ensures
        r is Ok <==> zip_parses(bytes@),
        r matches Ok(a) ==> zip_member_names(a) == zip_names_of(bytes@),
        r matches Ok(a) ==> forall|n: Seq<char>| zip_member_data(a, n) == zip_data_of(bytes@, n),
        r matches Ok(a) ==> forall|n: Seq<char>|
            zip_member_readable(a, n) == zip_readable_of(bytes@, n),
{
    ZipArchive::new(Cursor::new(bytes))
}

/// Relies on `zip::ZipArchive::file_names`: one name for each entry of the
/// archive's directory, in the stored central-directory order.
#[verifier::external_body]
pub fn zip_file_names(a: &ZipArchive<Cursor<Vec<u8>>>) -> (r: Vec<String>)
    ensures
        r.deep_view() == zip_member_names(*a),
{
    a.file_names().map(String::from).collect()
}

/// Relies on `zip::ZipArchive::by_name` and `std::io::Read::read_to_end`:
/// the decompressed contents of the named member. The archive value holds
/// all its bytes, so the read succeeds exactly when the member is readable
/// in it; reading moves only the reader's position, so the directory, the
/// members' data and their readability stay as they were.
#[verifier::external_body]
pub fn zip_read_member(a: &mut ZipArchive<Cursor<Vec<u8>>>, name: &str) -> (r: Result<
    Vec<u8>,
    ZipError,
>)
    ensures
        zip_member_names(*final(a)) == zip_member_names(*old(a)),
        forall|n: Seq<char>| zip_member_data(*final(a), n) == zip_member_data(*old(a), n),
        forall|n: Seq<char>| zip_member_readable(*final(a), n) == zip_member_readable(*old(a), n),
        r is Ok <==> zip_member_readable(*old(a), name@),
        r is Ok ==> r->Ok_0@ == zip_member_data(*old(a), name@),
{
    let mut member = a.by_name(name)?;
    let mut buf: Vec<u8> = Vec::new();
    std::io::Read::read_to_end(&mut member, &mut buf)?;
    Ok(buf)
}

/// What the legacy single-byte encoding of the registry decodes a byte
/// sequence to: one character per byte.
pub uninterp spec fn latin3_chars(bytes: Seq<u8>) -> Seq<char>;

/// Relies on `encoding_rs::ISO_8859_3::decode_without_bom_handling`: a
/// single-byte decoder that never fails. Every byte becomes exactly one
/// character; a byte in the ASCII range decodes to itself, every other byte
/// to a character above the ASCII range (an unmapped byte becomes the
/// replacement character).
#[verifier::external_body]
pub fn decode_legacy(bytes: &Vec<u8>) -> (r: Vec<char>)
    ensures
        r@ == latin3_chars(bytes@),
        r@.len() == bytes@.len(),
        forall|i: int| 0 <= i < bytes@.len() && bytes@[i] < 128 ==> r@[i] == bytes@[i] as char,
        forall|i: int| 0 <= i < bytes@.len() && bytes@[i] >= 128 ==> r@[i] as u32 >= 128,
{
    let (text, _) = encoding_rs::ISO_8859_3.decode_without_bom_handling(bytes.as_slice());
    text.chars().collect()
}

} // verus!
