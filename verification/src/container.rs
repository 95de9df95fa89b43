//! The container decoder: from a raw buffer to the ordered tag entries of the
//! container embedded in it. Locating and parsing the container is the work of
//! the `exif` crate; this module states what the library relies on and turns
//! the parsed container into entries of its own.

use vstd::prelude::*;
use crate::tag::{Tag, TagContext, TagEntry, TagEntryView};

verus! {

/// A parsed container of the `exif` crate. Opaque: its entries are read
/// through [`entry_count`] and [`entry_at`].
#[verifier::external_type_specification]
#[verifier::external_body]
pub struct ExExif(exif::Exif);

/// The error of the `exif` crate. Opaque: every value of it is reported as
/// [`DecodeError::MalformedContainer`].
#[verifier::external_type_specification]
#[verifier::external_body]
pub struct ExExifError(exif::Error);

/// Why a buffer could not be decoded.
#[derive(Clone, Copy, Debug, PartialEq, Eq, Structural)]
pub enum DecodeError {
    /// The buffer does not hold a tag container that can be parsed.
    MalformedContainer,
}

/// What `exif::Reader::read_from_container` makes of a buffer: the entries of
/// the container in the order in which they are stored, or `None` where it
/// reports an error. A function of the bytes alone.
pub uninterp spec fn container_entries(bytes: Seq<u8>) -> Option<Seq<TagEntryView>>;

/// The entries that a parsed container holds, in the order in which
/// `exif::Exif::fields` yields them, each with the two display forms that the
/// `exif` crate gives its value.
pub uninterp spec fn exif_entries(exif: exif::Exif) -> Seq<TagEntryView>;

/// `bytes` holds `word` at offset `at`.
pub open spec fn holds_at(bytes: Seq<u8>, at: int, word: Seq<u8>) -> bool {
    &&& 0 <= at
    &&& at + word.len() <= bytes.len()
    &&& bytes.subrange(at, at + word.len()) == word
}

/// The buffer begins like one of the image formats in which a tag container
/// is looked for: TIFF in either byte order, JPEG, PNG, WebP, or HEIF. A HEIF
/// file is known by a `ftyp` box, so every buffer that holds those four bytes
/// among its first 4096 counts here.
pub open spec fn has_container_signature(bytes: Seq<u8>) -> bool {
    ||| holds_at(bytes, 0, seq![0x4du8, 0x4du8, 0x00u8, 0x2au8])
    ||| holds_at(bytes, 0, seq![0x49u8, 0x49u8, 0x2au8, 0x00u8])
    ||| holds_at(bytes, 0, seq![0xffu8, 0xd8u8])
    ||| holds_at(bytes, 0, seq![0x89u8, 0x50u8, 0x4eu8, 0x47u8, 0x0du8, 0x0au8, 0x1au8, 0x0au8])
    ||| (holds_at(bytes, 0, seq![0x52u8, 0x49u8, 0x46u8, 0x46u8])
        && holds_at(bytes, 8, seq![0x57u8, 0x45u8, 0x42u8, 0x50u8]))
    ||| exists|at: int| names_file_type_box(bytes, at)
}

/// The four bytes `ftyp` stand at offset `at`, within the first 4096 bytes.
pub open spec fn names_file_type_box(bytes: Seq<u8>, at: int) -> bool {
    &&& at + 4 <= 4096
    &&& holds_at(bytes, at, seq![0x66u8, 0x74u8, 0x79u8, 0x70u8])
}

/// Calls `exif::Reader::read_from_container` on an in-memory reader over
/// `bytes`. Trusted: the outcome is the named function of the bytes, and a
/// buffer without any of the signatures that the reader sniffs is refused
/// ("Unknown image format").
#[verifier::external_body]
fn read_container(bytes: &[u8]) -> (parsed: Result<exif::Exif, exif::Error>)
    ensures
        match parsed {
            Ok(exif) => container_entries(bytes@) == Some(exif_entries(exif)),
            Err(_) => container_entries(bytes@) is None,
        },
        !has_container_signature(bytes@) ==> parsed is Err,
{
    exif::Reader::new().read_from_container(&mut std::io::Cursor::new(bytes))
}

/// Calls `exif::Exif::fields` and takes the length of the iterator. Trusted:
/// it is the number of entries.
#[verifier::external_body]
fn entry_count(exif: &exif::Exif) -> (count: usize)
    ensures
        count == exif_entries(*exif).len(),
{
    exif.fields().len()
}

/// Reads entry `index` of `exif::Exif::fields`: its tag, the text of
/// `exif::Field::display_value`, and that text `with_unit` of the container.
/// Trusted: these are what [`exif_entries`] names at that index.
#[verifier::external_body]
fn entry_at(exif: &exif::Exif, index: usize) -> (entry: TagEntry)
    requires
        index < exif_entries(*exif).len(),
    ensures
        entry@ == exif_entries(*exif)[index as int],
{
    let field = exif.fields().nth(index).unwrap();
    let exif::Tag(context, number) = field.tag;
    let context = match context {
        exif::Context::Tiff => TagContext::Tiff,
        exif::Context::Exif => TagContext::Exif,
        exif::Context::Gps => TagContext::Gps,
        exif::Context::Interop => TagContext::Interop,
        _ => TagContext::Other,
    };
    let value = field.display_value();
    TagEntry::new(Tag { context, number }, value.to_string(), value.with_unit(exif).to_string())
}

/// The views of a vector of entries, in order.
pub open spec fn entry_views(entries: Seq<TagEntry>) -> Seq<TagEntryView> {
    entries.map_values(|entry: TagEntry| entry@)
}

/// Decodes the tag container embedded in `buffer` into its entries, in the
/// order in which the container stores them. Nothing is sorted or merged: a
/// tag that occurs twice yields two entries.
pub fn decode(buffer: &[u8]) -> (decoded: Result<Vec<TagEntry>, DecodeError>)
    ensures
        match decoded {
            Ok(entries) => container_entries(buffer@) == Some(entry_views(entries@)),
            Err(error) => error == DecodeError::MalformedContainer && container_entries(buffer@)
                is None,
        },
        !has_container_signature(buffer@) ==> decoded is Err,
{
    match read_container(buffer) {
        Ok(exif) => {
            let count = entry_count(&exif);
            let mut entries: Vec<TagEntry> = Vec::new();
            let mut index: usize = 0;
            while index < count
                invariant
                    count == exif_entries(exif).len(),
                    index <= count,
                    entries@.len() == index,
                    entry_views(entries@) == exif_entries(exif).take(index as int),
                decreases count - index,
            {
                let ghost before = entries@;
                let entry = entry_at(&exif, index);
                entries.push(entry);
                index = index + 1;
                assert(entry_views(entries@) =~= entry_views(before).push(entry@));
                assert(exif_entries(exif).take(index as int) =~= exif_entries(exif).take(
                    index - 1,
                ).push(entry@));
            }
            assert(exif_entries(exif).take(index as int) =~= exif_entries(exif));
            Ok(entries)
        },
        Err(_) => Err(DecodeError::MalformedContainer),
    }
}

} // verus!
