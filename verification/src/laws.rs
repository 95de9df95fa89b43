//! What holds of the decoder and the mapper as a whole, proved from the
//! definitions that their contracts use.

use vstd::prelude::*;
use crate::container::DecodeError;
use crate::coordinates::{json_string, CoordinatesView};
use crate::mapper::{coordinates_of, field_text, last_text, mapped, unmapped_count};
use crate::metadata::{extracted, MetadataView};
use crate::tag::{lemma_tags_distinct, TagEntryView, Target};

verus! {

/// Where no entry carries the tag of `target`, the scan leaves nothing there.
pub proof fn lemma_absent_tag_leaves_nothing(entries: Seq<TagEntryView>, target: Target)
    requires
        forall|i: int| 0 <= i < entries.len() ==> entries[i].tag != target.spec_tag(),
    ensures
        last_text(entries, target) is None,
        field_text(entries, target) == Seq::<char>::empty(),
    decreases entries.len(),
{
    if entries.len() > 0 {
        lemma_absent_tag_leaves_nothing(entries.drop_last(), target);
    }
}

/// Last write wins: the scan leaves at `target` the rendering of the last
/// entry that carries the target's tag, however many carried it before.
pub proof fn lemma_last_write_wins(entries: Seq<TagEntryView>, target: Target, at: int)
    requires
        0 <= at < entries.len(),
        entries[at].tag == target.spec_tag(),
        forall|i: int| at < i < entries.len() ==> entries[i].tag != target.spec_tag(),
    ensures
        last_text(entries, target) == Some(entries[at].rendered(target.spec_rendering())),
        field_text(entries, target) == entries[at].rendered(target.spec_rendering()),
    decreases entries.len(),
{
    if at < entries.len() - 1 {
        lemma_last_write_wins(entries.drop_last(), target, at);
    }
}

/// Where some entry carries the tag of `target`, the scan leaves the rendering
/// of one of the entries that carry it.
pub proof fn lemma_present_tag_leaves_text(entries: Seq<TagEntryView>, target: Target, at: int)
    requires
        0 <= at < entries.len(),
        entries[at].tag == target.spec_tag(),
    ensures
        exists|last: int|
            at <= last < entries.len() && (#[trigger] entries[last]).tag == target.spec_tag()
                && last_text(entries, target) == Some(
                entries[last].rendered(target.spec_rendering()),
            ),
    decreases entries.len(),
{
    let end = entries.len() - 1;
    if entries[end].tag == target.spec_tag() {
        assert(last_text(entries, target) == Some(entries[end].rendered(target.spec_rendering())));
    } else {
        lemma_present_tag_leaves_text(entries.drop_last(), target, at);
        let last = choose|last: int|
            at <= last < entries.drop_last().len() && (#[trigger] entries.drop_last()[last]).tag
                == target.spec_tag() && last_text(entries.drop_last(), target) == Some(
                entries.drop_last()[last].rendered(target.spec_rendering()),
            );
        assert(entries[last] == entries.drop_last()[last]);
    }
}

/// A container without any whitelisted tag gives the empty record: every
/// scalar field is the empty string and `gps` is the empty array.
pub proof fn lemma_no_recognized_tag_gives_empty_record(entries: Seq<TagEntryView>)
    requires
        forall|i: int| 0 <= i < entries.len() ==> entries[i].tag.spec_target() is None,
    ensures
        mapped(entries) == (MetadataView {
            make: Seq::empty(),
            model: Seq::empty(),
            flash_found: Seq::empty(),
            gps: "[]"@,
            altitude: Seq::empty(),
            description: Seq::empty(),
            copyright: Seq::empty(),
        }),
        unmapped_count(entries) == entries.len(),
{
    lemma_tags_distinct();
    assert forall|target: Target| last_text(entries, target) is None by {
        assert forall|i: int| 0 <= i < entries.len() implies entries[i].tag
            != target.spec_tag() by {
            if entries[i].tag == target.spec_tag() {
                assert(entries[i].tag.spec_target() == Some(target));
            }
        }
        lemma_absent_tag_leaves_nothing(entries, target);
    }
    lemma_all_unmapped(entries);
}

/// Where every entry is skipped, as many are counted as there are.
proof fn lemma_all_unmapped(entries: Seq<TagEntryView>)
    requires
        forall|i: int| 0 <= i < entries.len() ==> entries[i].tag.spec_target() is None,
    ensures
        unmapped_count(entries) == entries.len(),
    decreases entries.len(),
{
    if entries.len() > 0 {
        lemma_all_unmapped(entries.drop_last());
    }
}

/// Decoding is a function of the buffer: two outcomes for the same bytes are
/// the same outcome, field by field.
pub proof fn lemma_decoding_is_deterministic(
    bytes: Seq<u8>,
    first: Result<MetadataView, DecodeError>,
    second: Result<MetadataView, DecodeError>,
)
    requires
        first == extracted(bytes),
        second == extracted(bytes),
    ensures
        first == second,
{
}

/// With a latitude and a longitude entry, `gps` is an array of one object
/// that holds both members, each the JSON text of the rendering of the last
/// entry with its tag.
pub proof fn lemma_both_coordinates(entries: Seq<TagEntryView>, latitude_at: int, longitude_at: int)
    requires
        0 <= latitude_at < entries.len(),
        0 <= longitude_at < entries.len(),
        entries[latitude_at].tag == Target::Latitude.spec_tag(),
        entries[longitude_at].tag == Target::Longitude.spec_tag(),
    ensures
        coordinates_of(entries).latitude is Some,
        coordinates_of(entries).longitude is Some,
        mapped(entries).gps == "[{\"latitude\":"@ + json_string(
            coordinates_of(entries).latitude->Some_0,
        ) + ",\"longitude\":"@ + json_string(coordinates_of(entries).longitude->Some_0) + "}]"@,
{
    lemma_present_tag_leaves_text(entries, Target::Latitude, latitude_at);
    lemma_present_tag_leaves_text(entries, Target::Longitude, longitude_at);
}

/// A member of the coordinate object is not the empty string, provided that
/// no entry with its tag renders as the empty string.
pub proof fn lemma_coordinate_not_empty(entries: Seq<TagEntryView>, target: Target, at: int)
    requires
        target == Target::Latitude || target == Target::Longitude,
        0 <= at < entries.len(),
        entries[at].tag == target.spec_tag(),
        forall|i: int|
            0 <= i < entries.len() && entries[i].tag == target.spec_tag()
                ==> entries[i].display_with_unit.len() > 0,
    ensures
        last_text(entries, target) is Some,
        last_text(entries, target)->Some_0.len() > 0,
{
    lemma_present_tag_leaves_text(entries, target, at);
}

/// With a latitude entry and no longitude entry, `gps` is an array of one
/// object that holds the `latitude` member alone.
pub proof fn lemma_latitude_alone(entries: Seq<TagEntryView>, latitude_at: int)
    requires
        0 <= latitude_at < entries.len(),
        entries[latitude_at].tag == Target::Latitude.spec_tag(),
        forall|i: int| 0 <= i < entries.len() ==> entries[i].tag != Target::Longitude.spec_tag(),
    ensures
        coordinates_of(entries).latitude is Some,
        coordinates_of(entries).longitude is None,
        mapped(entries).gps == "[{\"latitude\":"@ + json_string(
            coordinates_of(entries).latitude->Some_0,
        ) + "}]"@,
{
    lemma_present_tag_leaves_text(entries, Target::Latitude, latitude_at);
    lemma_absent_tag_leaves_nothing(entries, Target::Longitude);
}

/// The coordinate mapping is empty exactly if the container has neither a
/// latitude nor a longitude entry, and `gps` is then the empty array: never
/// more than one object is produced.
pub proof fn lemma_no_coordinates(entries: Seq<TagEntryView>)
    requires
        forall|i: int|
            0 <= i < entries.len() ==> entries[i].tag != Target::Latitude.spec_tag()
                && entries[i].tag != Target::Longitude.spec_tag(),
    ensures
        coordinates_of(entries) == (CoordinatesView { latitude: None, longitude: None }),
        mapped(entries).gps == "[]"@,
{
    lemma_absent_tag_leaves_nothing(entries, Target::Latitude);
    lemma_absent_tag_leaves_nothing(entries, Target::Longitude);
}

/// A field that was overwritten reads back as the text given, whatever the
/// record held before, and the other fields are as they were.
pub proof fn lemma_setter_round_trip(before: MetadataView, text: Seq<char>)
    ensures
        (MetadataView { make: text, ..before }).make == text,
        (MetadataView { model: text, ..before }).model == text,
        (MetadataView { flash_found: text, ..before }).flash_found == text,
        (MetadataView { gps: text, ..before }).gps == text,
        (MetadataView { altitude: text, ..before }).altitude == text,
        (MetadataView { description: text, ..before }).description == text,
        (MetadataView { copyright: text, ..before }).copyright == text,
{
}

} // verus!
