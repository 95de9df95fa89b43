//! The field mapper: from the ordered entries of a container to the result
//! record. Each whitelisted tag is written to its own place, a later entry
//! replacing an earlier one; entries with other tags are skipped.

use vstd::prelude::*;
use crate::container::entry_views;
use crate::coordinates::{Coordinates, CoordinatesView};
use crate::metadata::{Metadata, MetadataView};
use crate::tag::{lemma_target_of, TagEntry, TagEntryView, Target};

verus! {

/// The text that the scan leaves at `target`: that of the last entry whose tag
/// is the target's, or `None` where there is no such entry.
pub open spec fn last_text(entries: Seq<TagEntryView>, target: Target) -> Option<Seq<char>>
    decreases entries.len(),
{
    if entries.len() == 0 {
        None
    } else if entries.last().text_for(target) is Some {
        entries.last().text_for(target)
    } else {
        last_text(entries.drop_last(), target)
    }
}

/// The text of a scalar field: what the scan left at `target`, or the empty
/// string.
pub open spec fn field_text(entries: Seq<TagEntryView>, target: Target) -> Seq<char> {
    match last_text(entries, target) {
        Some(text) => text,
        None => Seq::empty(),
    }
}

/// The coordinate mapping that the scan gathers.
pub open spec fn coordinates_of(entries: Seq<TagEntryView>) -> CoordinatesView {
    CoordinatesView {
        latitude: last_text(entries, Target::Latitude),
        longitude: last_text(entries, Target::Longitude),
    }
}

/// The record that the entries are projected onto.
pub open spec fn mapped(entries: Seq<TagEntryView>) -> MetadataView {
    MetadataView {
        make: field_text(entries, Target::Make),
        model: field_text(entries, Target::Model),
        flash_found: field_text(entries, Target::FlashFound),
        gps: coordinates_of(entries).json(),
        altitude: field_text(entries, Target::Altitude),
        description: field_text(entries, Target::Description),
        copyright: field_text(entries, Target::Copyright),
    }
}

/// The number of entries whose tag is not on the whitelist.
pub open spec fn unmapped_count(entries: Seq<TagEntryView>) -> nat
    decreases entries.len(),
{
    if entries.len() == 0 {
        0
    } else if entries.last().tag.spec_target() is None {
        unmapped_count(entries.drop_last()) + 1
    } else {
        unmapped_count(entries.drop_last())
    }
}

/// One more entry replaces the text at the target of its tag and leaves the
/// texts at all other targets as they were.
pub proof fn lemma_last_text_step(entries: Seq<TagEntryView>, index: int)
    requires
        0 <= index < entries.len(),
    ensures
        forall|target: Target|
            #[trigger] last_text(entries.take(index + 1), target) == if entries[index].tag
                == target.spec_tag() {
                Some(entries[index].rendered(target.spec_rendering()))
            } else {
                last_text(entries.take(index), target)
            },
{
    assert(entries.take(index + 1).drop_last() =~= entries.take(index));
    assert(entries.take(index + 1).last() == entries[index]);
}

/// Projects the entries, taken in order, onto a fresh record.
pub fn map_entries(entries: &[TagEntry]) -> (metadata: Metadata)
    ensures
        metadata@ == mapped(entry_views(entries@)),
{
    let mut make = String::new();
    let mut model = String::new();
    let mut flash_found = String::new();
    let mut altitude = String::new();
    let mut description = String::new();
    let mut copyright = String::new();
    let mut coordinates = Coordinates::new();
    let ghost views = entry_views(entries@);
    let mut index: usize = 0;
    while index < entries.len()
        invariant
            index <= entries.len(),
            views == entry_views(entries@),
            make@ == field_text(views.take(index as int), Target::Make),
            model@ == field_text(views.take(index as int), Target::Model),
            flash_found@ == field_text(views.take(index as int), Target::FlashFound),
            altitude@ == field_text(views.take(index as int), Target::Altitude),
            description@ == field_text(views.take(index as int), Target::Description),
            copyright@ == field_text(views.take(index as int), Target::Copyright),
            coordinates@ == coordinates_of(views.take(index as int)),
        decreases entries.len() - index,
    {
        let entry = &entries[index];
        proof {
            assert(views[index as int] == entry@);
            lemma_target_of(entry@.tag);
            lemma_last_text_step(views, index as int);
        }
        match entry.tag().target() {
            Some(target) => {
                let text = String::from_str(entry.rendered(target.rendering()));
                match target {
                    Target::Make => {
                        make = text;
                    },
                    Target::Model => {
                        model = text;
                    },
                    Target::FlashFound => {
                        flash_found = text;
                    },
                    Target::Latitude => {
                        coordinates.set_latitude(text);
                    },
                    Target::Longitude => {
                        coordinates.set_longitude(text);
                    },
                    Target::Altitude => {
                        altitude = text;
                    },
                    Target::Description => {
                        description = text;
                    },
                    Target::Copyright => {
                        copyright = text;
                    },
                }
            },
            None => {},
        }
        index = index + 1;
    }
    assert(views.take(index as int) =~= views);
    let gps = coordinates.to_json();
    Metadata::new(make, model, flash_found, gps, altitude, description, copyright)
}

/// Counts the entries that [`map_entries`] skips, one diagnostic being due for
/// each.
pub fn count_unmapped(entries: &[TagEntry]) -> (count: usize)
    ensures
        count == unmapped_count(entry_views(entries@)),
{
    let ghost views = entry_views(entries@);
    let mut count: usize = 0;
    let mut index: usize = 0;
    while index < entries.len()
        invariant
            index <= entries.len(),
            views == entry_views(entries@),
            count == unmapped_count(views.take(index as int)),
            count <= index,
        decreases entries.len() - index,
    {
        proof {
            assert(views[index as int] == entries[index as int]@);
            assert(views.take(index + 1).drop_last() =~= views.take(index as int));
            assert(views.take(index + 1).last() == views[index as int]);
        }
        if entries[index].tag().target().is_none() {
            count = count + 1;
        }
        index = index + 1;
    }
    assert(views.take(index as int) =~= views);
    count
}

} // verus!
