use std::io::Cursor;

use exif::experimental::Writer;
use exif::{Field, In, Rational, Value};
use metadata_extractor::coordinates::{assemble_gps, Coordinates};
use metadata_extractor::{
    count_unmapped, decode, map_entries, DecodeError, Metadata, Rendering, Tag, TagContext,
    TagEntry, Target,
};

fn field(tag: exif::Tag, value: Value) -> Field {
    Field { tag, ifd_num: In::PRIMARY, value }
}

fn ascii(text: &str) -> Value {
    Value::Ascii(vec![text.as_bytes().to_vec()])
}

fn rationals(parts: &[(u32, u32)]) -> Value {
    Value::Rational(parts.iter().map(|&(num, denom)| Rational { num, denom }).collect())
}

fn tiff_of(fields: &[Field]) -> Vec<u8> {
    let mut writer = Writer::new();
    for field in fields {
        writer.push_field(field);
    }
    let mut buffer = Cursor::new(Vec::new());
    writer.write(&mut buffer, false).unwrap();
    buffer.into_inner()
}

fn latitude_fields() -> Vec<Field> {
    vec![
        field(exif::Tag::GPSLatitudeRef, ascii("N")),
        field(exif::Tag::GPSLatitude, rationals(&[(37, 1), (46, 1), (2964, 100)])),
    ]
}

fn longitude_fields() -> Vec<Field> {
    vec![
        field(exif::Tag::GPSLongitudeRef, ascii("W")),
        field(exif::Tag::GPSLongitude, rationals(&[(122, 1), (25, 1), (984, 100)])),
    ]
}

/// A little-endian TIFF whose only directory holds one short ASCII entry for
/// each of the given (tag number, three-letter text) pairs, in that order.
fn tiff_with_short_texts(entries: &[(u16, &str)]) -> Vec<u8> {
    let mut bytes = vec![0x49, 0x49, 0x2a, 0x00, 0x08, 0x00, 0x00, 0x00];
    bytes.extend_from_slice(&(entries.len() as u16).to_le_bytes());
    for (number, text) in entries {
        assert_eq!(text.len(), 3);
        bytes.extend_from_slice(&number.to_le_bytes());
        bytes.extend_from_slice(&2u16.to_le_bytes());
        bytes.extend_from_slice(&4u32.to_le_bytes());
        bytes.extend_from_slice(text.as_bytes());
        bytes.push(0);
    }
    bytes.extend_from_slice(&0u32.to_le_bytes());
    bytes
}

fn entry(tag: Tag, display: &str, display_with_unit: &str) -> TagEntry {
    TagEntry::new(tag, display.to_string(), display_with_unit.to_string())
}

fn other_tag() -> Tag {
    Tag { context: TagContext::Tiff, number: 0x0112 }
}

#[test]
fn buffer_without_signature_is_malformed() {
    assert_eq!(Metadata::get_metadata(Vec::new()).err(), Some(DecodeError::MalformedContainer));
    assert_eq!(
        Metadata::get_metadata(b"not an image at all".to_vec()).err(),
        Some(DecodeError::MalformedContainer)
    );
    assert_eq!(
        Metadata::get_metadata(vec![0u8; 5000]).err(),
        Some(DecodeError::MalformedContainer)
    );
    assert_eq!(decode(b"plain text").err(), Some(DecodeError::MalformedContainer));
}

#[test]
fn truncated_container_is_malformed() {
    assert_eq!(
        Metadata::get_metadata(vec![0x49, 0x49, 0x2a, 0x00]).err(),
        Some(DecodeError::MalformedContainer)
    );
    let whole = tiff_of(&[field(exif::Tag::Make, ascii("Acme"))]);
    let cut = whole[..whole.len() - 8].to_vec();
    assert_eq!(Metadata::get_metadata(cut).err(), Some(DecodeError::MalformedContainer));
}

#[test]
fn image_without_container_is_malformed() {
    let jpeg = vec![0xff, 0xd8, 0xff, 0xd9];
    assert_eq!(Metadata::get_metadata(jpeg).err(), Some(DecodeError::MalformedContainer));
}

#[test]
fn unsupported_byte_order_marker_is_malformed() {
    let bytes = vec![0x4d, 0x49, 0x00, 0x2a, 0x00, 0x00, 0x00, 0x08, 0x00, 0x00, 0, 0, 0, 0];
    assert_eq!(Metadata::get_metadata(bytes).err(), Some(DecodeError::MalformedContainer));
}

#[test]
fn container_without_recognized_tags_gives_empty_record() {
    let buffer = tiff_of(&[
        field(exif::Tag::Orientation, Value::Short(vec![1])),
        field(exif::Tag::Software, ascii("darkroom")),
    ]);
    let entries = decode(&buffer).unwrap();
    assert_eq!(entries.len(), 2);
    assert_eq!(count_unmapped(&entries), 2);
    let metadata = Metadata::get_metadata(buffer).unwrap();
    assert_eq!(metadata.make(), "");
    assert_eq!(metadata.model(), "");
    assert_eq!(metadata.flash_found(), "");
    assert_eq!(metadata.gps(), "[]");
    assert_eq!(metadata.altitude(), "");
    assert_eq!(metadata.description(), "");
    assert_eq!(metadata.copyright(), "");
}

#[test]
fn decoding_twice_gives_the_same_record() {
    let mut fields = vec![
        field(exif::Tag::Make, ascii("Acme")),
        field(exif::Tag::Flash, Value::Short(vec![0x19])),
    ];
    fields.extend(latitude_fields());
    fields.extend(longitude_fields());
    let buffer = tiff_of(&fields);
    let first = Metadata::get_metadata(buffer.clone()).unwrap();
    let second = Metadata::get_metadata(buffer).unwrap();
    assert_eq!(first.make(), second.make());
    assert_eq!(first.model(), second.model());
    assert_eq!(first.flash_found(), second.flash_found());
    assert_eq!(first.gps(), second.gps());
    assert_eq!(first.altitude(), second.altitude());
    assert_eq!(first.description(), second.description());
    assert_eq!(first.copyright(), second.copyright());
}

#[test]
fn both_coordinates_give_one_object_with_both_members() {
    let mut fields = latitude_fields();
    fields.extend(longitude_fields());
    let metadata = Metadata::get_metadata(tiff_of(&fields)).unwrap();
    assert_eq!(
        metadata.gps(),
        "[{\"latitude\":\"37 deg 46 min 29.64 sec N\",\"longitude\":\"122 deg 25 min 9.84 sec W\"}]"
    );
    let parsed: serde_json::Value = serde_json::from_str(&metadata.gps()).unwrap();
    let array = parsed.as_array().unwrap();
    assert_eq!(array.len(), 1);
    let object = array[0].as_object().unwrap();
    assert_eq!(object.len(), 2);
    assert!(!object["latitude"].as_str().unwrap().is_empty());
    assert!(!object["longitude"].as_str().unwrap().is_empty());
}

#[test]
fn latitude_alone_gives_one_object_with_one_member() {
    let metadata = Metadata::get_metadata(tiff_of(&latitude_fields())).unwrap();
    assert_eq!(metadata.gps(), "[{\"latitude\":\"37 deg 46 min 29.64 sec N\"}]");
    let parsed: serde_json::Value = serde_json::from_str(&metadata.gps()).unwrap();
    let object = parsed.as_array().unwrap()[0].as_object().unwrap();
    assert_eq!(object.len(), 1);
    assert!(object.contains_key("latitude"));
    assert!(!object.contains_key("longitude"));
}

#[test]
fn longitude_alone_gives_one_object_with_one_member() {
    let metadata = Metadata::get_metadata(tiff_of(&longitude_fields())).unwrap();
    assert_eq!(metadata.gps(), "[{\"longitude\":\"122 deg 25 min 9.84 sec W\"}]");
}

#[test]
fn coordinate_without_hemisphere_is_still_emitted() {
    let fields = [field(exif::Tag::GPSLatitude, rationals(&[(1, 1), (2, 1), (3, 1)]))];
    let metadata = Metadata::get_metadata(tiff_of(&fields)).unwrap();
    assert_eq!(
        metadata.gps(),
        "[{\"latitude\":\"1 deg 2 min 3 sec [GPSLatitudeRef missing]\"}]"
    );
}

#[test]
fn second_make_entry_wins() {
    let buffer = tiff_with_short_texts(&[(0x010f, "One"), (0x010f, "Two")]);
    let entries = decode(&buffer).unwrap();
    assert_eq!(entries.len(), 2);
    assert_eq!(entries[0].display(), "\"One\"");
    assert_eq!(entries[1].display(), "\"Two\"");
    let metadata = Metadata::get_metadata(buffer).unwrap();
    assert_eq!(metadata.make(), "\"Two\"");
}

#[test]
fn entries_come_in_container_order() {
    let buffer = tiff_with_short_texts(&[(0x0110, "Two"), (0x010f, "One"), (0x0131, "Sft")]);
    let entries = decode(&buffer).unwrap();
    assert_eq!(entries.len(), 3);
    assert_eq!(entries[0].tag(), Target::Model.tag());
    assert_eq!(entries[1].tag(), Target::Make.tag());
    assert_eq!(entries[2].tag(), Tag { context: TagContext::Tiff, number: 0x0131 });
    assert_eq!(entries[2].display(), "\"Sft\"");
    assert_eq!(count_unmapped(&entries), 1);
}

#[test]
fn setter_overrides_decoded_value() {
    let buffer = tiff_of(&[
        field(exif::Tag::Make, ascii("Acme")),
        field(exif::Tag::Model, ascii("X100")),
    ]);
    let mut metadata = Metadata::get_metadata(buffer).unwrap();
    metadata.set_make("X".to_string());
    assert_eq!(metadata.make(), "X");
    assert_eq!(metadata.model(), "\"X100\"");
    metadata.set_model("X".to_string());
    assert_eq!(metadata.model(), "X");
    metadata.set_flash_found("X".to_string());
    assert_eq!(metadata.flash_found(), "X");
    metadata.set_gps("X".to_string());
    assert_eq!(metadata.gps(), "X");
    metadata.set_altitude("X".to_string());
    assert_eq!(metadata.altitude(), "X");
    metadata.set_description("X".to_string());
    assert_eq!(metadata.description(), "X");
    metadata.set_copyright("X".to_string());
    assert_eq!(metadata.copyright(), "X");
    assert_eq!(metadata.make(), "X");
}

#[test]
fn full_container_fills_every_field() {
    let mut fields = vec![
        field(exif::Tag::Make, ascii("Acme")),
        field(exif::Tag::Model, ascii("X100")),
        field(exif::Tag::Flash, Value::Short(vec![0x10])),
        field(exif::Tag::GPSAltitude, rationals(&[(15, 1)])),
        field(exif::Tag::ImageDescription, ascii("Sunset")),
        field(exif::Tag::Copyright, ascii("© 2024")),
    ];
    fields.extend(latitude_fields());
    fields.extend(longitude_fields());
    let metadata = Metadata::get_metadata(tiff_of(&fields)).unwrap();
    assert_eq!(metadata.make(), "\"Acme\"");
    assert_eq!(metadata.model(), "\"X100\"");
    assert_eq!(
        metadata.flash_found(),
        "not fired, no return light detection function, suppressed"
    );
    assert_eq!(metadata.altitude(), "15 meters above sea level");
    assert!(metadata.altitude().contains(" meters"));
    assert_eq!(metadata.description(), "\"Sunset\"");
    assert_eq!(metadata.copyright(), "\"\\xc2\\xa9 2024\"");
    assert_eq!(
        metadata.gps(),
        "[{\"latitude\":\"37 deg 46 min 29.64 sec N\",\"longitude\":\"122 deg 25 min 9.84 sec W\"}]"
    );
}

#[test]
fn flash_bitfield_is_rendered_in_words() {
    let fired = tiff_of(&[field(exif::Tag::Flash, Value::Short(vec![0x05]))]);
    assert_eq!(
        Metadata::get_metadata(fired).unwrap().flash_found(),
        "fired, return light not detected, auto mode 0 (unknown)"
    );
}

#[test]
fn altitude_below_sea_level_names_its_reference() {
    let fields = [
        field(exif::Tag::GPSAltitudeRef, Value::Byte(vec![1])),
        field(exif::Tag::GPSAltitude, rationals(&[(25, 2)])),
    ];
    let metadata = Metadata::get_metadata(tiff_of(&fields)).unwrap();
    assert_eq!(metadata.altitude(), "12.5 meters below sea level");
    assert_eq!(metadata.gps(), "[]");
}

#[test]
fn mapper_picks_the_rendering_of_each_target() {
    let entries = vec![
        entry(Target::Make.tag(), "make", "make with unit"),
        entry(Target::Model.tag(), "model", "model with unit"),
        entry(Target::FlashFound.tag(), "flash", "flash with unit"),
        entry(Target::Altitude.tag(), "altitude", "altitude with unit"),
        entry(Target::Description.tag(), "description", "description with unit"),
        entry(Target::Copyright.tag(), "copyright", "copyright with unit"),
        entry(Target::Latitude.tag(), "latitude", "latitude with unit"),
        entry(Target::Longitude.tag(), "longitude", "longitude with unit"),
    ];
    let metadata = map_entries(&entries);
    assert_eq!(metadata.make(), "make with unit");
    assert_eq!(metadata.model(), "model with unit");
    assert_eq!(metadata.flash_found(), "flash with unit");
    assert_eq!(metadata.altitude(), "altitude with unit");
    assert_eq!(metadata.description(), "description");
    assert_eq!(metadata.copyright(), "copyright");
    assert_eq!(
        metadata.gps(),
        "[{\"latitude\":\"latitude with unit\",\"longitude\":\"longitude with unit\"}]"
    );
    assert_eq!(count_unmapped(&entries), 0);
}

#[test]
fn mapper_keeps_the_last_of_repeated_tags() {
    let entries = vec![
        entry(Target::Latitude.tag(), "", "first"),
        entry(other_tag(), "skipped", "skipped"),
        entry(Target::Copyright.tag(), "old", ""),
        entry(Target::Latitude.tag(), "", "second"),
        entry(Target::Copyright.tag(), "new", ""),
    ];
    let metadata = map_entries(&entries);
    assert_eq!(metadata.copyright(), "new");
    assert_eq!(metadata.gps(), "[{\"latitude\":\"second\"}]");
    assert_eq!(metadata.make(), "");
    assert_eq!(count_unmapped(&entries), 1);
}

#[test]
fn mapper_of_nothing_gives_empty_record() {
    let metadata = map_entries(&[]);
    assert_eq!(metadata.make(), "");
    assert_eq!(metadata.gps(), "[]");
    assert_eq!(count_unmapped(&[]), 0);
}

#[test]
fn same_number_in_another_namespace_is_not_mapped() {
    let entries = vec![
        entry(Tag { context: TagContext::Exif, number: 0x010f }, "a", "a"),
        entry(Tag { context: TagContext::Tiff, number: 0x0002 }, "b", "b"),
        entry(Tag { context: TagContext::Other, number: 0x9209 }, "c", "c"),
    ];
    let metadata = map_entries(&entries);
    assert_eq!(metadata.make(), "");
    assert_eq!(metadata.flash_found(), "");
    assert_eq!(metadata.gps(), "[]");
    assert_eq!(count_unmapped(&entries), 3);
}

#[test]
fn whitelist_maps_each_tag_to_its_target() {
    let targets = [
        (Target::Make, TagContext::Tiff, 0x010f, Rendering::WithUnit),
        (Target::Model, TagContext::Tiff, 0x0110, Rendering::WithUnit),
        (Target::FlashFound, TagContext::Exif, 0x9209, Rendering::WithUnit),
        (Target::Latitude, TagContext::Gps, 0x0002, Rendering::WithUnit),
        (Target::Longitude, TagContext::Gps, 0x0004, Rendering::WithUnit),
        (Target::Altitude, TagContext::Gps, 0x0006, Rendering::WithUnit),
        (Target::Description, TagContext::Tiff, 0x010e, Rendering::Plain),
        (Target::Copyright, TagContext::Tiff, 0x8298, Rendering::Plain),
    ];
    for (target, context, number, rendering) in targets {
        let tag = Tag { context, number };
        assert_eq!(target.tag(), tag);
        assert_eq!(tag.target(), Some(target));
        assert_eq!(target.rendering(), rendering);
    }
    assert_eq!(other_tag().target(), None);
    assert_eq!(Tag { context: TagContext::Interop, number: 0x0001 }.target(), None);
}

#[test]
fn whitelist_agrees_with_the_tag_table_of_the_parser() {
    let pairs = [
        (exif::Tag::Make, Target::Make),
        (exif::Tag::Model, Target::Model),
        (exif::Tag::Flash, Target::FlashFound),
        (exif::Tag::GPSLatitude, Target::Latitude),
        (exif::Tag::GPSLongitude, Target::Longitude),
        (exif::Tag::GPSAltitude, Target::Altitude),
        (exif::Tag::ImageDescription, Target::Description),
        (exif::Tag::Copyright, Target::Copyright),
    ];
    for (outside, target) in pairs {
        let value = if outside.context() == exif::Context::Gps || outside == exif::Tag::Flash {
            Value::Short(vec![0])
        } else {
            ascii("abc")
        };
        let entries = decode(&tiff_of(&[field(outside, value)])).unwrap();
        assert_eq!(entries.len(), 1);
        assert_eq!(entries[0].tag(), target.tag());
        assert_eq!(entries[0].tag().number, outside.number());
    }
}

#[test]
fn entry_hands_back_what_it_was_built_from() {
    let built = entry(Target::Altitude.tag(), "15", "15 meters");
    assert_eq!(built.tag(), Target::Altitude.tag());
    assert_eq!(built.display(), "15");
    assert_eq!(built.display_with_unit(), "15 meters");
    assert_eq!(built.rendered(Rendering::Plain), "15");
    assert_eq!(built.rendered(Rendering::WithUnit), "15 meters");
}

#[test]
fn decoded_entry_carries_both_display_forms() {
    let buffer = tiff_of(&[field(exif::Tag::XResolution, rationals(&[(72, 1)]))]);
    let entries = decode(&buffer).unwrap();
    assert_eq!(entries.len(), 1);
    assert_eq!(entries[0].tag(), Tag { context: TagContext::Tiff, number: 0x011a });
    assert_eq!(entries[0].display(), "72");
    assert_eq!(entries[0].display_with_unit(), "72 pixels per inch");
}

#[test]
fn gps_array_is_framed_around_the_members_present() {
    let latitude = Some("\"a\"".to_string());
    let longitude = Some("\"b\"".to_string());
    assert_eq!(assemble_gps(&None, &None), "[]");
    assert_eq!(assemble_gps(&latitude, &None), "[{\"latitude\":\"a\"}]");
    assert_eq!(assemble_gps(&None, &longitude), "[{\"longitude\":\"b\"}]");
    assert_eq!(
        assemble_gps(&latitude, &longitude),
        "[{\"latitude\":\"a\",\"longitude\":\"b\"}]"
    );
}

#[test]
fn coordinate_texts_are_written_as_json_strings() {
    let mut coordinates = Coordinates::new();
    assert!(coordinates.is_empty());
    assert_eq!(coordinates.to_json(), "[]");
    coordinates.set_longitude("say \"west\"\n".to_string());
    assert!(!coordinates.is_empty());
    assert_eq!(coordinates.to_json(), "[{\"longitude\":\"say \\\"west\\\"\\n\"}]");
    coordinates.set_latitude("a\\b".to_string());
    coordinates.set_latitude("".to_string());
    assert_eq!(
        coordinates.to_json(),
        "[{\"latitude\":\"\",\"longitude\":\"say \\\"west\\\"\\n\"}]"
    );
    let parsed: serde_json::Value = serde_json::from_str(&coordinates.to_json()).unwrap();
    assert_eq!(parsed[0]["longitude"].as_str(), Some("say \"west\"\n"));
}

#[test]
fn record_is_built_from_its_seven_texts() {
    let metadata = Metadata::new(
        "a".to_string(),
        "b".to_string(),
        "c".to_string(),
        "d".to_string(),
        "e".to_string(),
        "f".to_string(),
        "g".to_string(),
    );
    assert_eq!(metadata.make(), "a");
    assert_eq!(metadata.model(), "b");
    assert_eq!(metadata.flash_found(), "c");
    assert_eq!(metadata.gps(), "d");
    assert_eq!(metadata.altitude(), "e");
    assert_eq!(metadata.description(), "f");
    assert_eq!(metadata.copyright(), "g");
}
