//! The coordinate mapping: the latitude and longitude texts gathered while the
//! entries are scanned, and the JSON text that the `gps` field holds for them.

use vstd::prelude::*;
use vstd::pervasive::unreached;

verus! {

/// The error of `serde_json`. Opaque, and never met: see [`to_json_string`].
#[verifier::external_type_specification]
#[verifier::external_body]
pub struct ExJsonError(serde_json::Error);

/// The JSON text of a string, quotes included, as `serde_json::to_string`
/// writes it.
pub uninterp spec fn json_string(text: Seq<char>) -> Seq<char>;

/// Calls `serde_json::to_string` on a string slice. Trusted: the result is the
/// named JSON text of the string, and the call succeeds. A string serialises
/// itself by `serialize_str`, which can fail only where the writer does, and
/// the writer is a `Vec<u8>`.
#[verifier::external_body]
fn to_json_string(text: &str) -> (json: Result<String, serde_json::Error>)
    ensures
        json is Ok,
        json->Ok_0@ == json_string(text@),
{
    serde_json::to_string(text)
}

/// What a [`Coordinates`] stands for: the two texts, each present or not.
pub struct CoordinatesView {
    pub latitude: Option<Seq<char>>,
    pub longitude: Option<Seq<char>>,
}

impl CoordinatesView {
    /// Nothing was gathered.
    pub open spec fn is_empty(self) -> bool {
        self.latitude is None && self.longitude is None
    }

    /// The text of the `gps` field for this mapping.
    pub open spec fn json(self) -> Seq<char> {
        gps_array(quoted(self.latitude), quoted(self.longitude))
    }
}

/// The JSON text of an optional string.
pub open spec fn quoted(text: Option<Seq<char>>) -> Option<Seq<char>> {
    match text {
        Some(text) => Some(json_string(text)),
        None => None,
    }
}

/// The view of an optional string.
pub open spec fn optional_text(text: Option<String>) -> Option<Seq<char>> {
    match text {
        Some(text) => Some(text@),
        None => None,
    }
}

/// The JSON array for a coordinate object whose members are given as JSON
/// texts already: empty where neither is present, else one object that holds
/// the members present, `latitude` before `longitude`.
pub open spec fn gps_array(latitude: Option<Seq<char>>, longitude: Option<Seq<char>>) -> Seq<
    char,
> {
    match (latitude, longitude) {
        (None, None) => "[]"@,
        (Some(latitude), None) => "[{\"latitude\":"@ + latitude + "}]"@,
        (None, Some(longitude)) => "[{\"longitude\":"@ + longitude + "}]"@,
        (Some(latitude), Some(longitude)) => "[{\"latitude\":"@ + latitude + ",\"longitude\":"@
            + longitude + "}]"@,
    }
}

/// Frames the JSON texts of the members present as the array of at most one
/// coordinate object.
pub fn assemble_gps(latitude: &Option<String>, longitude: &Option<String>) -> (text: String)
    ensures
        text@ == gps_array(optional_text(*latitude), optional_text(*longitude)),
{
    match (latitude, longitude) {
        (None, None) => String::from_str("[]"),
        (Some(latitude), None) => {
            let mut text = String::from_str("[{\"latitude\":");
            text.append(latitude.as_str());
            text.append("}]");
            text
        },
        (None, Some(longitude)) => {
            let mut text = String::from_str("[{\"longitude\":");
            text.append(longitude.as_str());
            text.append("}]");
            text
        },
        (Some(latitude), Some(longitude)) => {
            let mut text = String::from_str("[{\"latitude\":");
            text.append(latitude.as_str());
            text.append(",\"longitude\":");
            text.append(longitude.as_str());
            text.append("}]");
            text
        },
    }
}

/// The coordinate mapping that the scan fills: at most one latitude and one
/// longitude, a later text replacing an earlier one.
#[derive(Clone, Debug)]
pub struct Coordinates {
    latitude: Option<String>,
    longitude: Option<String>,
}

impl View for Coordinates {
    type V = CoordinatesView;

    closed spec fn view(&self) -> CoordinatesView {
        CoordinatesView {
            latitude: optional_text(self.latitude),
            longitude: optional_text(self.longitude),
        }
    }
}

impl Coordinates {
    /// The empty mapping.
    pub fn new() -> (coordinates: Coordinates)
        ensures
            coordinates@ == (CoordinatesView { latitude: None, longitude: None }),
    {
        Coordinates { latitude: None, longitude: None }
    }

    pub fn set_latitude(&mut self, text: String)
        ensures
            final(self)@ == (CoordinatesView { latitude: Some(text@), ..old(self)@ }),
    {
        self.latitude = Some(text);
    }

    pub fn set_longitude(&mut self, text: String)
        ensures
            final(self)@ == (CoordinatesView { longitude: Some(text@), ..old(self)@ }),
    {
        self.longitude = Some(text);
    }

    pub fn is_empty(&self) -> (empty: bool)
        ensures
            empty == self@.is_empty(),
    {
        self.latitude.is_none() && self.longitude.is_none()
    }

    /// The text of the `gps` field: `[]` for the empty mapping, else an array
    /// of one object with the texts present.
    pub fn to_json(&self) -> (text: String)
        ensures
            text@ == self@.json(),
    {
        let latitude = quote(&self.latitude);
        let longitude = quote(&self.longitude);
        assemble_gps(&latitude, &longitude)
    }
}

/// The JSON text of a string where there is one.
fn quote(text: &Option<String>) -> (json: Option<String>)
    ensures
        optional_text(json) == quoted(optional_text(*text)),
{
    match text {
        Some(text) => {
            match to_json_string(text.as_str()) {
                Ok(json) => Some(json),
                Err(_) => unreached(),
            }
        },
        None => None,
    }
}

} // verus!
