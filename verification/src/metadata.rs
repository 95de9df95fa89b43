//! The result record and the entry point that fills it from a buffer.

use vstd::prelude::*;
use crate::container::{container_entries, decode, has_container_signature, DecodeError};
use crate::mapper::{map_entries, mapped};

verus! {

/// The metadata extracted from one buffer. Every field is text; a field whose
/// tag was absent is empty, and `gps` is then the empty JSON array.
#[derive(Clone, Debug)]
pub struct Metadata {
    make: String,
    model: String,
    flash_found: String,
    gps: String,
    altitude: String,
    description: String,
    copyright: String,
}

/// What a [`Metadata`] stands for: the text of each field.
pub struct MetadataView {
    /// The manufacturer of the camera.
    pub make: Seq<char>,
    /// The model of the camera.
    pub model: Seq<char>,
    /// The state of the flash, in words.
    pub flash_found: Seq<char>,
    /// The JSON array of at most one coordinate object.
    pub gps: Seq<char>,
    /// The altitude with its unit.
    pub altitude: Seq<char>,
    /// The title of the image.
    pub description: Seq<char>,
    /// The copyright notice.
    pub copyright: Seq<char>,
}

impl View for Metadata {
    type V = MetadataView;

    closed spec fn view(&self) -> MetadataView {
        MetadataView {
            make: self.make@,
            model: self.model@,
            flash_found: self.flash_found@,
            gps: self.gps@,
            altitude: self.altitude@,
            description: self.description@,
            copyright: self.copyright@,
        }
    }
}

/// What decoding `bytes` gives: the projection of the container's entries, or
/// the error where the buffer holds no container that can be parsed.
pub open spec fn extracted(bytes: Seq<u8>) -> Result<MetadataView, DecodeError> {
    match container_entries(bytes) {
        Some(entries) => Ok(mapped(entries)),
        None => Err(DecodeError::MalformedContainer),
    }
}

/// The view of an outcome of [`Metadata::get_metadata`].
pub open spec fn outcome_view(outcome: Result<Metadata, DecodeError>) -> Result<
    MetadataView,
    DecodeError,
> {
    match outcome {
        Ok(metadata) => Ok(metadata@),
        Err(error) => Err(error),
    }
}

impl Metadata {
    /// Builds a record from the seven texts.
    pub fn new(
        make: String,
        model: String,
        flash_found: String,
        gps: String,
        altitude: String,
        description: String,
        copyright: String,
    ) -> (metadata: Metadata)
        ensures
            metadata@ == (MetadataView {
                make: make@,
                model: model@,
                flash_found: flash_found@,
                gps: gps@,
                altitude: altitude@,
                description: description@,
                copyright: copyright@,
            }),
    {
        Metadata { make, model, flash_found, gps, altitude, description, copyright }
    }

    /// Decodes the tag container embedded in `vector` and projects its entries
    /// onto a fresh record. A buffer without a container that can be parsed is
    /// reported as an error; in particular every buffer that begins like none
    /// of the supported image formats.
    pub fn get_metadata(vector: Vec<u8>) -> (outcome: Result<Metadata, DecodeError>)
        ensures
            outcome_view(outcome) == extracted(vector@),
            !has_container_signature(vector@) ==> outcome == Err::<Metadata, DecodeError>(
                DecodeError::MalformedContainer,
            ),
    {
        match decode(vector.as_slice()) {
            Ok(entries) => Ok(map_entries(entries.as_slice())),
            Err(error) => Err(error),
        }
    }

    /// The manufacturer of the camera.
    pub fn make(&self) -> (text: String)
        ensures
            text@ == self@.make,
    {
        self.make.clone()
    }

    /// Overwrites `make` and nothing else.
    pub fn set_make(&mut self, make: String)
        ensures
            final(self)@ == (MetadataView { make: make@, ..old(self)@ }),
    {
        self.make = make;
    }

    /// The model of the camera.
    pub fn model(&self) -> (text: String)
        ensures
            text@ == self@.model,
    {
        self.model.clone()
    }

    /// Overwrites `model` and nothing else.
    pub fn set_model(&mut self, model: String)
        ensures
            final(self)@ == (MetadataView { model: model@, ..old(self)@ }),
    {
        self.model = model;
    }

    /// The state of the flash, in words.
    pub fn flash_found(&self) -> (text: String)
        ensures
            text@ == self@.flash_found,
    {
        self.flash_found.clone()
    }

    /// Overwrites `flash_found` and nothing else.
    pub fn set_flash_found(&mut self, flash_found: String)
        ensures
            final(self)@ == (MetadataView { flash_found: flash_found@, ..old(self)@ }),
    {
        self.flash_found = flash_found;
    }

    /// The JSON array of at most one coordinate object.
    pub fn gps(&self) -> (text: String)
        ensures
            text@ == self@.gps,
    {
        self.gps.clone()
    }

    /// Overwrites `gps` and nothing else.
    pub fn set_gps(&mut self, gps: String)
        ensures
            final(self)@ == (MetadataView { gps: gps@, ..old(self)@ }),
    {
        self.gps = gps;
    }

    /// The altitude with its unit.
    pub fn altitude(&self) -> (text: String)
        ensures
            text@ == self@.altitude,
    {
        self.altitude.clone()
    }

    /// Overwrites `altitude` and nothing else.
    pub fn set_altitude(&mut self, altitude: String)
        ensures
            final(self)@ == (MetadataView { altitude: altitude@, ..old(self)@ }),
    {
        self.altitude = altitude;
    }

    /// The title of the image.
    pub fn description(&self) -> (text: String)
        ensures
            text@ == self@.description,
    {
        self.description.clone()
    }

    /// Overwrites `description` and nothing else.
    pub fn set_description(&mut self, description: String)
        ensures
            final(self)@ == (MetadataView { description: description@, ..old(self)@ }),
    {
        self.description = description;
    }

    /// The copyright notice.
    pub fn copyright(&self) -> (text: String)
        ensures
            text@ == self@.copyright,
    {
        self.copyright.clone()
    }

    /// Overwrites `copyright` and nothing else.
    pub fn set_copyright(&mut self, copyright: String)
        ensures
            final(self)@ == (MetadataView { copyright: copyright@, ..old(self)@ }),
    {
        self.copyright = copyright;
    }
}

} // verus!
