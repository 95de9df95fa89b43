//! Tag identifiers, the whitelist of tags that are extracted, and tag entries.

use vstd::prelude::*;

verus! {

/// The namespace in which a tag number is read.
#[derive(Clone, Copy, Debug, PartialEq, Eq, Structural)]
pub enum TagContext {
    /// Attributes of the top-level image directories.
    Tiff,
    /// Attributes of the Exif directory.
    Exif,
    /// Attributes of the GPS directory.
    Gps,
    /// Attributes of the interoperability directory.
    Interop,
    /// A namespace this library has no name for.
    Other,
}

/// A tag identifier: a number within a namespace.
#[derive(Clone, Copy, Debug, PartialEq, Eq, Structural)]
pub struct Tag {
    pub context: TagContext,
    pub number: u16,
}

/// How the value of an entry is turned into text.
#[derive(Clone, Copy, Debug, PartialEq, Eq, Structural)]
pub enum Rendering {
    /// The display string of the value alone.
    Plain,
    /// The display string annotated with the unit that the tag's definition gives.
    WithUnit,
}

/// The places of the result that a tag entry can be written to.
#[derive(Clone, Copy, Debug, PartialEq, Eq, Structural)]
pub enum Target {
    Make,
    Model,
    FlashFound,
    Latitude,
    Longitude,
    Altitude,
    Description,
    Copyright,
}

impl Target {
    /// The tag whose entries are written to this target.
    pub open spec fn spec_tag(self) -> Tag {
        match self {
            Target::Make => Tag { context: TagContext::Tiff, number: 0x010f },
            Target::Model => Tag { context: TagContext::Tiff, number: 0x0110 },
            Target::FlashFound => Tag { context: TagContext::Exif, number: 0x9209 },
            Target::Latitude => Tag { context: TagContext::Gps, number: 0x0002 },
            Target::Longitude => Tag { context: TagContext::Gps, number: 0x0004 },
            Target::Altitude => Tag { context: TagContext::Gps, number: 0x0006 },
            Target::Description => Tag { context: TagContext::Tiff, number: 0x010e },
            Target::Copyright => Tag { context: TagContext::Tiff, number: 0x8298 },
        }
    }

    /// The rendering that entries written to this target get: the description
    /// and the copyright notice are plain strings, all others carry a unit
    /// convention.
    pub open spec fn spec_rendering(self) -> Rendering {
        match self {
            Target::Description | Target::Copyright => Rendering::Plain,
            _ => Rendering::WithUnit,
        }
    }

    #[verifier::when_used_as_spec(spec_tag)]
    pub fn tag(self) -> (tag: Tag)
        ensures
            tag == self.spec_tag(),
    {
        match self {
            Target::Make => Tag { context: TagContext::Tiff, number: 0x010f },
            Target::Model => Tag { context: TagContext::Tiff, number: 0x0110 },
            Target::FlashFound => Tag { context: TagContext::Exif, number: 0x9209 },
            Target::Latitude => Tag { context: TagContext::Gps, number: 0x0002 },
            Target::Longitude => Tag { context: TagContext::Gps, number: 0x0004 },
            Target::Altitude => Tag { context: TagContext::Gps, number: 0x0006 },
            Target::Description => Tag { context: TagContext::Tiff, number: 0x010e },
            Target::Copyright => Tag { context: TagContext::Tiff, number: 0x8298 },
        }
    }

    #[verifier::when_used_as_spec(spec_rendering)]
    pub fn rendering(self) -> (rendering: Rendering)
        ensures
            rendering == self.spec_rendering(),
    {
        match self {
            Target::Description => Rendering::Plain,
            Target::Copyright => Rendering::Plain,
            _ => Rendering::WithUnit,
        }
    }
}

impl Tag {
    /// The target that entries with this tag are written to; `None` for a tag
    /// that is not on the whitelist.
    pub open spec fn spec_target(self) -> Option<Target> {
        if exists|t: Target| t.spec_tag() == self {
            Some(choose|t: Target| t.spec_tag() == self)
        } else {
            None
        }
    }

    #[verifier::when_used_as_spec(spec_target)]
    pub fn target(self) -> (target: Option<Target>)
        ensures
            target == self.spec_target(),
    {
        let found = match self.context {
            TagContext::Tiff => {
                if self.number == 0x010f {
                    Some(Target::Make)
                } else if self.number == 0x0110 {
                    Some(Target::Model)
                } else if self.number == 0x010e {
                    Some(Target::Description)
                } else if self.number == 0x8298 {
                    Some(Target::Copyright)
                } else {
                    None
                }
            },
            TagContext::Exif => {
                if self.number == 0x9209 {
                    Some(Target::FlashFound)
                } else {
                    None
                }
            },
            TagContext::Gps => {
                if self.number == 0x0002 {
                    Some(Target::Latitude)
                } else if self.number == 0x0004 {
                    Some(Target::Longitude)
                } else if self.number == 0x0006 {
                    Some(Target::Altitude)
                } else {
                    None
                }
            },
            _ => None,
        };
        proof {
            lemma_tags_distinct();
            match found {
                Some(t) => {
                    assert(t.spec_tag() == self);
                },
                None => {
                    assert forall|t: Target| t.spec_tag() != self by {}
                },
            }
        }
        found
    }
}

/// No two targets share a tag, so the whitelist maps each tag to at most one
/// target.
pub proof fn lemma_tags_distinct()
    ensures
        forall|a: Target, b: Target| a.spec_tag() == b.spec_tag() ==> a == b,
{
}

/// A tag is mapped to a target exactly if it is that target's tag.
pub proof fn lemma_target_of(tag: Tag)
    ensures
        forall|target: Target| tag.spec_target() == Some(target) <==> tag == target.spec_tag(),
{
    lemma_tags_distinct();
}

/// One record of a tag container: its tag, and the two display forms of its
/// value.
#[derive(Clone, Debug)]
pub struct TagEntry {
    tag: Tag,
    display: String,
    display_with_unit: String,
}

/// What a [`TagEntry`] stands for.
pub struct TagEntryView {
    pub tag: Tag,
    /// The display string of the value alone.
    pub display: Seq<char>,
    /// The display string annotated with the unit of the tag's definition.
    pub display_with_unit: Seq<char>,
}

impl TagEntryView {
    /// The text of this entry in the given rendering.
    pub open spec fn rendered(self, rendering: Rendering) -> Seq<char> {
        match rendering {
            Rendering::Plain => self.display,
            Rendering::WithUnit => self.display_with_unit,
        }
    }

    /// The text that this entry contributes to `target`: its rendering by the
    /// target's rule if its tag is the target's, else nothing.
    pub open spec fn text_for(self, target: Target) -> Option<Seq<char>> {
        if self.tag == target.spec_tag() {
            Some(self.rendered(target.spec_rendering()))
        } else {
            None
        }
    }
}

impl View for TagEntry {
    type V = TagEntryView;

    closed spec fn view(&self) -> TagEntryView {
        TagEntryView {
            tag: self.tag,
            display: self.display@,
            display_with_unit: self.display_with_unit@,
        }
    }
}

impl TagEntry {
    pub fn new(tag: Tag, display: String, display_with_unit: String) -> (entry: TagEntry)
        ensures
            entry@ == (TagEntryView {
                tag,
                display: display@,
                display_with_unit: display_with_unit@,
            }),
    {
        TagEntry { tag, display, display_with_unit }
    }

    pub fn tag(&self) -> (tag: Tag)
        ensures
            tag == self@.tag,
    {
        self.tag
    }

    pub fn display(&self) -> (text: &str)
        ensures
            text@ == self@.display,
    {
        self.display.as_str()
    }

    pub fn display_with_unit(&self) -> (text: &str)
        ensures
            text@ == self@.display_with_unit,
    {
        self.display_with_unit.as_str()
    }

    /// The text of this entry in the given rendering.
    pub fn rendered(&self, rendering: Rendering) -> (text: &str)
        ensures
            text@ == self@.rendered(rendering),
    {
        match rendering {
            Rendering::Plain => self.display.as_str(),
            Rendering::WithUnit => self.display_with_unit.as_str(),
        }
    }
}

} // verus!
