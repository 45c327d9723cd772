//! Display attributes: how the host draws text that is being composed.

use vstd::prelude::*;
use vstd::string::*;

use crate::globals::{GUID_DISPLAY_ATTRIBUTE_CONVERTED, GUID_DISPLAY_ATTRIBUTE_FOCUSED, GUID_DISPLAY_ATTRIBUTE_INPUT};
use crate::guid::Guid;

verus! {

/// The kind of a colour that is not set.
pub const TF_CT_NONE: i32 = 0;

/// A solid underline.
pub const TF_LS_SOLID: i32 = 1;

/// A squiggly underline.
pub const TF_LS_SQUIGGLE: i32 = 4;

/// Text as it is typed.
pub const TF_ATTR_INPUT: i32 = 0;

/// Converted text that has the focus.
pub const TF_ATTR_TARGET_CONVERTED: i32 = 1;

/// Converted text.
pub const TF_ATTR_CONVERTED: i32 = 2;

/// A colour: its kind, and the index or the value that the kind reads.
#[derive(Clone, Copy, Debug, PartialEq, Eq, Structural)]
pub struct Color {
    pub kind: i32,
    pub value: u32,
}

/// How a run of text is drawn.
#[derive(Clone, Copy, Debug, PartialEq, Eq, Structural)]
pub struct DisplayAttribute {
    pub text: Color,
    pub background: Color,
    pub line_style: i32,
    pub bold_line: bool,
    pub line: Color,
    pub attr: i32,
}

/// An attribute with no colour set, the given underline and the given state.
pub open spec fn plain_attribute(line_style: i32, attr: i32) -> DisplayAttribute {
    DisplayAttribute {
        text: Color { kind: TF_CT_NONE, value: 0 },
        background: Color { kind: TF_CT_NONE, value: 0 },
        line_style,
        bold_line: false,
        line: Color { kind: TF_CT_NONE, value: 0 },
        attr,
    }
}

fn plain(line_style: i32, attr: i32) -> (attribute: DisplayAttribute)
    ensures
        attribute == plain_attribute(line_style, attr),
{
    DisplayAttribute {
        text: Color { kind: TF_CT_NONE, value: 0 },
        background: Color { kind: TF_CT_NONE, value: 0 },
        line_style,
        bold_line: false,
        line: Color { kind: TF_CT_NONE, value: 0 },
        attr,
    }
}

/// The clause that has the focus: a solid underline.
pub fn display_attribute_focused() -> (attribute: DisplayAttribute)
    ensures
        attribute == plain_attribute(TF_LS_SOLID, TF_ATTR_TARGET_CONVERTED),
{
    plain(TF_LS_SOLID, TF_ATTR_TARGET_CONVERTED)
}

/// Converted text: a solid underline.
pub fn display_attribute_converted() -> (attribute: DisplayAttribute)
    ensures
        attribute == plain_attribute(TF_LS_SOLID, TF_ATTR_CONVERTED),
{
    plain(TF_LS_SOLID, TF_ATTR_CONVERTED)
}

/// Text as it is typed: a squiggly underline.
pub fn display_attribute_input() -> (attribute: DisplayAttribute)
    ensures
        attribute == plain_attribute(TF_LS_SQUIGGLE, TF_ATTR_INPUT),
{
    plain(TF_LS_SQUIGGLE, TF_ATTR_INPUT)
}

/// One display attribute, over the values it holds.
pub struct DisplayAttributeInfoView {
    pub description: Seq<char>,
    pub guid: Guid,
    /// How the text is drawn now.
    pub attribute: DisplayAttribute,
    /// How the text was drawn at first.
    pub attribute_backup: DisplayAttribute,
}

/// One display attribute that the text service offers. The host may change
/// how it is drawn, and reset it to what it was at first.
#[derive(Debug, PartialEq, Eq)]
pub struct DisplayAttributeInfo {
    description: String,
    guid: Guid,
    attribute: DisplayAttribute,
    attribute_backup: DisplayAttribute,
}

impl View for DisplayAttributeInfo {
    type V = DisplayAttributeInfoView;

    closed spec fn view(&self) -> DisplayAttributeInfoView {
        DisplayAttributeInfoView {
            description: self.description@,
            guid: self.guid,
            attribute: self.attribute,
            attribute_backup: self.attribute_backup,
        }
    }
}

impl DisplayAttributeInfo {
    pub fn new(description: String, guid: Guid, attribute: DisplayAttribute) -> (info:
        DisplayAttributeInfo)
        ensures
            info@ == (DisplayAttributeInfoView {
                description: description@,
                guid,
                attribute,
                attribute_backup: attribute,
            }),
    {
        DisplayAttributeInfo { description, guid, attribute, attribute_backup: attribute }
    }

    /// How the text is drawn now.
    pub fn get_attribute_info(&self) -> (attribute: DisplayAttribute)
        ensures
            attribute == self@.attribute,
    {
        self.attribute
    }

    pub fn get_guid(&self) -> (guid: Guid)
        ensures
            guid == self@.guid,
    {
        self.guid
    }

    pub fn get_description(&self) -> (description: &str)
        ensures
            description@ == self@.description,
    {
        self.description.as_str()
    }

    /// Changes how the text is drawn.
    pub fn set_attribute_info(&mut self, attribute: DisplayAttribute)
        ensures
            final(self)@ == (DisplayAttributeInfoView { attribute, ..old(self)@ }),
    {
        self.attribute = attribute;
    }

    /// Draws the text again as it was drawn at first.
    pub fn reset(&mut self)
        ensures
            final(self)@ == (DisplayAttributeInfoView {
                attribute: old(self)@.attribute_backup,
                ..old(self)@
            }),
    {
        self.attribute = self.attribute_backup;
    }

    /// A copy with the same values.
    pub fn duplicate(&self) -> (copy: DisplayAttributeInfo)
        ensures
            copy@ == self@,
    {
        DisplayAttributeInfo {
            description: self.description.clone(),
            guid: self.guid,
            attribute: self.attribute,
            attribute_backup: self.attribute_backup,
        }
    }
}

/// What a sequence of display attributes holds, one by one.
pub open spec fn info_views(infos: Seq<DisplayAttributeInfo>) -> Seq<DisplayAttributeInfoView> {
    Seq::new(infos.len(), |i: int| infos[i]@)
}

/// The display attributes that the text service offers, in the order in
/// which they are enumerated.
pub open spec fn offered_attributes() -> Seq<DisplayAttributeInfoView> {
    seq![
        DisplayAttributeInfoView {
            description: "Focused"@,
            guid: Guid(GUID_DISPLAY_ATTRIBUTE_FOCUSED),
            attribute: plain_attribute(TF_LS_SOLID, TF_ATTR_TARGET_CONVERTED),
            attribute_backup: plain_attribute(TF_LS_SOLID, TF_ATTR_TARGET_CONVERTED),
        },
        DisplayAttributeInfoView {
            description: "Converted"@,
            guid: Guid(GUID_DISPLAY_ATTRIBUTE_CONVERTED),
            attribute: plain_attribute(TF_LS_SOLID, TF_ATTR_CONVERTED),
            attribute_backup: plain_attribute(TF_LS_SOLID, TF_ATTR_CONVERTED),
        },
        DisplayAttributeInfoView {
            description: "Input"@,
            guid: Guid(GUID_DISPLAY_ATTRIBUTE_INPUT),
            attribute: plain_attribute(TF_LS_SQUIGGLE, TF_ATTR_INPUT),
            attribute_backup: plain_attribute(TF_LS_SQUIGGLE, TF_ATTR_INPUT),
        },
    ]
}

/// The place of the first attribute in `infos` whose identifier is `guid`.
pub open spec fn first_with(infos: Seq<DisplayAttributeInfoView>, guid: Guid) -> Option<int>
    decreases infos.len(),
{
    if infos.len() == 0 {
        None
    } else {
        match first_with(infos.drop_last(), guid) {
            Some(i) => Some(i),
            None => if infos.last().guid == guid {
                Some(infos.len() - 1)
            } else {
                None
            },
        }
    }
}

/// Walks through the display attributes that the text service offers.
#[derive(Debug, PartialEq, Eq)]
pub struct EnumDisplayAttributeInfo {
    attributes: Vec<DisplayAttributeInfo>,
    index: usize,
}

impl EnumDisplayAttributeInfo {
    /// The attributes that are walked through.
    pub closed spec fn infos(&self) -> Seq<DisplayAttributeInfoView> {
        info_views(self.attributes@)
    }

    /// How many attributes lie behind the walker. It may be more than there
    /// are, after a skip.
    pub closed spec fn position(&self) -> nat {
        self.index as nat
    }

    /// A walker at the start of the offered attributes.
    pub fn new() -> (walker: EnumDisplayAttributeInfo)
        ensures
            walker.infos() == offered_attributes(),
            walker.position() == 0,
    {
        let mut attributes: Vec<DisplayAttributeInfo> = Vec::new();
        attributes.push(
            DisplayAttributeInfo::new(
                String::from_str("Focused"),
                Guid(GUID_DISPLAY_ATTRIBUTE_FOCUSED),
                display_attribute_focused(),
            ),
        );
        attributes.push(
            DisplayAttributeInfo::new(
                String::from_str("Converted"),
                Guid(GUID_DISPLAY_ATTRIBUTE_CONVERTED),
                display_attribute_converted(),
            ),
        );
        attributes.push(
            DisplayAttributeInfo::new(
                String::from_str("Input"),
                Guid(GUID_DISPLAY_ATTRIBUTE_INPUT),
                display_attribute_input(),
            ),
        );
        assert(info_views(attributes@) =~= offered_attributes());
        EnumDisplayAttributeInfo { attributes, index: 0 }
    }

    /// The attributes that are walked through.
    pub fn attributes(&self) -> (attributes: &Vec<DisplayAttributeInfo>)
        ensures
            info_views(attributes@) == self.infos(),
    {
        &self.attributes
    }

    /// How many attributes lie behind the walker.
    pub fn index(&self) -> (index: usize)
        ensures
            index == self.position(),
    {
        self.index
    }

    /// A walker over the offered attributes at the same place as this one.
    pub fn duplicate(&self) -> (copy: EnumDisplayAttributeInfo)
        ensures
            copy.infos() == offered_attributes(),
            copy.position() == self.position(),
    {
        let mut copy = EnumDisplayAttributeInfo::new();
        copy.index = self.index;
        copy
    }

    /// Steps over up to `count` attributes. Returns where the step began
    /// and how many attributes it covered: as many as were asked for, or as
    /// were left.
    pub fn next(&mut self, count: u32) -> (fetched: (usize, u32))
        ensures
            final(self).infos() == old(self).infos(),
            fetched.0 == old(self).position(),
            fetched.1 == if old(self).position() >= old(self).infos().len() {
                0
            } else if count <= old(self).infos().len() - old(self).position() {
                count as int
            } else {
                old(self).infos().len() - old(self).position()
            },
            final(self).position() == old(self).position() + fetched.1,
    {
        let start = self.index;
        let mut fetched: u32 = 0;
        let mut index = self.index;
        while fetched < count && index < self.attributes.len()
            invariant
                start == self.index,
                index == start + fetched,
                fetched <= count,
                index <= self.attributes@.len() || fetched == 0,
            decreases count - fetched,
        {
            fetched += 1;
            index += 1;
        }
        self.index = index;
        (start, fetched)
    }

    /// Goes back to the start.
    pub fn reset(&mut self)
        ensures
            final(self).infos() == old(self).infos(),
            final(self).position() == 0,
    {
        self.index = 0;
    }

    /// Steps over `count` attributes without looking at them, also beyond
    /// the last.
    pub fn skip(&mut self, count: u32)
        requires
            old(self).position() + count <= usize::MAX,
        ensures
            final(self).infos() == old(self).infos(),
            final(self).position() == old(self).position() + count,
    {
        self.index = self.index + count as usize;
    }

    /// The place of the first attribute whose identifier is `guid`.
    pub fn find(&self, guid: Guid) -> (place: Option<usize>)
        ensures
            match place {
                Some(i) => first_with(self.infos(), guid) == Some(i as int),
                None => first_with(self.infos(), guid) is None,
            },
    {
        let mut i: usize = 0;
        while i < self.attributes.len()
            invariant
                i <= self.attributes@.len(),
                first_with(self.infos().take(i as int), guid) is None,
            decreases self.attributes@.len() - i,
        {
            let ghost all = self.infos();
            if self.attributes[i].get_guid() == guid {
                proof {
                    assert(all.take(i + 1).drop_last() =~= all.take(i as int));
                    lemma_first_with_extends(all, guid, i + 1);
                }
                return Some(i);
            }
            proof {
                assert(all.take(i + 1).drop_last() =~= all.take(i as int));
            }
            i += 1;
        }
        assert(self.infos().take(i as int) =~= self.infos());
        None
    }
}

/// What is found in the first `n` attributes is found in all of them.
proof fn lemma_first_with_extends(infos: Seq<DisplayAttributeInfoView>, guid: Guid, n: int)
    requires
        0 <= n <= infos.len(),
        first_with(infos.take(n), guid) is Some,
    ensures
        first_with(infos, guid) == first_with(infos.take(n), guid),
    decreases infos.len() - n,
{
    if n < infos.len() {
        assert(infos.take(n + 1).drop_last() =~= infos.take(n));
        lemma_first_with_extends(infos, guid, n + 1);
    } else {
        assert(infos.take(n) =~= infos);
    }
}

} // verus!
