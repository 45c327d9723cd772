//! The names and identifiers under which the input method is known. An
//! identifier is given as its number; `Guid` wraps it.

use vstd::prelude::*;

verus! {

/// The registry key under which classes are listed.
pub const CLSID_PREFIX: &'static str = "CLSID\\";

/// The subkey of a class that names its in-process server.
pub const INPROC_SUFFIX: &'static str = "\\InProcServer32";

/// The name under which the input method is shown.
pub const SERVICE_NAME: &'static str = "Azookey";

/// The class of the text service.
pub const GUID_TEXT_SERVICE: u128 = 0xffdefe79_2fc2_11ef_b16b_94e70b2c378c;

/// The language profile of the text service.
pub const GUID_PROFILE: u128 = 0xffdefe7a_2fc2_11ef_b16b_94e70b2c378c;

/// The display attribute of text as it is typed.
pub const GUID_DISPLAY_ATTRIBUTE_INPUT: u128 = 0xffdefe7b_2fc2_11ef_b16b_94e70b2c378c;

/// The display attribute of converted text.
pub const GUID_DISPLAY_ATTRIBUTE_CONVERTED: u128 = 0xffdefe7c_2fc2_11ef_b16b_94e70b2c378c;

/// The display attribute of the clause that has the focus.
pub const GUID_DISPLAY_ATTRIBUTE_FOCUSED: u128 = 0xffdefe7d_2fc2_11ef_b16b_94e70b2c378c;

/// The cookie that the language bar item hands to its one sink.
pub const TEXTSERVICE_LANGBARITEMSINK_COOKIE: u32 = 0x0fab0fab;

/// The interface that every object has.
pub const IID_UNKNOWN: u128 = 0x00000000_0000_0000_c000_000000000046;

/// The interface of class factories.
pub const IID_CLASS_FACTORY: u128 = 0x00000001_0000_0000_c000_000000000046;

/// The interface of text input processors.
pub const IID_TEXT_INPUT_PROCESSOR: u128 = 0xaa80e7f7_2021_11d2_93e0_0060b067b86e;

/// The interface of the sinks of language bar items.
pub const IID_LANG_BAR_ITEM_SINK: u128 = 0x57dbe1a0_de25_11d2_afdd_00105a2799b5;

/// The language bar item that shows the input mode.
pub const GUID_LBI_INPUTMODE: u128 = 0x2c77a81e_41cc_4178_a3a7_5f8a987568e6;

} // verus!
