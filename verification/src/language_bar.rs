//! The input method's item on the language bar: what it tells the bar of
//! itself, and how it answers a sink that wants to be advised.

use vstd::prelude::*;

use crate::error::ComError;
use crate::globals::{GUID_LBI_INPUTMODE, GUID_TEXT_SERVICE, IID_LANG_BAR_ITEM_SINK, TEXTSERVICE_LANGBARITEMSINK_COOKIE};
use crate::guid::Guid;

verus! {

/// The style of an item that is a button.
pub const TF_LBI_STYLE_BTN_BUTTON: u32 = 0x10000;

/// The style of an item whose icon takes the colour of the text.
pub const TF_LBI_STYLE_TEXTCOLORICON: u32 = 0x20;

/// What the item tells the language bar of itself.
#[derive(Clone, Copy, Debug, PartialEq, Eq, Structural)]
pub struct LangBarItemInfo {
    pub service: Guid,
    pub item: Guid,
    pub style: u32,
    pub sort: u32,
}

/// The input method's item on the language bar.
#[derive(Clone, Copy, Debug, PartialEq, Eq, Structural)]
pub struct LanguageBar;

impl LanguageBar {
    /// What the item tells the language bar of itself: a button of the text
    /// service that shows the input mode, with an icon in the text's colour.
    pub fn info() -> (info: LangBarItemInfo)
        ensures
            info == (LangBarItemInfo {
                service: Guid(GUID_TEXT_SERVICE),
                item: Guid(GUID_LBI_INPUTMODE),
                style: 0x10020,
                sort: 0,
            }),
    {
        LangBarItemInfo {
            service: Guid(GUID_TEXT_SERVICE),
            item: Guid(GUID_LBI_INPUTMODE),
            style: TF_LBI_STYLE_BTN_BUTTON + TF_LBI_STYLE_TEXTCOLORICON,
            sort: 0,
        }
    }

    /// The item's status: nothing is set.
    pub fn status() -> (status: u32)
        ensures
            status == 0,
    {
        0
    }

    /// A sink asks to be advised. The item takes a sink of language bar
    /// items, and only where one is given; it answers with its one cookie.
    pub fn advise_sink(riid: Guid, has_sink: bool) -> (r: Result<u32, ComError>)
        ensures
            r is Ok <==> riid == Guid(IID_LANG_BAR_ITEM_SINK) && has_sink,
            r matches Ok(cookie) ==> cookie == TEXTSERVICE_LANGBARITEMSINK_COOKIE,
            r matches Err(e) ==> e == ComError::InvalidArg,
    {
        if riid != Guid(IID_LANG_BAR_ITEM_SINK) {
            return Err(ComError::InvalidArg);
        }
        if !has_sink {
            return Err(ComError::InvalidArg);
        }
        Ok(TEXTSERVICE_LANGBARITEMSINK_COOKIE)
    }

    /// A sink gives its cookie back. Any cookie but the item's own is
    /// `CannotConnect`.
    pub fn unadvise_sink(cookie: u32) -> (r: Result<(), ComError>)
        ensures
            r is Ok <==> cookie == TEXTSERVICE_LANGBARITEMSINK_COOKIE,
            r matches Err(e) ==> e == ComError::CannotConnect,
    {
        if cookie != TEXTSERVICE_LANGBARITEMSINK_COOKIE {
            return Err(ComError::CannotConnect);
        }
        Ok(())
    }
}

} // verus!
