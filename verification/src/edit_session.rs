//! Edit sessions: the host grants one exclusive, synchronous window on a
//! document, runs a single callback inside it, and returns.

use vstd::prelude::*;

use crate::error::ImeError;
use crate::host::{CompositionId, ContextId, Reply, ReplyView};

verus! {

/// What the callback of an edit session does to the document.
#[derive(Debug, PartialEq, Eq)]
pub enum EditOp {
    /// Take an empty range at the selection, without changing the text, and
    /// start a composition anchored there.
    StartComposition,
    /// End the composition.
    EndComposition { composition: CompositionId },
    /// Replace the whole text of the composition's range with these UTF-16
    /// code units, and tag the range with the display attribute.
    SetText { composition: CompositionId, text: Vec<u16>, attribute: u32 },
    /// Ask the active view for the rectangle that bounds the composition's
    /// range.
    TextExt { composition: CompositionId },
    /// Read the selection, collapse it to its start, move that point back by
    /// up to `limit` code units, halting before any embedded object, and
    /// read the text between the moved point and the selection's start.
    PrecedingText { limit: u32 },
}

/// What a callback does, over the values it carries.
pub enum EditOpView {
    StartComposition,
    EndComposition { composition: CompositionId },
    SetText { composition: CompositionId, text: Seq<u16>, attribute: u32 },
    TextExt { composition: CompositionId },
    PrecedingText { limit: u32 },
}

impl View for EditOp {
    type V = EditOpView;

    open spec fn view(&self) -> EditOpView {
        match *self {
            EditOp::StartComposition => EditOpView::StartComposition,
            EditOp::EndComposition { composition } => EditOpView::EndComposition { composition },
            EditOp::SetText { composition, text, attribute } => EditOpView::SetText {
                composition,
                text: text@,
                attribute,
            },
            EditOp::TextExt { composition } => EditOpView::TextExt { composition },
            EditOp::PrecedingText { limit } => EditOpView::PrecedingText { limit },
        }
    }
}

/// What the callback of an edit session brought back.
#[derive(Debug, PartialEq, Eq)]
pub enum EditReply {
    /// The composition that was started.
    Started(CompositionId),
    /// The composition was ended.
    Ended,
    /// The text was replaced.
    TextSet,
    /// The rectangle of the composition's range, in screen pixels, and
    /// whether it was clipped.
    TextExt { left: i32, top: i32, right: i32, bottom: i32, clipped: bool },
    /// The code units that were read before the selection.
    PrecedingText(Vec<u16>),
}

/// What a callback brought back, over the values it carries.
pub enum EditReplyView {
    Started(CompositionId),
    Ended,
    TextSet,
    TextExt { left: i32, top: i32, right: i32, bottom: i32, clipped: bool },
    PrecedingText(Seq<u16>),
}

impl View for EditReply {
    type V = EditReplyView;

    open spec fn view(&self) -> EditReplyView {
        match *self {
            EditReply::Started(composition) => EditReplyView::Started(composition),
            EditReply::Ended => EditReplyView::Ended,
            EditReply::TextSet => EditReplyView::TextSet,
            EditReply::TextExt { left, top, right, bottom, clipped } => EditReplyView::TextExt {
                left,
                top,
                right,
                bottom,
                clipped,
            },
            EditReply::PrecedingText(units) => EditReplyView::PrecedingText(units@),
        }
    }
}

/// The request for one edit session: a synchronous read and write lock on
/// `context`, taken in the name of `client_id`, under which `callback` runs
/// exactly once.
#[derive(Debug, PartialEq, Eq)]
pub struct EditSession {
    pub client_id: u32,
    pub context: ContextId,
    pub callback: EditOp,
}

/// An edit session, over the values it carries.
pub struct EditSessionView {
    pub client_id: u32,
    pub context: ContextId,
    pub callback: EditOpView,
}

impl View for EditSession {
    type V = EditSessionView;

    open spec fn view(&self) -> EditSessionView {
        EditSessionView { client_id: self.client_id, context: self.context, callback: self.callback@ }
    }
}

/// What the answer to an edit session amounts to: what the callback brought,
/// where the session ran, and `HostRejectedSession` for any other answer.
pub open spec fn session_result(reply: ReplyView) -> Result<EditReplyView, ImeError> {
    match reply {
        ReplyView::Session(brought) => Ok(brought),
        _ => Err(ImeError::HostRejectedSession),
    }
}

impl EditSession {
    /// The request for an edit session on `context`.
    pub fn new(client_id: u32, context: ContextId, callback: EditOp) -> (session: EditSession)
        ensures
            session@ == (EditSessionView { client_id, context, callback: callback@ }),
    {
        EditSession { client_id, context, callback }
    }

    /// Takes the answer to an edit session: what its callback brought, or
    /// `HostRejectedSession` where the session did not run. A rejection is
    /// handed on as it is, and nothing is tried again.
    pub fn handle(reply: Reply) -> (r: Result<EditReply, ImeError>)
        ensures
            match r {
                Ok(brought) => session_result(reply@) == Ok::<EditReplyView, ImeError>(brought@),
                Err(e) => session_result(reply@) == Err::<EditReplyView, ImeError>(e),
            },
    {
        match reply {
            Reply::Session(brought) => Ok(brought),
            _ => Err(ImeError::HostRejectedSession),
        }
    }
}

} // verus!
