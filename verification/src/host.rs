//! The vocabulary between the session engine and whoever carries out its
//! requests: the names of the host's objects, what can be asked, and what
//! can come back.
//!
//! The engine never calls the host or the conversion engine itself. Each of
//! its steps either asks for one thing to be done, and is resumed with the
//! answer, or finishes.

use vstd::prelude::*;

use crate::edit_session::{EditReply, EditReplyView, EditSession, EditSessionView};

verus! {

/// Names a document context of the host.
#[derive(Clone, Copy, Debug, PartialEq, Eq, Structural)]
pub struct ContextId(pub u64);

/// Names a document manager of the host.
#[derive(Clone, Copy, Debug, PartialEq, Eq, Structural)]
pub struct DocumentId(pub u64);

/// Names a composition that the host has started.
#[derive(Clone, Copy, Debug, PartialEq, Eq, Structural)]
pub struct CompositionId(pub u64);

/// One thing that the engine asks to be done.
#[derive(Debug, PartialEq, Eq)]
pub enum Request {
    /// Write these bytes to the conversion engine, then read one answer.
    Send(Vec<u8>),
    /// Write these bytes to the conversion engine and read nothing.
    Post(Vec<u8>),
    /// Run this edit session.
    Edit(EditSession),
    /// Find the base context of a document manager.
    BaseContext(DocumentId),
    /// Follow the parent link of the document that a context belongs to, and
    /// find the top context of the parent.
    ParentContext(ContextId),
}

/// What a request asks, over the values it carries.
pub enum RequestView {
    Send(Seq<u8>),
    Post(Seq<u8>),
    Edit(EditSessionView),
    BaseContext(DocumentId),
    ParentContext(ContextId),
}

impl View for Request {
    type V = RequestView;

    open spec fn view(&self) -> RequestView {
        match *self {
            Request::Send(bytes) => RequestView::Send(bytes@),
            Request::Post(bytes) => RequestView::Post(bytes@),
            Request::Edit(session) => RequestView::Edit(session@),
            Request::BaseContext(document) => RequestView::BaseContext(document),
            Request::ParentContext(context) => RequestView::ParentContext(context),
        }
    }
}

/// The answer to one request.
#[derive(Debug, PartialEq, Eq)]
pub enum Reply {
    /// The conversion engine answered with these bytes.
    Received(Vec<u8>),
    /// The bytes were written.
    Posted,
    /// Writing to or reading from the conversion engine failed.
    TransportFailed,
    /// The edit session ran, and this is what it brought.
    Session(EditReply),
    /// The context that was asked for.
    Context(ContextId),
    /// There is no such context: the document has no parent.
    NoContext,
    /// The host denied the edit session, or the call into the host failed.
    Rejected,
}

/// What an answer says, over the values it carries.
pub enum ReplyView {
    Received(Seq<u8>),
    Posted,
    TransportFailed,
    Session(EditReplyView),
    Context(ContextId),
    NoContext,
    Rejected,
}

impl View for Reply {
    type V = ReplyView;

    open spec fn view(&self) -> ReplyView {
        match *self {
            Reply::Received(bytes) => ReplyView::Received(bytes@),
            Reply::Posted => ReplyView::Posted,
            Reply::TransportFailed => ReplyView::TransportFailed,
            Reply::Session(reply) => ReplyView::Session(reply@),
            Reply::Context(context) => ReplyView::Context(context),
            Reply::NoContext => ReplyView::NoContext,
            Reply::Rejected => ReplyView::Rejected,
        }
    }
}

} // verus!
