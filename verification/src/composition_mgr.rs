//! The composition of one session: the editable, not yet committed text in
//! the focused document. It is either inactive or active, and every change to
//! the document goes through one edit session.
//!
//! Each operation comes in two halves. The first half says which edit session
//! is to be run; the second takes the answer and says what it brought.

use vstd::prelude::*;
use vstd::string::*;

use crate::edit_session::{EditOp, EditOpView, EditReply, EditReplyView, EditSession, EditSessionView, session_result};
use crate::error::ImeError;
use crate::host::{CompositionId, ContextId, Reply, ReplyView, Request, RequestView};
use crate::ui::LocateEvent;
use crate::wide::{encode_utf16, utf16_units};

verus! {

/// How many code units before the caret are read as context.
pub const PRECEDING_TEXT_LIMIT: u32 = 20;

/// The code unit that stands for an embedded object in a document's text.
pub const EMBEDDED_OBJECT: u16 = 0xFFFC;

/// How many code units at the end of `units` lie within `limit` and behind
/// the last embedded object.
pub open spec fn window_len(units: Seq<u16>, limit: nat) -> nat
    decreases limit,
{
    if limit == 0 || units.len() == 0 || units.last() == EMBEDDED_OBJECT {
        0
    } else {
        1 + window_len(units.drop_last(), (limit - 1) as nat)
    }
}

/// The text before the caret that is handed on as context: the longest end
/// of `units` that has at most `limit` code units and no embedded object.
pub open spec fn preceding_window(units: Seq<u16>, limit: nat) -> Seq<u16> {
    units.skip(units.len() - window_len(units, limit))
}

/// The window is an end of the text, within the limit and within the text.
pub proof fn lemma_window_len(units: Seq<u16>, limit: nat)
    ensures
        window_len(units, limit) <= limit,
        window_len(units, limit) <= units.len(),
        forall|i: int|
            units.len() - window_len(units, limit) <= i < units.len() ==> units[i]
                != EMBEDDED_OBJECT,
        window_len(units, limit) == limit || window_len(units, limit) == units.len() || units[units.len()
            - window_len(units, limit) - 1] == EMBEDDED_OBJECT,
    decreases limit,
{
    if limit == 0 || units.len() == 0 || units.last() == EMBEDDED_OBJECT {
    } else {
        let rest = units.drop_last();
        lemma_window_len(rest, (limit - 1) as nat);
        assert forall|i: int|
            units.len() - window_len(units, limit) <= i < units.len() implies units[i]
            != EMBEDDED_OBJECT by {
            if i < rest.len() {
                assert(rest[i] == units[i]);
            }
        }
        let k = window_len(rest, (limit - 1) as nat);
        if k != limit - 1 && k != rest.len() {
            assert(rest[rest.len() - k - 1] == units[units.len() - (k + 1) - 1]);
        }
    }
}

/// Cuts the text that the host read before the caret down to the window that
/// is handed on.
pub fn preceding_text_window(units: &[u16], limit: u32) -> (window: Vec<u16>)
    ensures
        window@ == preceding_window(units@, limit as nat),
{
    let n = units.len();
    let mut k: usize = 0;
    assert(units@.take(n as int) =~= units@);
    while k < n && (k as u64) < (limit as u64) && units[n - 1 - k] != EMBEDDED_OBJECT
        invariant
            n == units@.len(),
            k <= n,
            k <= limit,
            window_len(units@, limit as nat) == k + window_len(
                units@.take(n - k),
                (limit - k) as nat,
            ),
        decreases n - k,
    {
        proof {
            let here = units@.take(n - k);
            assert(here.last() == units@[n - 1 - k]);
            assert(here.drop_last() =~= units@.take(n - (k + 1)));
        }
        k += 1;
    }
    proof {
        let here = units@.take(n - k);
        if k < n {
            assert(here.last() == units@[n - 1 - k]);
        }
        assert(window_len(here, (limit - k) as nat) == 0);
    }
    let mut window: Vec<u16> = Vec::new();
    let mut i: usize = n - k;
    while i < n
        invariant
            n == units@.len(),
            k <= n,
            n - k <= i <= n,
            window@ == units@.subrange(n - k, i as int),
        decreases n - i,
    {
        window.push(units[i]);
        assert(units@.subrange(n - k, i + 1) =~= units@.subrange(n - k, i as int).push(
            units@[i as int],
        ));
        i += 1;
    }
    assert(units@.subrange(n - k, n as int) =~= units@.skip(n - k));
    window
}

/// The composition of a session, over the values it holds.
pub struct CompositionMgrView {
    /// The composition that the host has started, while the state is Active.
    pub composition: Option<CompositionId>,
    /// The context in which the composition was last started.
    pub context: Option<ContextId>,
    /// The session's identifier, which the host gave at activation.
    pub client_id: u32,
    /// The display attribute that composed text is tagged with.
    pub display_attribute: u32,
    /// The text of the composition, as the document holds it.
    pub preedit: Seq<char>,
    /// The text that the host was asked to write and has not answered for.
    pub pending: Option<Seq<char>>,
}

impl CompositionMgrView {
    /// The state is Active: a composition has been started and not ended.
    pub open spec fn active(self) -> bool {
        self.composition is Some
    }

    /// An active composition lives in a context, and an inactive one has no
    /// text, neither written nor waiting to be written.
    pub open spec fn wf(self) -> bool {
        &&& self.composition is Some ==> self.context is Some
        &&& self.composition is None ==> self.preedit == Seq::<char>::empty()
        &&& self.composition is None ==> self.pending is None
    }

    /// The edit session that runs `callback` in the composition's context.
    pub open spec fn session(self, callback: EditOpView) -> EditSessionView {
        EditSessionView { client_id: self.client_id, context: self.context->0, callback }
    }

    /// The manager of a new session.
    pub open spec fn new(client_id: u32, display_attribute: u32) -> CompositionMgrView {
        CompositionMgrView {
            composition: None,
            context: None,
            client_id,
            display_attribute,
            preedit: Seq::empty(),
            pending: None,
        }
    }

    /// Starting a composition in `context`: the context is noted, and the
    /// host is asked to start a composition at the selection. Meant for the
    /// Inactive state only.
    pub open spec fn start_composition(self, context: ContextId) -> (
        CompositionMgrView,
        EditSessionView,
    ) {
        let next = CompositionMgrView { context: Some(context), ..self };
        (next, next.session(EditOpView::StartComposition))
    }

    /// The answer to the start: a composition makes the state Active, any
    /// other answer is a rejection and changes nothing.
    pub open spec fn on_started(self, reply: ReplyView) -> (
        CompositionMgrView,
        Result<(), ImeError>,
    ) {
        match session_result(reply) {
            Ok(EditReplyView::Started(composition)) => if self.context is Some {
                (CompositionMgrView { composition: Some(composition), ..self }, Ok(()))
            } else {
                (self, Err(ImeError::HostRejectedSession))
            },
            _ => (self, Err(ImeError::HostRejectedSession)),
        }
    }

    /// Ending the composition: the host is asked to end it. Meant for the
    /// Active state only.
    pub open spec fn end_composition(self) -> EditSessionView {
        self.session(EditOpView::EndComposition { composition: self.composition->0 })
    }

    /// The answer to the end: where the composition was ended, the state is
    /// Inactive and the text is cleared; any other answer is a rejection and
    /// changes nothing.
    pub open spec fn on_ended(self, reply: ReplyView) -> (
        CompositionMgrView,
        Result<(), ImeError>,
    ) {
        match session_result(reply) {
            Ok(EditReplyView::Ended) => (
                CompositionMgrView {
                    composition: None,
                    preedit: Seq::empty(),
                    pending: None,
                    ..self
                },
                Ok(()),
            ),
            _ => (self, Err(ImeError::HostRejectedSession)),
        }
    }

    /// Setting the text: the host is asked to replace the whole range of the
    /// composition with `text` and to tag the range. Until the host has
    /// answered, `text` only waits; the composition's text is what the
    /// document holds. Meant for the Active state only.
    pub open spec fn set_text(self, text: Seq<char>) -> (CompositionMgrView, EditSessionView) {
        (
            CompositionMgrView { pending: Some(text), ..self },
            self.session(
                EditOpView::SetText {
                    composition: self.composition->0,
                    text: utf16_units(text),
                    attribute: self.display_attribute,
                },
            ),
        )
    }

    /// The answer to the replacement: where the host replaced the text, the
    /// waiting text is the composition's text from here on. Any other answer
    /// is a rejection: the operation is abandoned, and the composition's text
    /// is what it was before `set_text`. Either way nothing waits any more.
    pub open spec fn on_text_set(self, reply: ReplyView) -> (
        CompositionMgrView,
        Result<(), ImeError>,
    ) {
        match (session_result(reply), self.pending) {
            (Ok(EditReplyView::TextSet), Some(text)) => (
                CompositionMgrView { preedit: text, pending: None, ..self },
                Ok(()),
            ),
            _ => (CompositionMgrView { pending: None, ..self }, Err(ImeError::HostRejectedSession)),
        }
    }

    /// Setting the text and taking the host's answer to it.
    pub open spec fn set_text_answered(self, text: Seq<char>, reply: ReplyView) -> (
        CompositionMgrView,
        Result<(), ImeError>,
    ) {
        self.set_text(text).0.on_text_set(reply)
    }

    /// Locating the composition: the host is asked for the rectangle of its
    /// range. Meant for the Active state only.
    pub open spec fn get_pos(self) -> EditSessionView {
        self.session(EditOpView::TextExt { composition: self.composition->0 })
    }

    /// The answer to the question for the rectangle: its top left corner.
    pub open spec fn on_pos(reply: ReplyView) -> Result<LocateEvent, ImeError> {
        match session_result(reply) {
            Ok(EditReplyView::TextExt { left, top, right, bottom, clipped }) => Ok(
                LocateEvent { x: left, y: top },
            ),
            _ => Err(ImeError::HostRejectedSession),
        }
    }

    /// Reading the text before the caret begins with the question for the
    /// parent of the document that the composition's context belongs to.
    pub open spec fn get_preceding_text(self) -> RequestView {
        RequestView::ParentContext(self.context->0)
    }

    /// The answer to the question for the parent of `current`: a parent is
    /// asked for its own parent; without a parent, `current` is the topmost
    /// document and is read.
    pub open spec fn on_parent(self, current: ContextId, limit: u32, reply: ReplyView) -> Result<
        RequestView,
        ImeError,
    > {
        match reply {
            ReplyView::Context(parent) => Ok(RequestView::ParentContext(parent)),
            ReplyView::NoContext => Ok(
                RequestView::Edit(
                    EditSessionView {
                        client_id: self.client_id,
                        context: current,
                        callback: EditOpView::PrecedingText { limit },
                    },
                ),
            ),
            _ => Err(ImeError::HostRejectedSession),
        }
    }

    /// The answer to the reading: what was read, cut to the window.
    pub open spec fn on_preceding_text(limit: u32, reply: ReplyView) -> Result<Seq<u16>, ImeError> {
        match session_result(reply) {
            Ok(EditReplyView::PrecedingText(units)) => Ok(preceding_window(units, limit as nat)),
            _ => Err(ImeError::HostRejectedSession),
        }
    }
}

/// Reading the text of the composition right after a replacement that the
/// host granted gives back exactly the text that was set.
pub proof fn lemma_set_text_round_trip(mgr: CompositionMgrView, text: Seq<char>)
    ensures
        mgr.set_text_answered(text, ReplyView::Session(EditReplyView::TextSet)).0.preedit == text,
        mgr.set_text_answered(text, ReplyView::Session(EditReplyView::TextSet)).1 is Ok,
{
}

/// A replacement that the host denies is abandoned: the failure is
/// `HostRejectedSession`, and the composition's text, its state and its
/// context are what they were before `set_text`.
pub proof fn lemma_denied_set_text_changes_nothing(
    mgr: CompositionMgrView,
    text: Seq<char>,
    reply: ReplyView,
)
    requires
        !(reply matches ReplyView::Session(EditReplyView::TextSet)),
    ensures
        mgr.set_text(text).0.preedit == mgr.preedit,
        mgr.set_text_answered(text, reply) == (
            CompositionMgrView { pending: None, ..mgr },
            Err::<(), ImeError>(ImeError::HostRejectedSession),
        ),
{
}

/// Setting the same text twice, each time granted, leaves the composition
/// as the first time left it, and the second time asks the host for nothing
/// but the same replacement of the composition's range.
pub proof fn lemma_set_text_idempotent(mgr: CompositionMgrView, text: Seq<char>)
    ensures
        ({
            let granted = ReplyView::Session(EditReplyView::TextSet);
            let once = mgr.set_text_answered(text, granted).0;
            &&& once.set_text_answered(text, granted).0 == once
            &&& once.set_text(text).1 == mgr.set_text(text).1
        }),
{
}

/// Every operation leaves an active composition in a context and an
/// inactive one without text.
pub proof fn lemma_operations_keep_wf(
    mgr: CompositionMgrView,
    context: ContextId,
    text: Seq<char>,
    reply: ReplyView,
)
    requires
        mgr.wf(),
    ensures
        CompositionMgrView::new(mgr.client_id, mgr.display_attribute).wf(),
        !mgr.active() ==> mgr.start_composition(context).0.wf(),
        mgr.on_started(reply).0.wf(),
        mgr.on_ended(reply).0.wf(),
        mgr.active() ==> mgr.set_text(text).0.wf(),
        mgr.on_text_set(reply).0.wf(),
{
}

/// The text before the caret that is handed on never has more than `limit`
/// code units and never holds an embedded object, whatever the host read.
pub proof fn lemma_preceding_text_bounded(limit: u32, reply: ReplyView)
    ensures
        CompositionMgrView::on_preceding_text(limit, reply) matches Ok(text) ==> {
            &&& text.len() <= limit
            &&& forall|i: int| 0 <= i < text.len() ==> text[i] != EMBEDDED_OBJECT
        },
{
    if let ReplyView::Session(EditReplyView::PrecedingText(units)) = reply {
        lemma_window_len(units, limit as nat);
    }
}

/// Text that the host read within the limit and without crossing an embedded
/// object is handed on as it is.
pub proof fn lemma_preceding_window_keeps(units: Seq<u16>, limit: nat)
    requires
        units.len() <= limit,
        forall|i: int| 0 <= i < units.len() ==> units[i] != EMBEDDED_OBJECT,
    ensures
        preceding_window(units, limit) == units,
{
    lemma_window_len(units, limit);
    assert(units.skip(0) =~= units);
}

/// Owns the composition of one session.
#[derive(Debug, PartialEq, Eq)]
pub struct CompositionMgr {
    composition: Option<CompositionId>,
    context: Option<ContextId>,
    client_id: u32,
    display_attribute: u32,
    preedit: String,
    pending: Option<String>,
}

impl View for CompositionMgr {
    type V = CompositionMgrView;

    closed spec fn view(&self) -> CompositionMgrView {
        CompositionMgrView {
            composition: self.composition,
            context: self.context,
            client_id: self.client_id,
            display_attribute: self.display_attribute,
            preedit: self.preedit@,
            pending: match self.pending {
                Some(text) => Some(text@),
                None => None,
            },
        }
    }
}

impl CompositionMgr {
    #[verifier::type_invariant]
    pub open spec fn inv(self) -> bool {
        self@.wf()
    }

    /// The manager of a new session: Inactive, with no text.
    pub fn new(client_id: u32, display_attribute: u32) -> (mgr: CompositionMgr)
        ensures
            mgr@ == CompositionMgrView::new(client_id, display_attribute),
    {
        CompositionMgr {
            composition: None,
            context: None,
            client_id,
            display_attribute,
            preedit: String::new(),
            pending: None,
        }
    }

    /// Whether the state is Active.
    pub fn is_active(&self) -> (active: bool)
        ensures
            active == self@.active(),
            self@.wf(),
    {
        proof {
            use_type_invariant(self);
        }
        self.composition.is_some()
    }

    /// The composition that the host has started, while the state is Active.
    pub fn composition(&self) -> (composition: Option<CompositionId>)
        ensures
            composition == self@.composition,
    {
        self.composition
    }

    /// The context in which the composition was last started.
    pub fn context(&self) -> (context: Option<ContextId>)
        ensures
            context == self@.context,
            self@.wf(),
    {
        proof {
            use_type_invariant(self);
        }
        self.context
    }

    /// The text of the composition.
    pub fn preedit(&self) -> (text: &str)
        ensures
            text@ == self@.preedit,
    {
        self.preedit.as_str()
    }

    /// Begins a composition in `context`: the edit session that is returned
    /// takes an empty range at the selection and starts the composition
    /// there. The state stays Inactive until `on_started` has taken the
    /// answer. Not to be called while the state is Active.
    pub fn start_composition(&mut self, context: ContextId) -> (session: EditSession)
        requires
            !old(self)@.active(),
        ensures
            (final(self)@, session@) == old(self)@.start_composition(context),
    {
        proof {
            use_type_invariant(&*self);
        }
        self.context = Some(context);
        EditSession::new(self.client_id, context, EditOp::StartComposition)
    }

    /// Takes the answer to the session of `start_composition`. Where it
    /// brought a composition, the state becomes Active; any other answer is
    /// `HostRejectedSession` and changes nothing.
    pub fn on_started(&mut self, reply: Reply) -> (r: Result<(), ImeError>)
        ensures
            (final(self)@, r) == old(self)@.on_started(reply@),
    {
        proof {
            use_type_invariant(&*self);
        }
        match EditSession::handle(reply) {
            Ok(EditReply::Started(composition)) => {
                if self.context.is_some() {
                    self.composition = Some(composition);
                    Ok(())
                } else {
                    Err(ImeError::HostRejectedSession)
                }
            },
            _ => Err(ImeError::HostRejectedSession),
        }
    }

    /// The edit session that ends the composition. The state stays Active
    /// until `on_ended` has taken the answer.
    pub fn end_composition(&self) -> (session: EditSession)
        requires
            self@.active(),
        ensures
            session@ == self@.end_composition(),
    {
        proof {
            use_type_invariant(self);
        }
        EditSession::new(
            self.client_id,
            self.context.unwrap(),
            EditOp::EndComposition { composition: self.composition.unwrap() },
        )
    }

    /// Takes the answer to the session of `end_composition`. Where the
    /// composition was ended, the state becomes Inactive and the text is
    /// cleared; any other answer is `HostRejectedSession` and changes nothing.
    pub fn on_ended(&mut self, reply: Reply) -> (r: Result<(), ImeError>)
        ensures
            (final(self)@, r) == old(self)@.on_ended(reply@),
    {
        proof {
            use_type_invariant(&*self);
        }
        match EditSession::handle(reply) {
            Ok(EditReply::Ended) => {
                self.preedit = String::new();
                self.pending = None;
                self.composition = None;
                Ok(())
            },
            _ => Err(ImeError::HostRejectedSession),
        }
    }

    /// Asks for `text` to become the text of the composition. The edit
    /// session that is returned replaces the whole of the composition's range
    /// with `text` in UTF-16 and tags it with the display attribute. The
    /// composition's text stays what it is until `on_text_set` has taken the
    /// host's answer.
    pub fn set_text(&mut self, text: &str) -> (session: EditSession)
        requires
            old(self)@.active(),
        ensures
            (final(self)@, session@) == old(self)@.set_text(text@),
    {
        proof {
            use_type_invariant(&*self);
        }
        self.pending = Some(text.to_owned());
        EditSession::new(
            self.client_id,
            self.context.unwrap(),
            EditOp::SetText {
                composition: self.composition.unwrap(),
                text: encode_utf16(text),
                attribute: self.display_attribute,
            },
        )
    }

    /// Takes the answer to the session of `set_text`. Where the host
    /// replaced the text, the text that was asked for is the composition's
    /// text. Any other answer is `HostRejectedSession`: the composition's text
    /// is as it was before `set_text`.
    pub fn on_text_set(&mut self, reply: Reply) -> (r: Result<(), ImeError>)
        ensures
            (final(self)@, r) == old(self)@.on_text_set(reply@),
    {
        proof {
            use_type_invariant(&*self);
        }
        let mut waiting: Option<String> = None;
        std::mem::swap(&mut waiting, &mut self.pending);
        match EditSession::handle(reply) {
            Ok(EditReply::TextSet) => match waiting {
                Some(text) => {
                    self.preedit = text;
                    Ok(())
                },
                None => Err(ImeError::HostRejectedSession),
            },
            _ => Err(ImeError::HostRejectedSession),
        }
    }

    /// The edit session that asks where the composition stands on the screen.
    pub fn get_pos(&self) -> (session: EditSession)
        requires
            self@.active(),
        ensures
            session@ == self@.get_pos(),
    {
        proof {
            use_type_invariant(self);
        }
        EditSession::new(
            self.client_id,
            self.context.unwrap(),
            EditOp::TextExt { composition: self.composition.unwrap() },
        )
    }

    /// Takes the answer to the session of `get_pos`: the top left corner of
    /// the rectangle. Whether the rectangle was clipped is not handed on.
    pub fn on_pos(&self, reply: Reply) -> (r: Result<LocateEvent, ImeError>)
        ensures
            r == CompositionMgrView::on_pos(reply@),
    {
        match EditSession::handle(reply) {
            Ok(EditReply::TextExt { left, top, right: _, bottom: _, clipped: _ }) => Ok(
                LocateEvent { x: left, y: top },
            ),
            _ => Err(ImeError::HostRejectedSession),
        }
    }

    /// Begins reading the text before the caret, whatever the state: the
    /// first request asks for the parent of the document that the
    /// composition's context belongs to.
    pub fn get_preceding_text(&self) -> (request: Request)
        requires
            self@.context is Some,
        ensures
            request@ == self@.get_preceding_text(),
    {
        Request::ParentContext(self.context.unwrap())
    }

    /// Takes the answer to a question for the parent of `current`. Where
    /// there is a parent, it is asked for its own parent in turn; where there
    /// is none, `current` is the topmost document, and the edit session that
    /// is returned reads up to `limit` code units before its selection. Any
    /// other answer is `HostRejectedSession`.
    pub fn on_parent(&self, current: ContextId, limit: u32, reply: Reply) -> (r: Result<
        Request,
        ImeError,
    >)
        ensures
            match r {
                Ok(request) => self@.on_parent(current, limit, reply@) == Ok::<RequestView, ImeError>(
                    request@,
                ),
                Err(e) => self@.on_parent(current, limit, reply@) == Err::<RequestView, ImeError>(e),
            },
    {
        match reply {
            Reply::Context(parent) => Ok(Request::ParentContext(parent)),
            Reply::NoContext => Ok(
                Request::Edit(
                    EditSession::new(self.client_id, current, EditOp::PrecedingText { limit }),
                ),
            ),
            _ => Err(ImeError::HostRejectedSession),
        }
    }

    /// Takes the answer to the session that read the text before the caret:
    /// the end of what was read that has at most `limit` code units and no
    /// embedded object. Any other answer is `HostRejectedSession`.
    pub fn on_preceding_text(&self, limit: u32, reply: Reply) -> (r: Result<Vec<u16>, ImeError>)
        ensures
            match r {
                Ok(units) => CompositionMgrView::on_preceding_text(limit, reply@) == Ok::<
                    Seq<u16>,
                    ImeError,
                >(units@),
                Err(e) => CompositionMgrView::on_preceding_text(limit, reply@) == Err::<
                    Seq<u16>,
                    ImeError,
                >(e),
            },
    {
        match EditSession::handle(reply) {
            Ok(EditReply::PrecedingText(units)) => Ok(
                preceding_text_window(units.as_slice(), limit),
            ),
            _ => Err(ImeError::HostRejectedSession),
        }
    }
}

} // verus!
