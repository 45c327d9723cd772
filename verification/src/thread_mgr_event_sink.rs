//! Focus tracking: when a document gains the focus, a composition is started
//! in it unless one is active, and the text before the caret goes to the
//! conversion engine as context.

use vstd::prelude::*;
use vstd::string::*;
use vstd::utf8::*;

use crate::composition_mgr::{
    lemma_preceding_window_keeps, preceding_window, CompositionMgr, CompositionMgrView,
    EMBEDDED_OBJECT, PRECEDING_TEXT_LIMIT,
};
use crate::edit_session::{EditOpView, EditReplyView, EditSessionView};
use crate::error::ImeError;
use crate::host::{CompositionId, ContextId, DocumentId, Reply, ReplyView, Request, RequestView};
use crate::ipc::{is_plain, lemma_left_request, request_json, KeyEvent};
use crate::wide::{lemma_utf16_round_trip, utf16_lossy, utf16_lossy_text, utf16_units};

verus! {

/// How far the handling of a change of focus has come.
#[derive(Clone, Copy, Debug, PartialEq, Eq, Structural)]
pub enum FocusStage {
    /// No change of focus is being handled.
    Idle,
    /// The host was asked for the base context of the focused document.
    Resolving,
    /// The host was asked to start a composition.
    Starting,
    /// The host was asked for the parent of a document.
    Ascending,
    /// The host was asked to read the text before the caret.
    Reading,
    /// The text before the caret was handed to the conversion engine.
    Posting,
}

/// What comes next in the handling of a change of focus.
#[derive(Debug, PartialEq, Eq)]
pub enum FocusStep {
    /// This is to be done, and `resume` called with the answer.
    Ask(Request),
    /// The change of focus is dealt with.
    Finish(Result<(), ImeError>),
}

/// A step, over the values it carries.
pub enum FocusStepView {
    Ask(RequestView),
    Finish(Result<(), ImeError>),
}

impl View for FocusStep {
    type V = FocusStepView;

    open spec fn view(&self) -> FocusStepView {
        match *self {
            FocusStep::Ask(request) => FocusStepView::Ask(request@),
            FocusStep::Finish(result) => FocusStepView::Finish(result),
        }
    }
}

/// The focus tracker, over the values it holds.
pub struct ThreadMgrEventSinkView {
    pub stage: FocusStage,
    /// The document, by its context, whose parent was last asked for.
    pub current: ContextId,
}

impl ThreadMgrEventSinkView {
    /// The tracker of a new session.
    pub open spec fn new() -> ThreadMgrEventSinkView {
        ThreadMgrEventSinkView { stage: FocusStage::Idle, current: ContextId(0) }
    }

    /// The tracker with nothing in flight.
    pub open spec fn idle(self) -> ThreadMgrEventSinkView {
        ThreadMgrEventSinkView { stage: FocusStage::Idle, ..self }
    }

    /// The focus moved to `document`, or away from every document: then
    /// nothing is done.
    pub open spec fn on_set_focus(self, document: Option<DocumentId>) -> (
        ThreadMgrEventSinkView,
        FocusStepView,
    ) {
        match document {
            Some(focused) => (
                ThreadMgrEventSinkView { stage: FocusStage::Resolving, ..self },
                FocusStepView::Ask(RequestView::BaseContext(focused)),
            ),
            None => (self, FocusStepView::Finish(Ok(()))),
        }
    }

    /// Begins the search for the topmost document above the composition's
    /// context.
    pub open spec fn ascend(self, mgr: CompositionMgrView) -> (
        ThreadMgrEventSinkView,
        FocusStepView,
    ) {
        match mgr.context {
            Some(context) => (
                ThreadMgrEventSinkView { stage: FocusStage::Ascending, current: context },
                FocusStepView::Ask(mgr.get_preceding_text()),
            ),
            None => (self.idle(), FocusStepView::Finish(Err(ImeError::HostRejectedSession))),
        }
    }

    /// Takes the answer to the last request and says what comes next.
    ///
    /// - After the base context was asked for: a composition is started in
    ///   it unless one is active; then the topmost document is looked for.
    /// - While the topmost document is looked for: a parent is asked for its
    ///   own parent; in the document that has none, the text before the
    ///   caret is read.
    /// - After the text was read: it is handed to the conversion engine as a
    ///   `left` request. Neither a failure to write it there nor any answer
    ///   to it is taken further.
    ///
    /// A failure of the host ends the handling with that failure.
    pub open spec fn resume(self, mgr: CompositionMgrView, reply: ReplyView) -> (
        ThreadMgrEventSinkView,
        CompositionMgrView,
        FocusStepView,
    ) {
        match self.stage {
            FocusStage::Idle => (self, mgr, FocusStepView::Finish(Ok(()))),
            FocusStage::Resolving => match reply {
                ReplyView::Context(context) => if mgr.active() {
                    (self.ascend(mgr).0, mgr, self.ascend(mgr).1)
                } else {
                    let (started, session) = mgr.start_composition(context);
                    (
                        ThreadMgrEventSinkView { stage: FocusStage::Starting, ..self },
                        started,
                        FocusStepView::Ask(RequestView::Edit(session)),
                    )
                },
                _ => (self.idle(), mgr, FocusStepView::Finish(Err(ImeError::HostRejectedSession))),
            },
            FocusStage::Starting => {
                let (started, r) = mgr.on_started(reply);
                match r {
                    Ok(()) => (self.ascend(started).0, started, self.ascend(started).1),
                    Err(e) => (self.idle(), started, FocusStepView::Finish(Err(e))),
                }
            },
            FocusStage::Ascending => match mgr.on_parent(self.current, PRECEDING_TEXT_LIMIT, reply) {
                Ok(RequestView::ParentContext(parent)) => (
                    ThreadMgrEventSinkView { stage: FocusStage::Ascending, current: parent },
                    mgr,
                    FocusStepView::Ask(RequestView::ParentContext(parent)),
                ),
                Ok(read) => (
                    ThreadMgrEventSinkView { stage: FocusStage::Reading, ..self },
                    mgr,
                    FocusStepView::Ask(read),
                ),
                Err(e) => (self.idle(), mgr, FocusStepView::Finish(Err(e))),
            },
            FocusStage::Reading => match CompositionMgrView::on_preceding_text(
                PRECEDING_TEXT_LIMIT,
                reply,
            ) {
                Ok(units) => (
                    ThreadMgrEventSinkView { stage: FocusStage::Posting, ..self },
                    mgr,
                    FocusStepView::Ask(
                        RequestView::Post(
                            encode_utf8(request_json("left"@, utf16_lossy_text(units))),
                        ),
                    ),
                ),
                Err(e) => (self.idle(), mgr, FocusStepView::Finish(Err(e))),
            },
            FocusStage::Posting => (self.idle(), mgr, FocusStepView::Finish(Ok(()))),
        }
    }
}

/// No step of a change of focus asks the host to start a composition while
/// one is active.
pub proof fn lemma_focus_starts_only_inactive(
    sink: ThreadMgrEventSinkView,
    mgr: CompositionMgrView,
    document: Option<DocumentId>,
    reply: ReplyView,
)
    requires
        mgr.wf(),
    ensures
        !(sink.on_set_focus(document).1 matches FocusStepView::Ask(RequestView::Edit(_))),
        sink.resume(mgr, reply).2 matches FocusStepView::Ask(RequestView::Edit(session))
            && session.callback is StartComposition ==> !mgr.active(),
{
}

/// A focus that moves away from every document sets nothing in motion.
pub proof fn lemma_focus_lost_is_no_op(sink: ThreadMgrEventSinkView)
    ensures
        sink.on_set_focus(None) == (sink, FocusStepView::Finish(Ok(()))),
{
}

/// A change of focus whose requests all succeed ends by handing the
/// conversion engine, as a `left` request, the text that was read before the
/// caret of the topmost document, cut to the limit. A composition is started
/// on the way exactly where none was active.
pub proof fn lemma_focus_posts_preceding_text(
    sink: ThreadMgrEventSinkView,
    mgr: CompositionMgrView,
    document: DocumentId,
    base: ContextId,
    composition: CompositionId,
    units: Seq<u16>,
)
    requires
        mgr.wf(),
    ensures
        ({
            let text = utf16_lossy_text(preceding_window(units, PRECEDING_TEXT_LIMIT as nat));
            let (s1, q1) = sink.on_set_focus(Some(document));
            let (s2, m2, q2) = s1.resume(mgr, ReplyView::Context(base));
            let (s3, m3, q3) = if mgr.active() {
                (s2, m2, q2)
            } else {
                s2.resume(m2, ReplyView::Session(EditReplyView::Started(composition)))
            };
            let (s4, m4, q4) = s3.resume(m3, ReplyView::NoContext);
            let (s5, m5, q5) = s4.resume(
                m4,
                ReplyView::Session(EditReplyView::PrecedingText(units)),
            );
            &&& q1 == FocusStepView::Ask(RequestView::BaseContext(document))
            &&& !mgr.active() ==> q2 == FocusStepView::Ask(
                RequestView::Edit(mgr.start_composition(base).1),
            )
            &&& m3.active()
            &&& q3 == FocusStepView::Ask(RequestView::ParentContext(m3.context->0))
            &&& q4 == FocusStepView::Ask(
                RequestView::Edit(
                    EditSessionView {
                        client_id: mgr.client_id,
                        context: m3.context->0,
                        callback: EditOpView::PrecedingText { limit: PRECEDING_TEXT_LIMIT },
                    },
                ),
            )
            &&& q5 == FocusStepView::Ask(
                RequestView::Post(encode_utf8(request_json("left"@, text))),
            )
            &&& m5 == m3
        }),
{
}

/// Where the host read, before the caret, the code units of a text within
/// the limit and without an embedded object, the conversion engine is handed
/// that very text: the request is the object with the type `left` and the
/// text as its message.
pub proof fn lemma_focus_posts_the_text(
    sink: ThreadMgrEventSinkView,
    mgr: CompositionMgrView,
    text: Seq<char>,
)
    requires
        sink.stage == FocusStage::Reading,
        utf16_units(text).len() <= PRECEDING_TEXT_LIMIT,
        forall|i: int| 0 <= i < utf16_units(text).len() ==> utf16_units(text)[i] != EMBEDDED_OBJECT,
    ensures
        sink.resume(mgr, ReplyView::Session(EditReplyView::PrecedingText(utf16_units(text)))).2
            == FocusStepView::Ask(RequestView::Post(encode_utf8(request_json("left"@, text)))),
        is_plain(text) ==> request_json("left"@, text) == "{\"type\":\"left\",\"message\":\""@
            + text + "\"}"@,
{
    lemma_preceding_window_keeps(utf16_units(text), PRECEDING_TEXT_LIMIT as nat);
    lemma_utf16_round_trip(text);
    if is_plain(text) {
        lemma_left_request(text);
    }
}

/// A failure of the host is handed on and nothing is tried again: the
/// handling ends at once with `HostRejectedSession`, and the composition is
/// as it was.
pub proof fn lemma_rejection_ends_focus_change(
    sink: ThreadMgrEventSinkView,
    mgr: CompositionMgrView,
    reply: ReplyView,
)
    requires
        sink.stage == FocusStage::Resolving || sink.stage == FocusStage::Starting || sink.stage
            == FocusStage::Ascending || sink.stage == FocusStage::Reading,
        reply is Rejected,
    ensures
        sink.resume(mgr, reply) == (
            sink.idle(),
            mgr,
            FocusStepView::Finish(Err(ImeError::HostRejectedSession)),
        ),
{
}

/// A failure to hand the text to the conversion engine is taken no further:
/// whatever comes back after the text was written, the handling ends well.
pub proof fn lemma_failed_post_is_absorbed(
    sink: ThreadMgrEventSinkView,
    mgr: CompositionMgrView,
    reply: ReplyView,
)
    requires
        sink.stage == FocusStage::Posting,
    ensures
        sink.resume(mgr, reply) == (sink.idle(), mgr, FocusStepView::Finish(Ok(()))),
{
}

/// Tracks the focus: holds how far the handling of the current change of
/// focus has come.
#[derive(Debug, PartialEq, Eq)]
pub struct ThreadMgrEventSink {
    stage: FocusStage,
    current: ContextId,
}

impl View for ThreadMgrEventSink {
    type V = ThreadMgrEventSinkView;

    closed spec fn view(&self) -> ThreadMgrEventSinkView {
        ThreadMgrEventSinkView { stage: self.stage, current: self.current }
    }
}

impl ThreadMgrEventSink {
    /// A tracker with nothing in flight.
    pub fn new() -> (sink: ThreadMgrEventSink)
        ensures
            sink@ == ThreadMgrEventSinkView::new(),
    {
        ThreadMgrEventSink { stage: FocusStage::Idle, current: ContextId(0) }
    }

    /// How far the handling of the current change of focus has come.
    pub fn stage(&self) -> (stage: FocusStage)
        ensures
            stage == self@.stage,
    {
        self.stage
    }

    fn finish(&mut self, result: Result<(), ImeError>) -> (step: FocusStep)
        ensures
            final(self)@ == old(self)@.idle(),
            step@ == FocusStepView::Finish(result),
    {
        self.stage = FocusStage::Idle;
        FocusStep::Finish(result)
    }

    fn ascend(&mut self, mgr: &CompositionMgr) -> (step: FocusStep)
        ensures
            (final(self)@, step@) == old(self)@.ascend(mgr@),
    {
        match mgr.context() {
            Some(context) => {
                self.stage = FocusStage::Ascending;
                self.current = context;
                FocusStep::Ask(mgr.get_preceding_text())
            },
            None => self.finish(Err(ImeError::HostRejectedSession)),
        }
    }

    /// The focus moved to `document`, or away from every document.
    pub fn on_set_focus(&mut self, document: Option<DocumentId>) -> (step: FocusStep)
        ensures
            (final(self)@, step@) == old(self)@.on_set_focus(document),
    {
        match document {
            Some(focused) => {
                self.stage = FocusStage::Resolving;
                FocusStep::Ask(Request::BaseContext(focused))
            },
            None => FocusStep::Finish(Ok(())),
        }
    }

    /// Takes the answer to the last request and says what comes next.
    pub fn resume(&mut self, mgr: &mut CompositionMgr, reply: Reply) -> (step: FocusStep)
        ensures
            (final(self)@, final(mgr)@, step@) == old(self)@.resume(old(mgr)@, reply@),
    {
        match self.stage {
            FocusStage::Idle => FocusStep::Finish(Ok(())),
            FocusStage::Resolving => match reply {
                Reply::Context(context) => {
                    if mgr.is_active() {
                        self.ascend(mgr)
                    } else {
                        let session = mgr.start_composition(context);
                        self.stage = FocusStage::Starting;
                        FocusStep::Ask(Request::Edit(session))
                    }
                },
                _ => self.finish(Err(ImeError::HostRejectedSession)),
            },
            FocusStage::Starting => match mgr.on_started(reply) {
                Ok(()) => self.ascend(mgr),
                Err(e) => self.finish(Err(e)),
            },
            FocusStage::Ascending => match mgr.on_parent(self.current, PRECEDING_TEXT_LIMIT, reply) {
                Ok(Request::ParentContext(parent)) => {
                    self.current = parent;
                    FocusStep::Ask(Request::ParentContext(parent))
                },
                Ok(read) => {
                    self.stage = FocusStage::Reading;
                    FocusStep::Ask(read)
                },
                Err(e) => self.finish(Err(e)),
            },
            FocusStage::Reading => match mgr.on_preceding_text(PRECEDING_TEXT_LIMIT, reply) {
                Ok(units) => {
                    let text = utf16_lossy(units.as_slice());
                    let bytes = KeyEvent::left(text).to_bytes();
                    self.stage = FocusStage::Posting;
                    FocusStep::Ask(Request::Post(bytes))
                },
                Err(e) => self.finish(Err(e)),
            },
            FocusStage::Posting => self.finish(Ok(())),
        }
    }
}

} // verus!
