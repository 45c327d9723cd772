//! Key routing: what one key press sets in motion. The key code goes to the
//! conversion engine; the candidates that come back go into the composition,
//! best first, and to the candidate window.

use vstd::prelude::*;
use vstd::string::*;
use vstd::utf8::*;

use crate::composition_mgr::{CompositionMgr, CompositionMgrView};
use crate::error::ImeError;
use crate::edit_session::EditReplyView;
use crate::host::{CompositionId, ContextId, Reply, ReplyView, Request, RequestView};
use crate::ipc::{candidates, decimal_text, request_json, shown_candidates, texts, KeyEvent};
use crate::ui::{ui_views, CandidateEvent, UiEvent, UiEventView};

verus! {

/// How far the handling of a key press has come.
#[derive(Clone, Copy, Debug, PartialEq, Eq, Structural)]
pub enum KeyStage {
    /// No key press is being handled.
    Idle,
    /// The key code was sent to the conversion engine.
    Requested,
    /// The host was asked to start a composition.
    Starting,
    /// The host was asked to write the best candidate into the composition.
    Writing,
    /// The host was asked where the composition stands on the screen.
    Locating,
}

/// How the handling of a key press ended.
#[derive(Debug, PartialEq, Eq)]
pub struct KeyOutcome {
    /// The messages for the candidate window, in the order in which they are
    /// to be sent.
    pub events: Vec<UiEvent>,
    /// Whether the key was handled, or the failure that the host is told of.
    pub result: Result<bool, ImeError>,
}

/// An outcome, over the values it carries.
pub struct KeyOutcomeView {
    pub events: Seq<UiEventView>,
    pub result: Result<bool, ImeError>,
}

impl View for KeyOutcome {
    type V = KeyOutcomeView;

    open spec fn view(&self) -> KeyOutcomeView {
        KeyOutcomeView { events: ui_views(self.events@), result: self.result }
    }
}

/// What comes next in the handling of a key press.
#[derive(Debug, PartialEq, Eq)]
pub enum KeyStep {
    /// This is to be done, and `resume` called with the answer.
    Ask(Request),
    /// The key press is dealt with.
    Finish(KeyOutcome),
}

/// A step, over the values it carries.
pub enum KeyStepView {
    Ask(RequestView),
    Finish(KeyOutcomeView),
}

impl View for KeyStep {
    type V = KeyStepView;

    open spec fn view(&self) -> KeyStepView {
        match *self {
            KeyStep::Ask(request) => KeyStepView::Ask(request@),
            KeyStep::Finish(outcome) => KeyStepView::Finish(outcome@),
        }
    }
}

/// The end of a key press that changed nothing and is reported as handled.
pub open spec fn handled() -> KeyStepView {
    KeyStepView::Finish(KeyOutcomeView { events: Seq::empty(), result: Ok(true) })
}

/// The end of a key press on a failure of the host.
pub open spec fn failed(e: ImeError) -> KeyStepView {
    KeyStepView::Finish(KeyOutcomeView { events: Seq::empty(), result: Err(e) })
}

/// The messages that a converted key press sends to the candidate window.
pub open spec fn conversion_events(x: int, y: int, candidates: Seq<Seq<char>>) -> Seq<UiEventView> {
    seq![UiEventView::Locate { x, y }, UiEventView::Candidate { candidates }, UiEventView::Show]
}

/// The key router, over the values it holds.
pub struct KeyEventSinkView {
    pub stage: KeyStage,
    /// The context in which the key was pressed.
    pub context: ContextId,
    /// The candidates that the conversion engine answered with.
    pub candidates: Seq<Seq<char>>,
}

impl KeyEventSinkView {
    /// The router of a new session.
    pub open spec fn new() -> KeyEventSinkView {
        KeyEventSinkView { stage: KeyStage::Idle, context: ContextId(0), candidates: Seq::empty() }
    }

    /// The router with nothing in flight.
    pub open spec fn idle(self) -> KeyEventSinkView {
        KeyEventSinkView { stage: KeyStage::Idle, candidates: Seq::empty(), ..self }
    }

    /// The text that goes into the composition: the first candidate, or
    /// nothing where there is none.
    pub open spec fn best(self) -> Seq<char> {
        if self.candidates.len() > 0 {
            self.candidates[0]
        } else {
            Seq::empty()
        }
    }

    /// A key went down in `context`: its code is sent to the conversion
    /// engine, in decimal, as a `key` request.
    pub open spec fn on_key_down(self, context: ContextId, code: u8) -> (
        KeyEventSinkView,
        KeyStepView,
    ) {
        (
            KeyEventSinkView { stage: KeyStage::Requested, context, candidates: Seq::empty() },
            KeyStepView::Ask(
                RequestView::Send(encode_utf8(request_json("key"@, decimal_text(code as nat)))),
            ),
        )
    }

    /// Writes the best candidate into the active composition.
    pub open spec fn write(self, mgr: CompositionMgrView) -> (
        KeyEventSinkView,
        CompositionMgrView,
        KeyStepView,
    ) {
        let (next, session) = mgr.set_text(self.best());
        (
            KeyEventSinkView { stage: KeyStage::Writing, ..self },
            next,
            KeyStepView::Ask(RequestView::Edit(session)),
        )
    }

    /// Takes the answer to the last request and says what comes next.
    ///
    /// - After the key code was sent: an answer of the engine is read as
    ///   candidates, a composition is started unless one is active, and the
    ///   best candidate is written. Anything but an answer is a failed
    ///   request: the key press ends with nothing changed, as handled.
    /// - After the composition was started: the best candidate is written.
    /// - After the text was written: it is the composition's text, and the
    ///   composition is located.
    /// - After the composition was located: the candidate window is told
    ///   where it is, what the candidates are, and to show itself.
    ///
    /// A failure of the host ends the key press with that failure. Nothing
    /// is sent to the candidate window, and the composition's text is what
    /// the document holds: a replacement that was denied is dropped.
    pub open spec fn resume(self, mgr: CompositionMgrView, reply: ReplyView) -> (
        KeyEventSinkView,
        CompositionMgrView,
        KeyStepView,
    ) {
        match self.stage {
            KeyStage::Idle => (self, mgr, handled()),
            KeyStage::Requested => match reply {
                ReplyView::Received(answer) => {
                    let next = KeyEventSinkView { candidates: shown_candidates(answer), ..self };
                    if mgr.active() {
                        next.write(mgr)
                    } else {
                        let (started, session) = mgr.start_composition(self.context);
                        (
                            KeyEventSinkView { stage: KeyStage::Starting, ..next },
                            started,
                            KeyStepView::Ask(RequestView::Edit(session)),
                        )
                    }
                },
                _ => (self.idle(), mgr, handled()),
            },
            KeyStage::Starting => {
                let (started, r) = mgr.on_started(reply);
                match r {
                    Ok(()) => self.write(started),
                    Err(e) => (self.idle(), started, failed(e)),
                }
            },
            KeyStage::Writing => {
                let (written, r) = mgr.on_text_set(reply);
                match r {
                    Ok(()) => if written.active() {
                        (
                            KeyEventSinkView { stage: KeyStage::Locating, ..self },
                            written,
                            KeyStepView::Ask(RequestView::Edit(written.get_pos())),
                        )
                    } else {
                        (self.idle(), written, failed(ImeError::HostRejectedSession))
                    },
                    Err(e) => (self.idle(), written, failed(e)),
                }
            },
            KeyStage::Locating => match CompositionMgrView::on_pos(reply) {
                Ok(at) => (
                    self.idle(),
                    mgr,
                    KeyStepView::Finish(
                        KeyOutcomeView {
                            events: conversion_events(at.x as int, at.y as int, self.candidates),
                            result: Ok(true),
                        },
                    ),
                ),
                Err(e) => (self.idle(), mgr, failed(e)),
            },
        }
    }
}

/// A key press whose requests all succeed sends the candidate window exactly
/// three messages, at its end and in this order: where the composition
/// stands, the candidates that the engine answered with, in the engine's
/// order, and the call to show itself. Until then nothing is sent. The
/// composition is active afterwards and holds the best candidate.
pub proof fn lemma_key_press_converts(
    sink: KeyEventSinkView,
    mgr: CompositionMgrView,
    context: ContextId,
    code: u8,
    answer: Seq<u8>,
    composition: CompositionId,
    left: i32,
    top: i32,
    right: i32,
    bottom: i32,
    clipped: bool,
)
    requires
        mgr.wf(),
    ensures
        ({
            let (s1, q1) = sink.on_key_down(context, code);
            let (s2, m2, q2) = s1.resume(mgr, ReplyView::Received(answer));
            let (s3, m3, q3) = if mgr.active() {
                (s2, m2, q2)
            } else {
                s2.resume(m2, ReplyView::Session(EditReplyView::Started(composition)))
            };
            let (s4, m4, q4) = s3.resume(m3, ReplyView::Session(EditReplyView::TextSet));
            let (s5, m5, q5) = s4.resume(
                m4,
                ReplyView::Session(EditReplyView::TextExt { left, top, right, bottom, clipped }),
            );
            &&& q1 is Ask
            &&& q2 is Ask
            &&& q3 is Ask
            &&& q4 is Ask
            &&& q5 == KeyStepView::Finish(
                KeyOutcomeView {
                    events: conversion_events(left as int, top as int, shown_candidates(answer)),
                    result: Ok(true),
                },
            )
            &&& s5.stage == KeyStage::Idle
            &&& m5.active()
            &&& m5.preedit == s2.best()
            &&& s2.candidates == shown_candidates(answer)
        }),
{
}

/// Whatever the answers are, a step sends the candidate window either
/// nothing, or the three messages of a conversion with the candidates that
/// the engine answered with.
pub proof fn lemma_events_all_or_none(
    sink: KeyEventSinkView,
    mgr: CompositionMgrView,
    reply: ReplyView,
)
    ensures
        sink.resume(mgr, reply).2 matches KeyStepView::Finish(outcome) ==> {
            ||| outcome.events == Seq::<UiEventView>::empty()
            ||| exists|x: int, y: int| outcome.events == conversion_events(x, y, sink.candidates)
        },
{
    let step = sink.resume(mgr, reply).2;
    if let KeyStepView::Finish(outcome) = step {
        if sink.stage == KeyStage::Locating {
            if let Ok(at) = CompositionMgrView::on_pos(reply) {
                assert(outcome.events == conversion_events(
                    at.x as int,
                    at.y as int,
                    sink.candidates,
                ));
            }
        }
    }
}

/// No step of a key press asks the host to start a composition while one is
/// active.
pub proof fn lemma_key_starts_only_inactive(
    sink: KeyEventSinkView,
    mgr: CompositionMgrView,
    context: ContextId,
    code: u8,
    reply: ReplyView,
)
    requires
        mgr.wf(),
    ensures
        !(sink.on_key_down(context, code).1 matches KeyStepView::Ask(RequestView::Edit(_))),
        sink.resume(mgr, reply).2 matches KeyStepView::Ask(RequestView::Edit(session))
            && session.callback is StartComposition ==> !mgr.active(),
{
}

/// Where the request to the conversion engine fails, the key press ends
/// there: the host is asked for nothing, so that no composition is started
/// and no text is set; nothing is sent to the candidate window; and the key
/// is still reported as handled.
pub proof fn lemma_failed_request_changes_nothing(
    sink: KeyEventSinkView,
    mgr: CompositionMgrView,
    reply: ReplyView,
)
    requires
        sink.stage == KeyStage::Requested,
        !(reply is Received),
    ensures
        sink.resume(mgr, reply) == (sink.idle(), mgr, handled()),
{
}

/// How far a stage lies from the start of a key press.
pub open spec fn stage_rank(stage: KeyStage) -> nat {
    match stage {
        KeyStage::Idle => 0,
        KeyStage::Requested => 1,
        KeyStage::Starting => 2,
        KeyStage::Writing => 3,
        KeyStage::Locating => 4,
    }
}

/// Every answer moves the key press on: a step that asks for more is in a
/// later stage than the one before, and a step that finishes leaves nothing
/// in flight. A key press is therefore over after four answers at most.
pub proof fn lemma_key_press_advances(
    sink: KeyEventSinkView,
    mgr: CompositionMgrView,
    reply: ReplyView,
)
    ensures
        match sink.resume(mgr, reply).2 {
            KeyStepView::Ask(_) => stage_rank(sink.resume(mgr, reply).0.stage) > stage_rank(
                sink.stage,
            ),
            KeyStepView::Finish(_) => sink.resume(mgr, reply).0.stage == KeyStage::Idle,
        },
{
}

/// A session that the host denies is handed on and never tried again: the
/// key press ends at once with `HostRejectedSession`, nothing more is asked,
/// and nothing is sent to the candidate window. The composition keeps its
/// state, its context and its text; a replacement that waited for the answer
/// is dropped.
pub proof fn lemma_rejection_ends_key_press(
    sink: KeyEventSinkView,
    mgr: CompositionMgrView,
    reply: ReplyView,
)
    requires
        sink.stage == KeyStage::Starting || sink.stage == KeyStage::Writing || sink.stage
            == KeyStage::Locating,
        !(reply is Session),
    ensures
        sink.resume(mgr, reply).0 == sink.idle(),
        sink.resume(mgr, reply).2 == failed(ImeError::HostRejectedSession),
        sink.resume(mgr, reply).1 == if sink.stage == KeyStage::Writing {
            CompositionMgrView { pending: None, ..mgr }
        } else {
            mgr
        },
{
}

/// A key press whose replacement of the text the host denies leaves the
/// composition exactly as it was before the key went down: the candidates
/// that came back are not its text.
pub proof fn lemma_denied_write_keeps_text(
    sink: KeyEventSinkView,
    mgr: CompositionMgrView,
    answer: Seq<u8>,
    reply: ReplyView,
)
    requires
        sink.stage == KeyStage::Requested,
        mgr.active(),
        mgr.pending is None,
        !(reply matches ReplyView::Session(EditReplyView::TextSet)),
    ensures
        ({
            let (asked, writing, _) = sink.resume(mgr, ReplyView::Received(answer));
            &&& writing.preedit == mgr.preedit
            &&& asked.resume(writing, reply) == (
                sink.idle(),
                mgr,
                failed(ImeError::HostRejectedSession),
            )
        }),
{
}

/// Routes key presses: holds what the handling of the current key press has
/// brought so far.
#[derive(Debug, PartialEq, Eq)]
pub struct KeyEventSink {
    stage: KeyStage,
    context: ContextId,
    candidates: Vec<String>,
}

impl View for KeyEventSink {
    type V = KeyEventSinkView;

    closed spec fn view(&self) -> KeyEventSinkView {
        KeyEventSinkView {
            stage: self.stage,
            context: self.context,
            candidates: texts(self.candidates@),
        }
    }
}

impl KeyEventSink {
    /// A router with nothing in flight.
    pub fn new() -> (sink: KeyEventSink)
        ensures
            sink@ == KeyEventSinkView::new(),
    {
        let sink = KeyEventSink { stage: KeyStage::Idle, context: ContextId(0), candidates: Vec::new() };
        assert(texts(sink.candidates@) =~= Seq::<Seq<char>>::empty());
        sink
    }

    /// How far the handling of the current key press has come.
    pub fn stage(&self) -> (stage: KeyStage)
        ensures
            stage == self@.stage,
    {
        self.stage
    }

    fn finish(&mut self, result: Result<bool, ImeError>) -> (step: KeyStep)
        ensures
            final(self)@ == old(self)@.idle(),
            step@ == KeyStepView::Finish(KeyOutcomeView { events: Seq::empty(), result }),
    {
        self.stage = KeyStage::Idle;
        self.candidates = Vec::new();
        let events: Vec<UiEvent> = Vec::new();
        assert(texts(self.candidates@) =~= Seq::<Seq<char>>::empty());
        assert(ui_views(events@) =~= Seq::<UiEventView>::empty());
        KeyStep::Finish(KeyOutcome { events, result })
    }

    fn write(&mut self, mgr: &mut CompositionMgr) -> (step: KeyStep)
        requires
            old(mgr)@.active(),
        ensures
            (final(self)@, final(mgr)@, step@) == old(self)@.write(old(mgr)@),
    {
        let session = if self.candidates.len() > 0 {
            mgr.set_text(self.candidates[0].as_str())
        } else {
            proof {
                reveal_strlit("");
            }
            assert(""@ =~= Seq::<char>::empty());
            mgr.set_text("")
        };
        self.stage = KeyStage::Writing;
        KeyStep::Ask(Request::Edit(session))
    }

    /// A key went down in `context`.
    pub fn on_key_down(&mut self, context: ContextId, code: u8) -> (step: KeyStep)
        ensures
            (final(self)@, step@) == old(self)@.on_key_down(context, code),
    {
        let bytes = KeyEvent::key(code).to_bytes();
        self.stage = KeyStage::Requested;
        self.context = context;
        self.candidates = Vec::new();
        assert(texts(self.candidates@) =~= Seq::<Seq<char>>::empty());
        KeyStep::Ask(Request::Send(bytes))
    }

    /// Takes the answer to the last request and says what comes next.
    pub fn resume(&mut self, mgr: &mut CompositionMgr, reply: Reply) -> (step: KeyStep)
        ensures
            (final(self)@, final(mgr)@, step@) == old(self)@.resume(old(mgr)@, reply@),
    {
        match self.stage {
            KeyStage::Idle => {
                let events: Vec<UiEvent> = Vec::new();
                assert(ui_views(events@) =~= Seq::<UiEventView>::empty());
                KeyStep::Finish(KeyOutcome { events, result: Ok(true) })
            },
            KeyStage::Requested => match reply {
                Reply::Received(answer) => {
                    self.candidates = candidates(answer.as_slice());
                    if mgr.is_active() {
                        self.write(mgr)
                    } else {
                        let session = mgr.start_composition(self.context);
                        self.stage = KeyStage::Starting;
                        KeyStep::Ask(Request::Edit(session))
                    }
                },
                _ => self.finish(Ok(true)),
            },
            KeyStage::Starting => match mgr.on_started(reply) {
                Ok(()) => self.write(mgr),
                Err(e) => self.finish(Err(e)),
            },
            KeyStage::Writing => match mgr.on_text_set(reply) {
                Ok(()) => {
                    if mgr.is_active() {
                        self.stage = KeyStage::Locating;
                        KeyStep::Ask(Request::Edit(mgr.get_pos()))
                    } else {
                        self.finish(Err(ImeError::HostRejectedSession))
                    }
                },
                Err(e) => self.finish(Err(e)),
            },
            KeyStage::Locating => match mgr.on_pos(reply) {
                Ok(at) => {
                    let ghost shown = self@.candidates;
                    let mut list: Vec<String> = Vec::new();
                    std::mem::swap(&mut list, &mut self.candidates);
                    self.stage = KeyStage::Idle;
                    let mut events: Vec<UiEvent> = Vec::new();
                    events.push(UiEvent::Locate(at));
                    events.push(UiEvent::Candidate(CandidateEvent { candidates: list }));
                    events.push(UiEvent::Show);
                    assert(texts(self.candidates@) =~= Seq::<Seq<char>>::empty());
                    assert(ui_views(events@) =~= conversion_events(
                        at.x as int,
                        at.y as int,
                        shown,
                    ));
                    KeyStep::Finish(KeyOutcome { events, result: Ok(true) })
                },
                Err(e) => self.finish(Err(e)),
            },
        }
    }

    /// A key went up: reported as handled, and nothing is done.
    pub fn on_key_up(&self, code: u8) -> (handled: bool)
        ensures
            handled,
    {
        true
    }

    /// The host asks whether a key press would be handled: always.
    pub fn on_test_key_down(&self, code: u8) -> (handled: bool)
        ensures
            handled,
    {
        true
    }

    /// The host asks whether a key release would be handled: always.
    pub fn on_test_key_up(&self, code: u8) -> (handled: bool)
        ensures
            handled,
    {
        true
    }

    /// A preserved key was pressed: reported as handled, and nothing is done.
    pub fn on_preserved_key(&self) -> (handled: bool)
        ensures
            handled,
    {
        true
    }
}

} // verus!
