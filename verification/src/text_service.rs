//! The session: what is set up when the host activates the input method, what
//! is torn down when it deactivates it, and the door through which key
//! presses and changes of focus reach the composition while it is active.

use vstd::prelude::*;

use crate::composition_mgr::{CompositionMgr, CompositionMgrView};
use crate::edit_session::{EditSession, EditSessionView};
use crate::error::ImeError;
use crate::host::{ContextId, DocumentId, Reply, ReplyView};
use crate::key_event_sink::{handled, KeyEventSink, KeyEventSinkView, KeyOutcome, KeyStep, KeyStepView};
use crate::thread_mgr_event_sink::{FocusStep, FocusStepView, ThreadMgrEventSink, ThreadMgrEventSinkView};
use crate::ui::{ui_views, UiEvent, UiEventView};

verus! {

/// The atoms under which the host knows the three display attributes.
#[derive(Clone, Copy, Debug, PartialEq, Eq, Structural)]
pub struct DisplayAtoms {
    pub input: u32,
    pub focused: u32,
    pub converted: u32,
}

/// One thing that is set up at activation.
#[derive(Clone, Copy, Debug, PartialEq, Eq, Structural)]
pub enum Setup {
    /// Create the host's category manager.
    CategoryMgr,
    /// Add the input method's item to the language bar.
    LanguageBar,
    /// Register the three display attributes with the category manager.
    DisplayAttributes,
    /// Open the channel to the conversion engine.
    Connection,
    /// Start the candidate window and hand it the receiving end of the
    /// channel of messages.
    CandidateWindow,
    /// Take the session's composition sink, for the composition manager.
    CompositionSink,
    /// Subscribe to changes of focus.
    FocusSink,
    /// Subscribe to key presses.
    KeySink,
}

/// One thing that is torn down at deactivation.
#[derive(Debug, PartialEq, Eq)]
pub enum Teardown {
    /// Unsubscribe from key presses.
    KeySink,
    /// Unsubscribe from changes of focus, with the cookie of the
    /// subscription.
    FocusSink(u32),
    /// Run this edit session, which ends the composition.
    Composition(EditSession),
    /// Release the channel to the conversion engine.
    Connection,
    /// Remove the input method's item from the language bar.
    LanguageBar,
}

/// A thing to tear down, over the values it carries.
pub enum TeardownView {
    KeySink,
    FocusSink(u32),
    Composition(EditSessionView),
    Connection,
    LanguageBar,
}

impl View for Teardown {
    type V = TeardownView;

    open spec fn view(&self) -> TeardownView {
        match *self {
            Teardown::KeySink => TeardownView::KeySink,
            Teardown::FocusSink(cookie) => TeardownView::FocusSink(cookie),
            Teardown::Composition(session) => TeardownView::Composition(session@),
            Teardown::Connection => TeardownView::Connection,
            Teardown::LanguageBar => TeardownView::LanguageBar,
        }
    }
}

/// What a sequence of things to tear down says, one by one.
pub open spec fn teardown_views(plan: Seq<Teardown>) -> Seq<TeardownView> {
    Seq::new(plan.len(), |i: int| plan[i]@)
}

/// What is set up at activation, in this order. A failure ends the
/// activation where it occurs.
pub open spec fn setup_plan() -> Seq<Setup> {
    seq![
        Setup::CategoryMgr,
        Setup::LanguageBar,
        Setup::DisplayAttributes,
        Setup::Connection,
        Setup::CandidateWindow,
        Setup::CompositionSink,
        Setup::FocusSink,
        Setup::KeySink,
    ]
}

/// The failure that an activation ends with when `at` could not be set up.
pub open spec fn setup_failure(at: Setup) -> ImeError {
    if at == Setup::Connection {
        ImeError::InitialConnectFailed
    } else {
        ImeError::HostRejectedSession
    }
}

/// The session, over the values it holds.
pub struct TextServiceView {
    /// The session's identifier, which the host gave at activation.
    pub client_id: u32,
    /// The cookie of the subscription to changes of focus.
    pub focus_cookie: u32,
    /// The atoms of the display attributes, once registered.
    pub atoms: Option<DisplayAtoms>,
    /// An activation has begun and has neither succeeded nor failed.
    pub activating: bool,
    /// The composition, while the session is active.
    pub composition_mgr: Option<CompositionMgrView>,
    pub key_event_sink: KeyEventSinkView,
    pub thread_mgr_event_sink: ThreadMgrEventSinkView,
}

impl TextServiceView {
    /// The session is active: set up, and not torn down.
    pub open spec fn active(self) -> bool {
        self.composition_mgr is Some
    }

    /// A session that has not been activated.
    pub open spec fn new() -> TextServiceView {
        TextServiceView {
            client_id: 0,
            focus_cookie: 0,
            atoms: None,
            activating: false,
            composition_mgr: None,
            key_event_sink: KeyEventSinkView::new(),
            thread_mgr_event_sink: ThreadMgrEventSinkView::new(),
        }
    }

    /// The host activates the input method and names the session `tid`.
    pub open spec fn activate(self, tid: u32) -> (TextServiceView, Seq<Setup>) {
        (TextServiceView { client_id: tid, activating: true, ..TextServiceView::new() }, setup_plan())
    }

    /// Everything was set up: the session is active, with an inactive
    /// composition whose text will be tagged as focused.
    pub open spec fn activated(self, atoms: DisplayAtoms, focus_cookie: u32) -> TextServiceView {
        if self.activating {
            TextServiceView {
                focus_cookie,
                atoms: Some(atoms),
                activating: false,
                composition_mgr: Some(CompositionMgrView::new(self.client_id, atoms.focused)),
                ..self
            }
        } else {
            self
        }
    }

    /// `at` could not be set up: the activation is abandoned.
    pub open spec fn activation_failed(self, at: Setup) -> (TextServiceView, ImeError) {
        (TextServiceView { client_id: self.client_id, ..TextServiceView::new() }, setup_failure(at))
    }

    /// What is torn down when the host deactivates the input method, in
    /// this order; nothing where the session is not active.
    pub open spec fn teardown_plan(self) -> Seq<TeardownView> {
        match self.composition_mgr {
            Some(mgr) => seq![TeardownView::KeySink, TeardownView::FocusSink(self.focus_cookie)] + (
            if mgr.active() {
                seq![TeardownView::Composition(mgr.end_composition())]
            } else {
                Seq::empty()
            }) + seq![TeardownView::Connection, TeardownView::LanguageBar],
            None => Seq::empty(),
        }
    }

    /// The host deactivates the input method.
    pub open spec fn deactivate(self) -> (TextServiceView, Seq<TeardownView>) {
        (TextServiceView { client_id: self.client_id, ..TextServiceView::new() }, self.teardown_plan())
    }

    /// A key went down. A session that is not active does nothing with it.
    pub open spec fn on_key_down(self, context: ContextId, code: u8) -> (
        TextServiceView,
        KeyStepView,
    ) {
        if self.active() {
            let (sink, step) = self.key_event_sink.on_key_down(context, code);
            (TextServiceView { key_event_sink: sink, ..self }, step)
        } else {
            (self, handled())
        }
    }

    /// The answer to the last request of a key press.
    pub open spec fn on_key_reply(self, reply: ReplyView) -> (TextServiceView, KeyStepView) {
        match self.composition_mgr {
            Some(mgr) => {
                let (sink, next, step) = self.key_event_sink.resume(mgr, reply);
                (TextServiceView { key_event_sink: sink, composition_mgr: Some(next), ..self }, step)
            },
            None => (self, handled()),
        }
    }

    /// The focus moved. A session that is not active does nothing with it.
    pub open spec fn on_set_focus(self, document: Option<DocumentId>) -> (
        TextServiceView,
        FocusStepView,
    ) {
        if self.active() {
            let (sink, step) = self.thread_mgr_event_sink.on_set_focus(document);
            (TextServiceView { thread_mgr_event_sink: sink, ..self }, step)
        } else {
            (self, FocusStepView::Finish(Ok(())))
        }
    }

    /// The answer to the last request of a change of focus.
    pub open spec fn on_focus_reply(self, reply: ReplyView) -> (TextServiceView, FocusStepView) {
        match self.composition_mgr {
            Some(mgr) => {
                let (sink, next, step) = self.thread_mgr_event_sink.resume(mgr, reply);
                (
                    TextServiceView { thread_mgr_event_sink: sink, composition_mgr: Some(next), ..self },
                    step,
                )
            },
            None => (self, FocusStepView::Finish(Ok(()))),
        }
    }
}

/// How many edit sessions that end a composition a plan holds.
pub open spec fn compositions_ended(plan: Seq<TeardownView>) -> nat
    decreases plan.len(),
{
    if plan.len() == 0 {
        0
    } else {
        compositions_ended(plan.drop_last()) + if plan.last() is Composition {
            1nat
        } else {
            0nat
        }
    }
}

/// Deactivating a session whose composition is active ends that composition
/// exactly once, and the session is inactive afterwards.
pub proof fn lemma_deactivate_ends_composition(service: TextServiceView)
    requires
        service.composition_mgr matches Some(mgr) && mgr.active(),
    ensures
        compositions_ended(service.deactivate().1) == 1,
        service.deactivate().1[2] == TeardownView::Composition(
            service.composition_mgr->0.end_composition(),
        ),
        !service.deactivate().0.active(),
{
    let mgr = service.composition_mgr->0;
    let plan = service.deactivate().1;
    assert(plan =~= seq![
        TeardownView::KeySink,
        TeardownView::FocusSink(service.focus_cookie),
        TeardownView::Composition(mgr.end_composition()),
        TeardownView::Connection,
        TeardownView::LanguageBar,
    ]);
    let four = plan.drop_last();
    let three = four.drop_last();
    let two = three.drop_last();
    let one = two.drop_last();
    let none = one.drop_last();
    assert(none.len() == 0);
    assert(compositions_ended(none) == 0);
    assert(compositions_ended(one) == 0);
    assert(compositions_ended(two) == 0);
    assert(compositions_ended(three) == 1);
    assert(compositions_ended(four) == 1);
}

/// Deactivating a session without an active composition asks for no edit
/// session at all.
pub proof fn lemma_deactivate_without_composition(service: TextServiceView)
    requires
        !(service.composition_mgr matches Some(mgr) && mgr.active()),
    ensures
        compositions_ended(service.deactivate().1) == 0,
        !service.deactivate().0.active(),
{
    let plan = service.deactivate().1;
    if service.composition_mgr is Some {
        assert(plan =~= seq![
            TeardownView::KeySink,
            TeardownView::FocusSink(service.focus_cookie),
            TeardownView::Connection,
            TeardownView::LanguageBar,
        ]);
        let three = plan.drop_last();
        let two = three.drop_last();
        let one = two.drop_last();
        let none = one.drop_last();
        assert(none.len() == 0);
        assert(compositions_ended(none) == 0);
        assert(compositions_ended(one) == 0);
        assert(compositions_ended(two) == 0);
        assert(compositions_ended(three) == 0);
    }
}

/// After deactivation nothing reaches the candidate window or the host any
/// more: a key press, and an answer that comes late, end at once without a
/// message and without a request, and so does a change of focus.
pub proof fn lemma_deactivated_is_silent(
    service: TextServiceView,
    context: ContextId,
    code: u8,
    document: Option<DocumentId>,
    reply: ReplyView,
)
    ensures
        ({
            let after = service.deactivate().0;
            &&& after.on_key_down(context, code) == (after, handled())
            &&& after.on_key_reply(reply) == (after, handled())
            &&& after.on_set_focus(document) == (after, FocusStepView::Finish(Ok(())))
            &&& after.on_focus_reply(reply) == (after, FocusStepView::Finish(Ok(())))
        }),
{
}

/// The candidate window is started before key presses are subscribed to, so
/// that no key press can come before the window is there to be told.
pub proof fn lemma_window_before_keys()
    ensures
        exists|i: int, j: int|
            0 <= i < j < setup_plan().len() && setup_plan()[i] == Setup::CandidateWindow
                && setup_plan()[j] == Setup::KeySink,
{
    assert(setup_plan()[4] == Setup::CandidateWindow && setup_plan()[7] == Setup::KeySink);
}

/// The session of one activation of the input method.
#[derive(Debug, PartialEq, Eq)]
pub struct TextService {
    client_id: u32,
    focus_cookie: u32,
    atoms: Option<DisplayAtoms>,
    activating: bool,
    composition_mgr: Option<CompositionMgr>,
    key_event_sink: KeyEventSink,
    thread_mgr_event_sink: ThreadMgrEventSink,
}

impl View for TextService {
    type V = TextServiceView;

    closed spec fn view(&self) -> TextServiceView {
        TextServiceView {
            client_id: self.client_id,
            focus_cookie: self.focus_cookie,
            atoms: self.atoms,
            activating: self.activating,
            composition_mgr: match self.composition_mgr {
                Some(mgr) => Some(mgr@),
                None => None,
            },
            key_event_sink: self.key_event_sink@,
            thread_mgr_event_sink: self.thread_mgr_event_sink@,
        }
    }
}

impl TextService {
    /// A session that has not been activated.
    pub fn new() -> (service: TextService)
        ensures
            service@ == TextServiceView::new(),
    {
        TextService {
            client_id: 0,
            focus_cookie: 0,
            atoms: None,
            activating: false,
            composition_mgr: None,
            key_event_sink: KeyEventSink::new(),
            thread_mgr_event_sink: ThreadMgrEventSink::new(),
        }
    }

    /// Whether the session is active.
    pub fn is_active(&self) -> (active: bool)
        ensures
            active == self@.active(),
    {
        self.composition_mgr.is_some()
    }

    /// The session's identifier.
    pub fn client_id(&self) -> (id: u32)
        ensures
            id == self@.client_id,
    {
        self.client_id
    }

    /// The atoms of the display attributes, once registered.
    pub fn atoms(&self) -> (atoms: Option<DisplayAtoms>)
        ensures
            atoms == self@.atoms,
    {
        self.atoms
    }

    /// The composition, while the session is active.
    pub fn composition_mgr(&self) -> (mgr: Option<&CompositionMgr>)
        ensures
            match mgr {
                Some(m) => self@.composition_mgr == Some(m@),
                None => self@.composition_mgr is None,
            },
    {
        self.composition_mgr.as_ref()
    }

    fn reset(&mut self)
        ensures
            final(self)@ == (TextServiceView { client_id: old(self)@.client_id, ..TextServiceView::new() }),
    {
        self.focus_cookie = 0;
        self.atoms = None;
        self.activating = false;
        self.composition_mgr = None;
        self.key_event_sink = KeyEventSink::new();
        self.thread_mgr_event_sink = ThreadMgrEventSink::new();
    }

    /// The host activates the input method and names the session `tid`.
    /// Returns what is to be set up, in order; the caller stops at the first
    /// failure and reports it with `activation_failed`, or reports success
    /// with `activated`.
    pub fn activate(&mut self, tid: u32) -> (plan: Vec<Setup>)
        ensures
            (final(self)@, plan@) == old(self)@.activate(tid),
    {
        self.reset();
        self.client_id = tid;
        self.activating = true;
        let mut plan: Vec<Setup> = Vec::new();
        plan.push(Setup::CategoryMgr);
        plan.push(Setup::LanguageBar);
        plan.push(Setup::DisplayAttributes);
        plan.push(Setup::Connection);
        plan.push(Setup::CandidateWindow);
        plan.push(Setup::CompositionSink);
        plan.push(Setup::FocusSink);
        plan.push(Setup::KeySink);
        assert(plan@ =~= setup_plan());
        plan
    }

    /// Everything was set up: `atoms` are the registered display attributes
    /// and `focus_cookie` names the subscription to changes of focus.
    pub fn activated(&mut self, atoms: DisplayAtoms, focus_cookie: u32)
        ensures
            final(self)@ == old(self)@.activated(atoms, focus_cookie),
    {
        if self.activating {
            self.focus_cookie = focus_cookie;
            self.atoms = Some(atoms);
            self.activating = false;
            self.composition_mgr = Some(CompositionMgr::new(self.client_id, atoms.focused));
        }
    }

    /// `at` could not be set up. The activation is abandoned; the failure
    /// to report is `InitialConnectFailed` where the conversion engine could
    /// not be reached, and `HostRejectedSession` otherwise.
    pub fn activation_failed(&mut self, at: Setup) -> (e: ImeError)
        ensures
            (final(self)@, e) == old(self)@.activation_failed(at),
    {
        self.reset();
        if at == Setup::Connection {
            ImeError::InitialConnectFailed
        } else {
            ImeError::HostRejectedSession
        }
    }

    /// The host deactivates the input method. Returns what is to be torn
    /// down, in order: the subscriptions first, then the composition where
    /// one is active, then the connection. The session is inactive from
    /// here on, whatever becomes of the teardown.
    pub fn deactivate(&mut self) -> (plan: Vec<Teardown>)
        ensures
            (final(self)@, teardown_views(plan@)) == old(self)@.deactivate(),
    {
        let mut plan: Vec<Teardown> = Vec::new();
        match self.composition_mgr.take() {
            Some(mgr) => {
                plan.push(Teardown::KeySink);
                plan.push(Teardown::FocusSink(self.focus_cookie));
                if mgr.is_active() {
                    plan.push(Teardown::Composition(mgr.end_composition()));
                }
                plan.push(Teardown::Connection);
                plan.push(Teardown::LanguageBar);
            },
            None => {},
        }
        assert(teardown_views(plan@) =~= old(self)@.teardown_plan());
        self.reset();
        plan
    }

    /// A key went down in `context`.
    pub fn on_key_down(&mut self, context: ContextId, code: u8) -> (step: KeyStep)
        ensures
            (final(self)@, step@) == old(self)@.on_key_down(context, code),
    {
        if self.composition_mgr.is_some() {
            self.key_event_sink.on_key_down(context, code)
        } else {
            let events: Vec<UiEvent> = Vec::new();
            assert(ui_views(events@) =~= Seq::<UiEventView>::empty());
            KeyStep::Finish(KeyOutcome { events, result: Ok(true) })
        }
    }

    /// Takes the answer to the last request of a key press.
    pub fn on_key_reply(&mut self, reply: Reply) -> (step: KeyStep)
        ensures
            (final(self)@, step@) == old(self)@.on_key_reply(reply@),
    {
        match self.composition_mgr.take() {
            Some(mut mgr) => {
                let step = self.key_event_sink.resume(&mut mgr, reply);
                self.composition_mgr = Some(mgr);
                step
            },
            None => {
                let events: Vec<UiEvent> = Vec::new();
                assert(ui_views(events@) =~= Seq::<UiEventView>::empty());
                KeyStep::Finish(KeyOutcome { events, result: Ok(true) })
            },
        }
    }

    /// The focus moved to `document`, or away from every document.
    pub fn on_set_focus(&mut self, document: Option<DocumentId>) -> (step: FocusStep)
        ensures
            (final(self)@, step@) == old(self)@.on_set_focus(document),
    {
        if self.composition_mgr.is_some() {
            self.thread_mgr_event_sink.on_set_focus(document)
        } else {
            FocusStep::Finish(Ok(()))
        }
    }

    /// Takes the answer to the last request of a change of focus.
    pub fn on_focus_reply(&mut self, reply: Reply) -> (step: FocusStep)
        ensures
            (final(self)@, step@) == old(self)@.on_focus_reply(reply@),
    {
        match self.composition_mgr.take() {
            Some(mut mgr) => {
                let step = self.thread_mgr_event_sink.resume(&mut mgr, reply);
                self.composition_mgr = Some(mgr);
                step
            },
            None => FocusStep::Finish(Ok(())),
        }
    }
}

} // verus!
