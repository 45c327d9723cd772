use azookey::composition_mgr::CompositionMgr;
use azookey::edit_session::{EditOp, EditReply, EditSession};
use azookey::error::ImeError;
use azookey::host::{CompositionId, ContextId, Reply, Request};
use azookey::key_event_sink::{KeyEventSink, KeyOutcome, KeyStage, KeyStep};
use azookey::ui::{CandidateEvent, LocateEvent, UiEvent};

fn rect(left: i32, top: i32) -> Reply {
    Reply::Session(EditReply::TextExt { left, top, right: left + 10, bottom: top + 10, clipped: false })
}

fn handled_without_events() -> KeyStep {
    KeyStep::Finish(KeyOutcome { events: vec![], result: Ok(true) })
}

fn failed_with(e: ImeError) -> KeyStep {
    KeyStep::Finish(KeyOutcome { events: vec![], result: Err(e) })
}

#[test]
fn key_down_sends_the_code_in_decimal() {
    let mut sink = KeyEventSink::new();
    assert_eq!(sink.stage(), KeyStage::Idle);
    let step = sink.on_key_down(ContextId(1), 0x41);
    assert_eq!(
        step,
        KeyStep::Ask(Request::Send("{\"type\":\"key\",\"message\":\"65\"}".as_bytes().to_vec()))
    );
    assert_eq!(sink.stage(), KeyStage::Requested);
}

#[test]
fn letter_a_with_three_candidates() {
    let mut mgr = CompositionMgr::new(9, 4);
    let mut sink = KeyEventSink::new();
    let _ = sink.on_key_down(ContextId(1), 0x41);

    let step = sink.resume(&mut mgr, Reply::Received("あ,亜,阿".as_bytes().to_vec()));
    assert_eq!(
        step,
        KeyStep::Ask(Request::Edit(EditSession {
            client_id: 9,
            context: ContextId(1),
            callback: EditOp::StartComposition
        }))
    );
    assert_eq!(sink.stage(), KeyStage::Starting);

    let step = sink.resume(&mut mgr, Reply::Session(EditReply::Started(CompositionId(5))));
    assert_eq!(
        step,
        KeyStep::Ask(Request::Edit(EditSession {
            client_id: 9,
            context: ContextId(1),
            callback: EditOp::SetText {
                composition: CompositionId(5),
                text: vec![0x3042],
                attribute: 4
            }
        }))
    );
    assert_eq!(mgr.preedit(), "");
    assert!(mgr.is_active());

    let step = sink.resume(&mut mgr, Reply::Session(EditReply::TextSet));
    assert_eq!(mgr.preedit(), "あ");
    assert_eq!(
        step,
        KeyStep::Ask(Request::Edit(EditSession {
            client_id: 9,
            context: ContextId(1),
            callback: EditOp::TextExt { composition: CompositionId(5) }
        }))
    );

    let step = sink.resume(&mut mgr, rect(100, 200));
    assert_eq!(
        step,
        KeyStep::Finish(KeyOutcome {
            events: vec![
                UiEvent::Locate(LocateEvent { x: 100, y: 200 }),
                UiEvent::Candidate(CandidateEvent {
                    candidates: vec!["あ".to_string(), "亜".to_string(), "阿".to_string()]
                }),
                UiEvent::Show,
            ],
            result: Ok(true),
        })
    );
    assert_eq!(sink.stage(), KeyStage::Idle);
    assert_eq!(mgr.preedit(), "あ");
}

#[test]
fn second_key_does_not_start_a_composition_again() {
    let mut mgr = CompositionMgr::new(9, 4);
    let _ = mgr.start_composition(ContextId(1));
    assert_eq!(mgr.on_started(Reply::Session(EditReply::Started(CompositionId(5)))), Ok(()));
    let mut sink = KeyEventSink::new();
    let _ = sink.on_key_down(ContextId(1), 0x42);
    let step = sink.resume(&mut mgr, Reply::Received(b"b,B".to_vec()));
    assert_eq!(
        step,
        KeyStep::Ask(Request::Edit(EditSession {
            client_id: 9,
            context: ContextId(1),
            callback: EditOp::SetText {
                composition: CompositionId(5),
                text: vec![0x62],
                attribute: 4
            }
        }))
    );
    assert_eq!(sink.stage(), KeyStage::Writing);
    assert_eq!(mgr.composition(), Some(CompositionId(5)));
}

#[test]
fn events_come_once_and_in_order_for_every_key_code() {
    for code in 0..=255u8 {
        let mut mgr = CompositionMgr::new(1, 1);
        let mut sink = KeyEventSink::new();
        let mut asked = 0;
        let mut step = sink.on_key_down(ContextId(2), code);
        let outcome = loop {
            match step {
                KeyStep::Ask(Request::Send(_)) => {
                    asked += 1;
                    step = sink.resume(&mut mgr, Reply::Received(b"x,y,z,w".to_vec()));
                },
                KeyStep::Ask(Request::Edit(session)) => {
                    asked += 1;
                    let reply = match session.callback {
                        EditOp::StartComposition => EditReply::Started(CompositionId(3)),
                        EditOp::SetText { .. } => EditReply::TextSet,
                        EditOp::TextExt { .. } => EditReply::TextExt {
                            left: 1,
                            top: 2,
                            right: 3,
                            bottom: 4,
                            clipped: false,
                        },
                        _ => panic!("unexpected callback"),
                    };
                    step = sink.resume(&mut mgr, Reply::Session(reply));
                },
                KeyStep::Ask(_) => panic!("unexpected request"),
                KeyStep::Finish(outcome) => break outcome,
            }
        };
        assert_eq!(asked, 4);
        assert_eq!(outcome.result, Ok(true));
        assert_eq!(outcome.events.len(), 3);
        assert_eq!(outcome.events[0], UiEvent::Locate(LocateEvent { x: 1, y: 2 }));
        assert_eq!(
            outcome.events[1],
            UiEvent::Candidate(CandidateEvent {
                candidates: vec![
                    "x".to_string(),
                    "y".to_string(),
                    "z".to_string(),
                    "w".to_string()
                ]
            })
        );
        assert_eq!(outcome.events[2], UiEvent::Show);
    }
}

#[test]
fn failed_request_changes_nothing() {
    let mut mgr = CompositionMgr::new(9, 4);
    let mut sink = KeyEventSink::new();
    let _ = sink.on_key_down(ContextId(1), 0x41);
    let step = sink.resume(&mut mgr, Reply::TransportFailed);
    assert_eq!(step, handled_without_events());
    assert_eq!(sink.stage(), KeyStage::Idle);
    assert!(!mgr.is_active());
    assert_eq!(mgr.context(), None);
    assert_eq!(mgr.preedit(), "");
}

#[test]
fn failed_request_leaves_an_active_composition_as_it_was() {
    let mut mgr = CompositionMgr::new(9, 4);
    let _ = mgr.start_composition(ContextId(1));
    assert_eq!(mgr.on_started(Reply::Session(EditReply::Started(CompositionId(5)))), Ok(()));
    let _ = mgr.set_text("前");
    assert_eq!(mgr.on_text_set(Reply::Session(EditReply::TextSet)), Ok(()));
    let mut sink = KeyEventSink::new();
    let _ = sink.on_key_down(ContextId(1), 0x41);
    assert_eq!(sink.resume(&mut mgr, Reply::TransportFailed), handled_without_events());
    assert_eq!(mgr.preedit(), "前");
    assert!(mgr.is_active());
}

#[test]
fn undecodable_answer_is_an_empty_candidate_set() {
    let mut mgr = CompositionMgr::new(9, 4);
    let _ = mgr.start_composition(ContextId(1));
    assert_eq!(mgr.on_started(Reply::Session(EditReply::Started(CompositionId(5)))), Ok(()));
    let _ = mgr.set_text("前");
    assert_eq!(mgr.on_text_set(Reply::Session(EditReply::TextSet)), Ok(()));
    let mut sink = KeyEventSink::new();
    let _ = sink.on_key_down(ContextId(1), 0x41);
    let step = sink.resume(&mut mgr, Reply::Received(vec![0xFF, 0xFE]));
    assert_eq!(
        step,
        KeyStep::Ask(Request::Edit(EditSession {
            client_id: 9,
            context: ContextId(1),
            callback: EditOp::SetText { composition: CompositionId(5), text: vec![], attribute: 4 }
        }))
    );
    assert_eq!(mgr.preedit(), "前");
    let _ = sink.resume(&mut mgr, Reply::Session(EditReply::TextSet));
    assert_eq!(mgr.preedit(), "");
    let step = sink.resume(&mut mgr, rect(0, 0));
    assert_eq!(
        step,
        KeyStep::Finish(KeyOutcome {
            events: vec![
                UiEvent::Locate(LocateEvent { x: 0, y: 0 }),
                UiEvent::Candidate(CandidateEvent { candidates: vec![] }),
                UiEvent::Show,
            ],
            result: Ok(true),
        })
    );
}

#[test]
fn rejected_start_is_surfaced_without_events() {
    let mut mgr = CompositionMgr::new(9, 4);
    let mut sink = KeyEventSink::new();
    let _ = sink.on_key_down(ContextId(1), 0x41);
    let _ = sink.resume(&mut mgr, Reply::Received(b"a".to_vec()));
    let step = sink.resume(&mut mgr, Reply::Rejected);
    assert_eq!(step, failed_with(ImeError::HostRejectedSession));
    assert_eq!(sink.stage(), KeyStage::Idle);
    assert!(!mgr.is_active());
}

#[test]
fn rejected_write_is_surfaced_without_events() {
    let mut mgr = CompositionMgr::new(9, 4);
    let mut sink = KeyEventSink::new();
    let _ = sink.on_key_down(ContextId(1), 0x41);
    let _ = sink.resume(&mut mgr, Reply::Received(b"a".to_vec()));
    let _ = sink.resume(&mut mgr, Reply::Session(EditReply::Started(CompositionId(5))));
    let step = sink.resume(&mut mgr, Reply::Rejected);
    assert_eq!(step, failed_with(ImeError::HostRejectedSession));
    assert!(mgr.is_active());
    assert_eq!(mgr.preedit(), "");
    assert_eq!(sink.stage(), KeyStage::Idle);
}

#[test]
fn denied_write_keeps_the_text_of_the_key_before() {
    let mut mgr = CompositionMgr::new(9, 4);
    let mut sink = KeyEventSink::new();
    let _ = sink.on_key_down(ContextId(1), 0x41);
    let _ = sink.resume(&mut mgr, Reply::Received("あ,亜".as_bytes().to_vec()));
    let _ = sink.resume(&mut mgr, Reply::Session(EditReply::Started(CompositionId(5))));
    let _ = sink.resume(&mut mgr, Reply::Session(EditReply::TextSet));
    let _ = sink.resume(&mut mgr, rect(1, 2));
    assert_eq!(mgr.preedit(), "あ");

    let _ = sink.on_key_down(ContextId(1), 0x42);
    let step = sink.resume(&mut mgr, Reply::Received("い,意".as_bytes().to_vec()));
    assert!(matches!(step, KeyStep::Ask(Request::Edit(_))));
    assert_eq!(mgr.preedit(), "あ");
    let step = sink.resume(&mut mgr, Reply::Rejected);
    assert_eq!(step, failed_with(ImeError::HostRejectedSession));
    assert_eq!(mgr.preedit(), "あ");
    assert!(mgr.is_active());
    assert_eq!(mgr.composition(), Some(CompositionId(5)));

    let _ = sink.on_key_down(ContextId(1), 0x43);
    let _ = sink.resume(&mut mgr, Reply::Received("う".as_bytes().to_vec()));
    let _ = sink.resume(&mut mgr, Reply::Session(EditReply::TextSet));
    assert_eq!(mgr.preedit(), "う");
}

#[test]
fn rejected_caret_query_is_surfaced_without_events() {
    let mut mgr = CompositionMgr::new(9, 4);
    let mut sink = KeyEventSink::new();
    let _ = sink.on_key_down(ContextId(1), 0x41);
    let _ = sink.resume(&mut mgr, Reply::Received(b"a".to_vec()));
    let _ = sink.resume(&mut mgr, Reply::Session(EditReply::Started(CompositionId(5))));
    let _ = sink.resume(&mut mgr, Reply::Session(EditReply::TextSet));
    assert_eq!(sink.stage(), KeyStage::Locating);
    let step = sink.resume(&mut mgr, Reply::Rejected);
    assert_eq!(step, failed_with(ImeError::HostRejectedSession));
    assert_eq!(sink.stage(), KeyStage::Idle);
}

#[test]
fn answer_with_nothing_in_flight_is_ignored() {
    let mut mgr = CompositionMgr::new(9, 4);
    let mut sink = KeyEventSink::new();
    let step = sink.resume(&mut mgr, Reply::Received(b"a".to_vec()));
    assert_eq!(step, handled_without_events());
    assert!(!mgr.is_active());
}

#[test]
fn test_queries_and_key_up_are_always_handled() {
    let sink = KeyEventSink::new();
    for code in [0u8, 0x0D, 0x1B, 0x20, 0x25, 0x41, 0xFF] {
        assert!(sink.on_test_key_down(code));
        assert!(sink.on_test_key_up(code));
        assert!(sink.on_key_up(code));
    }
    assert!(sink.on_preserved_key());
}
