use azookey::composition_mgr::CompositionMgr;
use azookey::edit_session::{EditOp, EditReply, EditSession};
use azookey::error::ImeError;
use azookey::host::{CompositionId, ContextId, DocumentId, Reply, Request};
use azookey::thread_mgr_event_sink::{FocusStage, FocusStep, ThreadMgrEventSink};

#[test]
fn focus_on_nothing_is_a_no_op() {
    let mut sink = ThreadMgrEventSink::new();
    assert_eq!(sink.on_set_focus(None), FocusStep::Finish(Ok(())));
    assert_eq!(sink.stage(), FocusStage::Idle);
}

#[test]
fn focus_resolves_the_base_context_first() {
    let mut sink = ThreadMgrEventSink::new();
    assert_eq!(
        sink.on_set_focus(Some(DocumentId(40))),
        FocusStep::Ask(Request::BaseContext(DocumentId(40)))
    );
    assert_eq!(sink.stage(), FocusStage::Resolving);
}

#[test]
fn focus_sends_the_text_before_the_caret() {
    let mut mgr = CompositionMgr::new(9, 4);
    let mut sink = ThreadMgrEventSink::new();
    let _ = sink.on_set_focus(Some(DocumentId(40)));

    let step = sink.resume(&mut mgr, Reply::Context(ContextId(41)));
    assert_eq!(
        step,
        FocusStep::Ask(Request::Edit(EditSession {
            client_id: 9,
            context: ContextId(41),
            callback: EditOp::StartComposition
        }))
    );

    let step = sink.resume(&mut mgr, Reply::Session(EditReply::Started(CompositionId(5))));
    assert_eq!(step, FocusStep::Ask(Request::ParentContext(ContextId(41))));
    assert!(mgr.is_active());

    let step = sink.resume(&mut mgr, Reply::Context(ContextId(50)));
    assert_eq!(step, FocusStep::Ask(Request::ParentContext(ContextId(50))));
    assert_eq!(sink.stage(), FocusStage::Ascending);

    let step = sink.resume(&mut mgr, Reply::NoContext);
    assert_eq!(
        step,
        FocusStep::Ask(Request::Edit(EditSession {
            client_id: 9,
            context: ContextId(50),
            callback: EditOp::PrecedingText { limit: 20 }
        }))
    );

    let units: Vec<u16> = "こんにちは".encode_utf16().collect();
    let step = sink.resume(&mut mgr, Reply::Session(EditReply::PrecedingText(units)));
    assert_eq!(
        step,
        FocusStep::Ask(Request::Post(
            "{\"type\":\"left\",\"message\":\"こんにちは\"}".as_bytes().to_vec()
        ))
    );
    assert_eq!(sink.stage(), FocusStage::Posting);

    assert_eq!(sink.resume(&mut mgr, Reply::Posted), FocusStep::Finish(Ok(())));
    assert_eq!(sink.stage(), FocusStage::Idle);
}

#[test]
fn focus_with_an_active_composition_does_not_start_another() {
    let mut mgr = CompositionMgr::new(9, 4);
    let _ = mgr.start_composition(ContextId(41));
    assert_eq!(mgr.on_started(Reply::Session(EditReply::Started(CompositionId(5)))), Ok(()));
    let mut sink = ThreadMgrEventSink::new();
    let _ = sink.on_set_focus(Some(DocumentId(60)));
    let step = sink.resume(&mut mgr, Reply::Context(ContextId(61)));
    assert_eq!(step, FocusStep::Ask(Request::ParentContext(ContextId(41))));
    assert_eq!(mgr.composition(), Some(CompositionId(5)));
    assert_eq!(mgr.context(), Some(ContextId(41)));
}

#[test]
fn focus_text_is_cut_to_the_limit_and_at_objects() {
    let mut mgr = CompositionMgr::new(9, 4);
    let _ = mgr.start_composition(ContextId(41));
    assert_eq!(mgr.on_started(Reply::Session(EditReply::Started(CompositionId(5)))), Ok(()));
    let mut sink = ThreadMgrEventSink::new();
    let _ = sink.on_set_focus(Some(DocumentId(60)));
    let _ = sink.resume(&mut mgr, Reply::Context(ContextId(61)));
    let _ = sink.resume(&mut mgr, Reply::NoContext);
    let mut units: Vec<u16> = "abc".encode_utf16().collect();
    units.push(0xFFFC);
    units.extend("0123456789012345678901234".encode_utf16());
    let step = sink.resume(&mut mgr, Reply::Session(EditReply::PrecedingText(units)));
    assert_eq!(
        step,
        FocusStep::Ask(Request::Post(
            "{\"type\":\"left\",\"message\":\"56789012345678901234\"}".as_bytes().to_vec()
        ))
    );
}

#[test]
fn focus_text_with_a_lone_surrogate_is_replaced() {
    let mut mgr = CompositionMgr::new(9, 4);
    let _ = mgr.start_composition(ContextId(41));
    assert_eq!(mgr.on_started(Reply::Session(EditReply::Started(CompositionId(5)))), Ok(()));
    let mut sink = ThreadMgrEventSink::new();
    let _ = sink.on_set_focus(Some(DocumentId(60)));
    let _ = sink.resume(&mut mgr, Reply::Context(ContextId(61)));
    let _ = sink.resume(&mut mgr, Reply::NoContext);
    let units = vec![0x61u16, 0xD800, 0x62, 0xD834, 0xDD1E];
    let step = sink.resume(&mut mgr, Reply::Session(EditReply::PrecedingText(units)));
    assert_eq!(
        step,
        FocusStep::Ask(Request::Post(
            "{\"type\":\"left\",\"message\":\"a\u{FFFD}b𝄞\"}".as_bytes().to_vec()
        ))
    );
}

#[test]
fn failed_post_is_absorbed() {
    let mut mgr = CompositionMgr::new(9, 4);
    let _ = mgr.start_composition(ContextId(41));
    assert_eq!(mgr.on_started(Reply::Session(EditReply::Started(CompositionId(5)))), Ok(()));
    let mut sink = ThreadMgrEventSink::new();
    let _ = sink.on_set_focus(Some(DocumentId(60)));
    let _ = sink.resume(&mut mgr, Reply::Context(ContextId(61)));
    let _ = sink.resume(&mut mgr, Reply::NoContext);
    let _ = sink.resume(&mut mgr, Reply::Session(EditReply::PrecedingText(vec![0x61])));
    assert_eq!(sink.resume(&mut mgr, Reply::TransportFailed), FocusStep::Finish(Ok(())));
    assert!(mgr.is_active());
}

#[test]
fn unresolved_base_context_is_surfaced() {
    let mut mgr = CompositionMgr::new(9, 4);
    let mut sink = ThreadMgrEventSink::new();
    let _ = sink.on_set_focus(Some(DocumentId(60)));
    assert_eq!(
        sink.resume(&mut mgr, Reply::Rejected),
        FocusStep::Finish(Err(ImeError::HostRejectedSession))
    );
    assert_eq!(sink.stage(), FocusStage::Idle);
    assert!(!mgr.is_active());
}

#[test]
fn rejected_sessions_during_focus_are_surfaced() {
    let mut mgr = CompositionMgr::new(9, 4);
    let mut sink = ThreadMgrEventSink::new();
    let _ = sink.on_set_focus(Some(DocumentId(60)));
    let _ = sink.resume(&mut mgr, Reply::Context(ContextId(61)));
    assert_eq!(
        sink.resume(&mut mgr, Reply::Rejected),
        FocusStep::Finish(Err(ImeError::HostRejectedSession))
    );
    assert!(!mgr.is_active());

    let _ = sink.on_set_focus(Some(DocumentId(60)));
    let _ = sink.resume(&mut mgr, Reply::Context(ContextId(61)));
    let _ = sink.resume(&mut mgr, Reply::Session(EditReply::Started(CompositionId(5))));
    assert_eq!(
        sink.resume(&mut mgr, Reply::Rejected),
        FocusStep::Finish(Err(ImeError::HostRejectedSession))
    );

    let _ = sink.on_set_focus(Some(DocumentId(60)));
    let _ = sink.resume(&mut mgr, Reply::Context(ContextId(61)));
    let _ = sink.resume(&mut mgr, Reply::NoContext);
    assert_eq!(sink.stage(), FocusStage::Reading);
    assert_eq!(
        sink.resume(&mut mgr, Reply::Rejected),
        FocusStep::Finish(Err(ImeError::HostRejectedSession))
    );
}

#[test]
fn answer_with_no_focus_in_flight_is_ignored() {
    let mut mgr = CompositionMgr::new(9, 4);
    let mut sink = ThreadMgrEventSink::new();
    assert_eq!(sink.resume(&mut mgr, Reply::Context(ContextId(1))), FocusStep::Finish(Ok(())));
    assert!(!mgr.is_active());
}

fn lossy(units: &[u16]) -> String {
    let mut out = String::new();
    let mut i = 0;
    while i < units.len() {
        let u = units[i];
        if (0xD800..=0xDBFF).contains(&u)
            && i + 1 < units.len()
            && (0xDC00..=0xDFFF).contains(&units[i + 1])
        {
            let v = 0x10000 + (u as u32 - 0xD800) * 0x400 + (units[i + 1] as u32 - 0xDC00);
            out.push(char::from_u32(v).unwrap());
            i += 2;
        } else if (0xD800..=0xDFFF).contains(&u) {
            out.push('\u{FFFD}');
            i += 1;
        } else {
            out.push(char::from_u32(u as u32).unwrap());
            i += 1;
        }
    }
    out
}

fn posted_for(units: Vec<u16>) -> FocusStep {
    let mut mgr = CompositionMgr::new(9, 4);
    let _ = mgr.start_composition(ContextId(41));
    assert_eq!(mgr.on_started(Reply::Session(EditReply::Started(CompositionId(5)))), Ok(()));
    let mut sink = ThreadMgrEventSink::new();
    let _ = sink.on_set_focus(Some(DocumentId(60)));
    let _ = sink.resume(&mut mgr, Reply::Context(ContextId(61)));
    let _ = sink.resume(&mut mgr, Reply::NoContext);
    sink.resume(&mut mgr, Reply::Session(EditReply::PrecedingText(units)))
}

#[test]
fn surrogates_are_read_as_stated() {
    let cases: Vec<Vec<u16>> = vec![
        vec![],
        vec![0x61],
        vec![0xD7FF, 0xE000, 0xFFFF, 0xFFFD],
        vec![0xD800],
        vec![0xDBFF],
        vec![0xDC00],
        vec![0xDFFF],
        vec![0xD800, 0xDC00],
        vec![0xDBFF, 0xDFFF],
        vec![0xDC00, 0xD800],
        vec![0xD800, 0xD800, 0xDC00],
        vec![0xD800, 0x61],
        vec![0xD834, 0xDD1E, 0xD834],
        vec![0xDD1E, 0xD834, 0xDD1E, 0xDD1E],
        vec![0x3053, 0x3093, 0xD83D, 0xDE42, 0xDBFF, 0x3061],
    ];
    for units in cases {
        let text = lossy(&units);
        assert_eq!(text, String::from_utf16_lossy(&units));
        let json = serde_json::to_string(&text).unwrap();
        assert_eq!(
            posted_for(units),
            FocusStep::Ask(Request::Post(
                format!("{{\"type\":\"left\",\"message\":{}}}", json).into_bytes()
            ))
        );
    }
}

#[test]
fn encoded_text_is_read_back_as_it_was() {
    let texts = ["", "abc", "こんにちは", "𝄞🙂", "a\u{FFFD}b", "\u{10FFFF}\u{10000}\u{FFFF}"];
    for text in texts {
        let units = azookey::wide::encode_utf16(text);
        let json = serde_json::to_string(text).unwrap();
        assert_eq!(
            posted_for(units),
            FocusStep::Ask(Request::Post(
                format!("{{\"type\":\"left\",\"message\":{}}}", json).into_bytes()
            ))
        );
    }
}
