use azookey::composition_mgr::{
    preceding_text_window, CompositionMgr, EMBEDDED_OBJECT, PRECEDING_TEXT_LIMIT,
};
use azookey::edit_session::{EditOp, EditReply, EditSession};
use azookey::error::ImeError;
use azookey::host::{CompositionId, ContextId, Reply, Request};
use azookey::ui::LocateEvent;

fn active_mgr() -> CompositionMgr {
    let mut mgr = CompositionMgr::new(7, 3);
    let _ = mgr.start_composition(ContextId(11));
    assert_eq!(mgr.on_started(Reply::Session(EditReply::Started(CompositionId(21)))), Ok(()));
    mgr
}

#[test]
fn new_manager_is_inactive_and_empty() {
    let mgr = CompositionMgr::new(7, 3);
    assert!(!mgr.is_active());
    assert_eq!(mgr.composition(), None);
    assert_eq!(mgr.context(), None);
    assert_eq!(mgr.preedit(), "");
}

#[test]
fn start_composition_asks_for_a_session_in_the_context() {
    let mut mgr = CompositionMgr::new(7, 3);
    let session = mgr.start_composition(ContextId(11));
    assert_eq!(
        session,
        EditSession { client_id: 7, context: ContextId(11), callback: EditOp::StartComposition }
    );
    assert!(!mgr.is_active());
    assert_eq!(mgr.context(), Some(ContextId(11)));
}

#[test]
fn started_composition_makes_the_state_active() {
    let mgr = active_mgr();
    assert!(mgr.is_active());
    assert_eq!(mgr.composition(), Some(CompositionId(21)));
    assert_eq!(mgr.preedit(), "");
}

#[test]
fn rejected_start_leaves_the_state_inactive() {
    let mut mgr = CompositionMgr::new(7, 3);
    let _ = mgr.start_composition(ContextId(11));
    assert_eq!(mgr.on_started(Reply::Rejected), Err(ImeError::HostRejectedSession));
    assert!(!mgr.is_active());
    assert_eq!(mgr.on_started(Reply::Session(EditReply::TextSet)), Err(ImeError::HostRejectedSession));
    assert_eq!(mgr.on_started(Reply::Posted), Err(ImeError::HostRejectedSession));
    assert!(!mgr.is_active());
}

#[test]
fn start_answer_without_a_context_is_rejected() {
    let mut mgr = CompositionMgr::new(7, 3);
    assert_eq!(
        mgr.on_started(Reply::Session(EditReply::Started(CompositionId(1)))),
        Err(ImeError::HostRejectedSession)
    );
    assert!(!mgr.is_active());
}

fn granted() -> Reply {
    Reply::Session(EditReply::TextSet)
}

#[test]
fn set_text_round_trip() {
    let mut mgr = active_mgr();
    let session = mgr.set_text("あ");
    assert_eq!(
        session,
        EditSession {
            client_id: 7,
            context: ContextId(11),
            callback: EditOp::SetText {
                composition: CompositionId(21),
                text: vec![0x3042],
                attribute: 3
            }
        }
    );
    assert_eq!(mgr.on_text_set(granted()), Ok(()));
    assert_eq!(mgr.preedit(), "あ");
}

#[test]
fn text_waits_for_the_hosts_answer() {
    let mut mgr = active_mgr();
    let _ = mgr.set_text("あ");
    assert_eq!(mgr.preedit(), "");
    assert_eq!(mgr.on_text_set(granted()), Ok(()));
    assert_eq!(mgr.preedit(), "あ");
    let _ = mgr.set_text("亜");
    assert_eq!(mgr.preedit(), "あ");
    assert_eq!(mgr.on_text_set(granted()), Ok(()));
    assert_eq!(mgr.preedit(), "亜");
}

#[test]
fn set_text_twice_is_idempotent() {
    let mut mgr = active_mgr();
    let first = mgr.set_text("変換");
    assert_eq!(mgr.on_text_set(granted()), Ok(()));
    let text_after_first = mgr.preedit().to_string();
    let second = mgr.set_text("変換");
    assert_eq!(mgr.on_text_set(granted()), Ok(()));
    assert_eq!(first, second);
    assert_eq!(mgr.preedit(), text_after_first);
    assert_eq!(mgr.preedit(), "変換");
    assert!(mgr.is_active());
    assert_eq!(mgr.composition(), Some(CompositionId(21)));
}

#[test]
fn set_text_with_empty_text_clears_the_range() {
    let mut mgr = active_mgr();
    let _ = mgr.set_text("abc");
    assert_eq!(mgr.on_text_set(granted()), Ok(()));
    let session = mgr.set_text("");
    assert_eq!(
        session.callback,
        EditOp::SetText { composition: CompositionId(21), text: vec![], attribute: 3 }
    );
    assert_eq!(mgr.on_text_set(granted()), Ok(()));
    assert_eq!(mgr.preedit(), "");
}

#[test]
fn denied_set_text_keeps_the_text_held_before() {
    let mut mgr = active_mgr();
    let _ = mgr.set_text("前");
    assert_eq!(mgr.on_text_set(granted()), Ok(()));
    let _ = mgr.set_text("後");
    assert_eq!(mgr.on_text_set(Reply::Rejected), Err(ImeError::HostRejectedSession));
    assert_eq!(mgr.preedit(), "前");
    assert!(mgr.is_active());
    assert_eq!(mgr.composition(), Some(CompositionId(21)));
    assert_eq!(mgr.context(), Some(ContextId(11)));
}

#[test]
fn denied_first_set_text_leaves_no_text() {
    let mut mgr = active_mgr();
    let _ = mgr.set_text("後");
    assert_eq!(
        mgr.on_text_set(Reply::Session(EditReply::Ended)),
        Err(ImeError::HostRejectedSession)
    );
    assert_eq!(mgr.preedit(), "");
    assert!(mgr.is_active());
}

#[test]
fn denied_text_does_not_arrive_late() {
    let mut mgr = active_mgr();
    let _ = mgr.set_text("後");
    assert_eq!(mgr.on_text_set(Reply::Rejected), Err(ImeError::HostRejectedSession));
    assert_eq!(mgr.on_text_set(granted()), Err(ImeError::HostRejectedSession));
    assert_eq!(mgr.preedit(), "");
}

#[test]
fn answer_without_a_replacement_is_rejected() {
    let mut mgr = active_mgr();
    assert_eq!(mgr.on_text_set(granted()), Err(ImeError::HostRejectedSession));
    assert_eq!(mgr.preedit(), "");
    let mut idle = CompositionMgr::new(1, 1);
    assert_eq!(idle.on_text_set(granted()), Err(ImeError::HostRejectedSession));
    assert!(!idle.is_active());
}

#[test]
fn get_pos_reports_the_top_left_corner() {
    let mgr = active_mgr();
    let session = mgr.get_pos();
    assert_eq!(
        session,
        EditSession {
            client_id: 7,
            context: ContextId(11),
            callback: EditOp::TextExt { composition: CompositionId(21) }
        }
    );
    let reply = Reply::Session(EditReply::TextExt {
        left: 120,
        top: -40,
        right: 300,
        bottom: 20,
        clipped: true,
    });
    assert_eq!(mgr.on_pos(reply), Ok(LocateEvent { x: 120, y: -40 }));
    assert_eq!(mgr.on_pos(Reply::Rejected), Err(ImeError::HostRejectedSession));
    assert_eq!(mgr.on_pos(Reply::Session(EditReply::TextSet)), Err(ImeError::HostRejectedSession));
}

#[test]
fn end_composition_returns_to_inactive_and_clears_text() {
    let mut mgr = active_mgr();
    let _ = mgr.set_text("あ");
    assert_eq!(mgr.on_text_set(granted()), Ok(()));
    assert_eq!(mgr.preedit(), "あ");
    let session = mgr.end_composition();
    assert_eq!(
        session,
        EditSession {
            client_id: 7,
            context: ContextId(11),
            callback: EditOp::EndComposition { composition: CompositionId(21) }
        }
    );
    assert!(mgr.is_active());
    assert_eq!(mgr.on_ended(Reply::Session(EditReply::Ended)), Ok(()));
    assert!(!mgr.is_active());
    assert_eq!(mgr.preedit(), "");
    assert_eq!(mgr.composition(), None);
}

#[test]
fn rejected_end_keeps_the_composition() {
    let mut mgr = active_mgr();
    let _ = mgr.set_text("あ");
    assert_eq!(mgr.on_text_set(granted()), Ok(()));
    assert_eq!(mgr.on_ended(Reply::Rejected), Err(ImeError::HostRejectedSession));
    assert!(mgr.is_active());
    assert_eq!(mgr.preedit(), "あ");
}

#[test]
fn composition_can_be_started_again_after_its_end() {
    let mut mgr = active_mgr();
    assert_eq!(mgr.on_ended(Reply::Session(EditReply::Ended)), Ok(()));
    let session = mgr.start_composition(ContextId(12));
    assert_eq!(session.context, ContextId(12));
    assert_eq!(mgr.on_started(Reply::Session(EditReply::Started(CompositionId(22)))), Ok(()));
    assert_eq!(mgr.composition(), Some(CompositionId(22)));
}

#[test]
fn preceding_text_starts_at_the_parent_link() {
    let mgr = active_mgr();
    assert_eq!(mgr.get_preceding_text(), Request::ParentContext(ContextId(11)));
}

#[test]
fn parent_answers_are_followed_to_the_top() {
    let mgr = active_mgr();
    assert_eq!(
        mgr.on_parent(ContextId(11), 20, Reply::Context(ContextId(30))),
        Ok(Request::ParentContext(ContextId(30)))
    );
    assert_eq!(
        mgr.on_parent(ContextId(30), 20, Reply::NoContext),
        Ok(Request::Edit(EditSession {
            client_id: 7,
            context: ContextId(30),
            callback: EditOp::PrecedingText { limit: 20 }
        }))
    );
    assert_eq!(
        mgr.on_parent(ContextId(30), 20, Reply::Rejected),
        Err(ImeError::HostRejectedSession)
    );
}

#[test]
fn preceding_text_under_the_limit_is_kept() {
    let units: Vec<u16> = "こんにちは".encode_utf16().collect();
    assert_eq!(PRECEDING_TEXT_LIMIT, 20);
    assert_eq!(preceding_text_window(&units, PRECEDING_TEXT_LIMIT), units);
    let mgr = active_mgr();
    assert_eq!(
        mgr.on_preceding_text(20, Reply::Session(EditReply::PrecedingText(units.clone()))),
        Ok(units)
    );
}

#[test]
fn preceding_text_never_exceeds_the_limit() {
    let units: Vec<u16> = (1..=64u16).collect();
    let window = preceding_text_window(&units, 20);
    assert_eq!(window.len(), 20);
    assert_eq!(window, (45..=64u16).collect::<Vec<u16>>());
    assert_eq!(preceding_text_window(&units, 0), Vec::<u16>::new());
    assert_eq!(preceding_text_window(&units, 1), vec![64u16]);
    assert_eq!(preceding_text_window(&units, 64), units);
    assert_eq!(preceding_text_window(&units, 1000), units);
}

#[test]
fn preceding_text_halts_at_an_embedded_object() {
    assert_eq!(EMBEDDED_OBJECT, 0xFFFC);
    let units = vec![0x61u16, 0x62, 0xFFFC, 0x63, 0x64];
    assert_eq!(preceding_text_window(&units, 20), vec![0x63u16, 0x64]);
    assert_eq!(preceding_text_window(&units, 1), vec![0x64u16]);
    let ends_with_object = vec![0x61u16, 0xFFFC];
    assert_eq!(preceding_text_window(&ends_with_object, 20), Vec::<u16>::new());
    let two_objects = vec![0xFFFCu16, 0x61, 0xFFFC, 0x62];
    assert_eq!(preceding_text_window(&two_objects, 20), vec![0x62u16]);
    assert_eq!(preceding_text_window(&[], 20), Vec::<u16>::new());
}

#[test]
fn preceding_text_from_a_rejected_session_fails() {
    let mgr = CompositionMgr::new(1, 1);
    assert_eq!(mgr.on_preceding_text(20, Reply::Rejected), Err(ImeError::HostRejectedSession));
    assert_eq!(
        mgr.on_preceding_text(20, Reply::Session(EditReply::TextSet)),
        Err(ImeError::HostRejectedSession)
    );
}

#[test]
fn edit_session_handle_passes_on_what_the_callback_brought() {
    assert_eq!(EditSession::handle(Reply::Session(EditReply::Ended)), Ok(EditReply::Ended));
    assert_eq!(
        EditSession::handle(Reply::Session(EditReply::PrecedingText(vec![1, 2]))),
        Ok(EditReply::PrecedingText(vec![1, 2]))
    );
    assert_eq!(EditSession::handle(Reply::Rejected), Err(ImeError::HostRejectedSession));
    assert_eq!(EditSession::handle(Reply::NoContext), Err(ImeError::HostRejectedSession));
    assert_eq!(EditSession::handle(Reply::Received(vec![1])), Err(ImeError::HostRejectedSession));
    assert_eq!(EditSession::handle(Reply::TransportFailed), Err(ImeError::HostRejectedSession));
}

#[test]
fn edit_session_new_keeps_its_parts() {
    let session = EditSession::new(5, ContextId(6), EditOp::PrecedingText { limit: 20 });
    assert_eq!(session.client_id, 5);
    assert_eq!(session.context, ContextId(6));
    assert_eq!(session.callback, EditOp::PrecedingText { limit: 20 });
}
