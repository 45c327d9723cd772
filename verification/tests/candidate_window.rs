use azookey::ui::{CandidateEvent, CandidateList, LocateEvent, UiAction, UiEvent, CANDIDATE_ROWS, WINDOW_DROP};

fn list(items: &[&str]) -> Vec<String> {
    items.iter().map(|s| s.to_string()).collect()
}

#[test]
fn window_moves_below_the_composition() {
    assert_eq!(WINDOW_DROP, 50);
    let action = CandidateList::react(&UiEvent::Locate(LocateEvent { x: 10, y: 20 }));
    assert_eq!(action, UiAction::MoveTo { x: 10, y: 70 });
    let action = CandidateList::react(&UiEvent::Locate(LocateEvent { x: -5, y: i32::MAX }));
    assert_eq!(action, UiAction::MoveTo { x: -5, y: 2147483697 });
    let action = CandidateList::react(&UiEvent::Locate(LocateEvent { x: i32::MIN, y: i32::MIN }));
    assert_eq!(action, UiAction::MoveTo { x: -2147483648, y: -2147483598 });
}

#[test]
fn window_lists_at_most_five_candidates() {
    assert_eq!(CANDIDATE_ROWS, 5);
    let all = list(&["一", "二", "三", "四", "五", "六", "七"]);
    assert_eq!(CandidateList::rows(&all), "一,二,三,四,五");
    let five = list(&["a", "b", "c", "d", "e"]);
    assert_eq!(CandidateList::rows(&five), "a,b,c,d,e");
}

#[test]
fn window_lists_fewer_candidates_as_they_are() {
    assert_eq!(CandidateList::rows(&list(&["あ", "亜", "阿"])), "あ,亜,阿");
    assert_eq!(CandidateList::rows(&list(&["a"])), "a");
    assert_eq!(CandidateList::rows(&list(&[])), "");
    assert_eq!(CandidateList::rows(&list(&["", ""])), ",");
}

#[test]
fn rows_agree_with_std_join() {
    let cases = [
        list(&[]),
        list(&["x"]),
        list(&["x", "y"]),
        list(&["1", "2", "3", "4", "5", "6"]),
        list(&["", "b", ""]),
    ];
    for case in cases {
        let n = case.len().min(5);
        assert_eq!(CandidateList::rows(&case), case[0..n].join(","));
    }
}

#[test]
fn window_reacts_to_candidates_with_an_update() {
    let event = UiEvent::Candidate(CandidateEvent { candidates: list(&["あ", "亜", "阿"]) });
    assert_eq!(CandidateList::react(&event), UiAction::Update("あ,亜,阿".to_string()));
}

#[test]
fn show_and_hide_change_nothing() {
    assert_eq!(CandidateList::react(&UiEvent::Show), UiAction::Nothing);
    assert_eq!(CandidateList::react(&UiEvent::Hide), UiAction::Nothing);
}

#[test]
fn script_wraps_the_rows() {
    assert_eq!(CandidateList::script("a,b"), "update('a,b')");
    assert_eq!(CandidateList::script(""), "update('')");
}
