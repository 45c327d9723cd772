//! What the session tells the candidate window, and what the window does
//! with it.

use vstd::prelude::*;
use vstd::string::*;

use crate::ipc::texts;

verus! {

/// Where the composition stands on the screen, in pixels.
#[derive(Clone, Copy, Debug, PartialEq, Eq, Structural)]
pub struct LocateEvent {
    pub x: i32,
    pub y: i32,
}

/// The candidates of the last conversion, best first.
#[derive(Debug, PartialEq, Eq)]
pub struct CandidateEvent {
    pub candidates: Vec<String>,
}

/// One message to the candidate window. The window takes them in the order
/// in which they were sent.
#[derive(Debug, PartialEq, Eq)]
pub enum UiEvent {
    Locate(LocateEvent),
    Candidate(CandidateEvent),
    Show,
    Hide,
}

/// What a message to the candidate window says.
pub enum UiEventView {
    Locate { x: int, y: int },
    Candidate { candidates: Seq<Seq<char>> },
    Show,
    Hide,
}

impl View for UiEvent {
    type V = UiEventView;

    open spec fn view(&self) -> UiEventView {
        match *self {
            UiEvent::Locate(at) => UiEventView::Locate { x: at.x as int, y: at.y as int },
            UiEvent::Candidate(list) => UiEventView::Candidate { candidates: texts(list.candidates@) },
            UiEvent::Show => UiEventView::Show,
            UiEvent::Hide => UiEventView::Hide,
        }
    }
}

/// What a sequence of messages says, message by message.
pub open spec fn ui_views(events: Seq<UiEvent>) -> Seq<UiEventView> {
    Seq::new(events.len(), |i: int| events[i]@)
}

/// How many candidates the window has rows for.
pub const CANDIDATE_ROWS: usize = 5;

/// How far below the composition the window is put, in pixels.
pub const WINDOW_DROP: i64 = 50;

/// The texts of `parts` in a row, with `sep` between each two.
pub open spec fn joined(parts: Seq<Seq<char>>, sep: Seq<char>) -> Seq<char>
    decreases parts.len(),
{
    if parts.len() == 0 {
        Seq::empty()
    } else if parts.len() == 1 {
        parts[0]
    } else {
        joined(parts.drop_last(), sep) + sep + parts.last()
    }
}

/// The candidates that the window has rows for: the first ones, in order.
pub open spec fn shown_rows(candidates: Seq<Seq<char>>) -> Seq<Seq<char>> {
    if candidates.len() <= CANDIDATE_ROWS {
        candidates
    } else {
        candidates.take(CANDIDATE_ROWS as int)
    }
}

/// The script that puts `rows` into the window's list.
pub open spec fn update_script(rows: Seq<char>) -> Seq<char> {
    "update('"@ + rows + "')"@
}

/// What the candidate window does on a message.
#[derive(Debug, PartialEq, Eq)]
pub enum UiAction {
    /// Move the window so that its top left corner is here.
    MoveTo { x: i64, y: i64 },
    /// Put these rows, joined by commas, into the list.
    Update(String),
    /// Nothing.
    Nothing,
}

/// What the window does, over the values it carries.
pub enum UiActionView {
    MoveTo { x: int, y: int },
    Update(Seq<char>),
    Nothing,
}

impl View for UiAction {
    type V = UiActionView;

    open spec fn view(&self) -> UiActionView {
        match *self {
            UiAction::MoveTo { x, y } => UiActionView::MoveTo { x: x as int, y: y as int },
            UiAction::Update(rows) => UiActionView::Update(rows@),
            UiAction::Nothing => UiActionView::Nothing,
        }
    }
}

/// What the candidate window does on a message: it moves below the
/// composition, or lists the first candidates; being told to show or to hide
/// itself changes nothing.
pub open spec fn reaction(event: UiEventView) -> UiActionView {
    match event {
        UiEventView::Locate { x, y } => UiActionView::MoveTo { x, y: y + WINDOW_DROP },
        UiEventView::Candidate { candidates } => UiActionView::Update(
            joined(shown_rows(candidates), ","@),
        ),
        UiEventView::Show => UiActionView::Nothing,
        UiEventView::Hide => UiActionView::Nothing,
    }
}

/// The candidate window.
#[derive(Debug, PartialEq, Eq)]
pub struct CandidateList;

impl CandidateList {
    /// The first candidates, as many as the window has rows for, joined by
    /// commas.
    pub fn rows(candidates: &Vec<String>) -> (text: String)
        ensures
            text@ == joined(shown_rows(texts(candidates@)), ","@),
    {
        let n = if candidates.len() <= CANDIDATE_ROWS {
            candidates.len()
        } else {
            CANDIDATE_ROWS
        };
        let ghost all = texts(candidates@);
        let ghost rows = shown_rows(all);
        assert(rows =~= all.take(n as int));
        let mut text = String::new();
        let mut i: usize = 0;
        while i < n
            invariant
                i <= n <= candidates@.len(),
                all == texts(candidates@),
                text@ == joined(all.take(i as int), ","@),
            decreases n - i,
        {
            proof {
                let next = all.take(i + 1);
                assert(next.drop_last() =~= all.take(i as int));
                assert(next.last() == candidates@[i as int]@);
                if i > 0 {
                    assert(joined(next, ","@) == joined(all.take(i as int), ","@) + ","@
                        + candidates@[i as int]@);
                } else {
                    assert(joined(next, ","@) == candidates@[i as int]@);
                    assert(Seq::<char>::empty() + candidates@[i as int]@ =~= candidates@[i as int]@);
                }
            }
            if i > 0 {
                text.append(",");
            }
            text.append(candidates[i].as_str());
            i += 1;
        }
        text
    }

    /// What the window does on `event`.
    pub fn react(event: &UiEvent) -> (action: UiAction)
        ensures
            action@ == reaction(event@),
    {
        match event {
            UiEvent::Locate(at) => UiAction::MoveTo { x: at.x as i64, y: at.y as i64 + WINDOW_DROP },
            UiEvent::Candidate(list) => UiAction::Update(CandidateList::rows(&list.candidates)),
            UiEvent::Show => UiAction::Nothing,
            UiEvent::Hide => UiAction::Nothing,
        }
    }

    /// The script that puts `rows` into the window's list.
    pub fn script(rows: &str) -> (text: String)
        ensures
            text@ == update_script(rows@),
    {
        let mut text = String::from_str("update('");
        text.append(rows);
        text.append("')");
        text
    }
}

} // verus!
