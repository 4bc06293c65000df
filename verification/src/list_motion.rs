//! How the list widget of the terminal toolkit moves its highlight. The
//! catalog moves its own highlight by the same steps, so that what is drawn
//! and what is selected never part.

use ratatui::widgets::ListState;
use vstd::prelude::*;

verus! {

/// Where the widget puts the highlight on "next": on the first entry if there
/// was none, else one entry further, never past the largest index.
pub open spec fn next_index(selected: Option<usize>) -> Option<usize> {
    match selected {
        None => Some(0usize),
        Some(i) => Some(if i < usize::MAX { (i + 1) as usize } else { i }),
    }
}

/// Where the widget puts the highlight on "previous": on the largest index if
/// there was none (the widget's way to say "the last entry"), else one entry
/// back, never before the first.
pub open spec fn previous_index(selected: Option<usize>) -> Option<usize> {
    match selected {
        None => Some(usize::MAX),
        Some(i) => Some(if i > 0 { (i - 1) as usize } else { i }),
    }
}

/// `ListState::select_next` of ratatui, called on a state that
/// `ListState::with_selected` gave the selection `selected`: what
/// `ListState::selected` reports afterwards is `next_index(selected)`.
#[verifier::external_body]
pub(crate) fn list_select_next(selected: Option<usize>) -> (moved: Option<usize>)
    ensures
        moved == next_index(selected),
{
    let mut state = ListState::default().with_selected(selected);
    state.select_next();
    state.selected()
}

/// `ListState::select_previous` of ratatui, called on a state that
/// `ListState::with_selected` gave the selection `selected`: what
/// `ListState::selected` reports afterwards is `previous_index(selected)`.
#[verifier::external_body]
pub(crate) fn list_select_previous(selected: Option<usize>) -> (moved: Option<usize>)
    ensures
        moved == previous_index(selected),
{
    let mut state = ListState::default().with_selected(selected);
    state.select_previous();
    state.selected()
}

} // verus!
