//! The highlighted row of a table, moved with `ratatui`'s `TableState`.
use vstd::prelude::*;
use ratatui::widgets::TableState;

verus! {

/// The highlighted row of a table and the first row drawn, as `TableState` keeps them.
#[derive(Debug, Clone, Copy, PartialEq, Eq)]
pub struct TableSelection {
    pub selected: Option<usize>,
    pub offset: usize,
}

/// What `TableState::select` leaves: the given row highlighted, and the view scrolled back to the
/// top where nothing is.
pub open spec fn select_spec(s: TableSelection, index: Option<usize>) -> TableSelection {
    TableSelection { selected: index, offset: if index is None { 0 } else { s.offset } }
}

/// The row `select_next` moves to: one further down (saturating), or the first row.
pub open spec fn next_row(selected: Option<usize>) -> usize {
    match selected {
        Some(i) => if i < usize::MAX { (i + 1) as usize } else { usize::MAX },
        None => 0,
    }
}

/// The row `select_previous` moves to: one further up (saturating), or the last row.
pub open spec fn previous_row(selected: Option<usize>) -> usize {
    match selected {
        Some(i) => if i > 0 { (i - 1) as usize } else { 0 },
        None => usize::MAX,
    }
}

/// The highlight kept inside a list of `len` rows: none in an empty list, otherwise the
/// highlighted row pulled back to the last one, or the first row where nothing was highlighted.
pub open spec fn clamp_spec(selected: Option<usize>, len: usize) -> Option<usize> {
    if len == 0 {
        None
    } else {
        match selected {
            Some(i) => Some(if i < len { i } else { (len - 1) as usize }),
            None => Some(0),
        }
    }
}

impl TableSelection {
    /// Nothing highlighted, scrolled to the top: `TableState::default()`.
    pub fn new() -> (s: Self)
        ensures
            s.selected is None,
            s.offset == 0,
    {
        TableSelection { selected: None, offset: 0 }
    }

    /// Calls `TableState::select`.
    #[verifier::external_body]
    pub(crate) fn select(&mut self, index: Option<usize>)
        ensures
            *final(self) == select_spec(*old(self), index),
    {
        let mut state = TableState::default().with_offset(self.offset).with_selected(self.selected);
        state.select(index);
        *self = TableSelection { selected: state.selected(), offset: state.offset() };
    }

    /// Calls `TableState::select_next`, which selects the next row with a saturating add, or the
    /// first row where none is selected.
    #[verifier::external_body]
    pub(crate) fn select_next(&mut self)
        ensures
            *final(self) == select_spec(*old(self), Some(next_row(old(self).selected))),
    {
        let mut state = TableState::default().with_offset(self.offset).with_selected(self.selected);
        state.select_next();
        *self = TableSelection { selected: state.selected(), offset: state.offset() };
    }

    /// Calls `TableState::select_previous`, which selects the previous row with a saturating
    /// subtraction, or `usize::MAX` where none is selected.
    #[verifier::external_body]
    pub(crate) fn select_previous(&mut self)
        ensures
            *final(self) == select_spec(*old(self), Some(previous_row(old(self).selected))),
    {
        let mut state = TableState::default().with_offset(self.offset).with_selected(self.selected);
        state.select_previous();
        *self = TableSelection { selected: state.selected(), offset: state.offset() };
    }

    /// Calls `TableState::select_first`, which selects row 0.
    #[verifier::external_body]
    pub(crate) fn select_first(&mut self)
        ensures
            *final(self) == select_spec(*old(self), Some(0usize)),
    {
        let mut state = TableState::default().with_offset(self.offset).with_selected(self.selected);
        state.select_first();
        *self = TableSelection { selected: state.selected(), offset: state.offset() };
    }

    /// Calls `TableState::select_last`, which selects row `usize::MAX` for the next draw to pull
    /// back to the last row.
    #[verifier::external_body]
    pub(crate) fn select_last(&mut self)
        ensures
            *final(self) == select_spec(*old(self), Some(usize::MAX)),
    {
        let mut state = TableState::default().with_offset(self.offset).with_selected(self.selected);
        state.select_last();
        *self = TableSelection { selected: state.selected(), offset: state.offset() };
    }
}

/// Keeps the highlighted row inside its list, which `TableState` alone does not do:
/// `select_next` and `select_last` can both leave the selection past the end.
pub fn clamp_selection(state: &mut TableSelection, len: usize)
    ensures
        *final(state) == select_spec(*old(state), clamp_spec(old(state).selected, len)),
{
    let index = if len == 0 {
        None
    } else {
        match state.selected {
            Some(i) => Some(if i < len { i } else { len - 1 }),
            None => Some(0),
        }
    };
    state.select(index);
}

} // verus!
