//! Selection state of the widget that lists the key bindings, kept in the
//! table widget's own state type.

use vstd::prelude::*;

use rat_ftable::TableState;
use rat_ftable::selection::RowSelection;

verus! {

#[verifier::external_type_specification]
#[verifier::external_body]
pub struct ExRowSelection(RowSelection);

#[verifier::external_type_specification]
#[verifier::external_body]
#[verifier::reject_recursive_types(Selection)]
pub struct ExTableState<Selection>(TableState<Selection>);

/// The row a table state holds selected, if any.
pub uninterp spec fn table_selected_row(s: TableState<RowSelection>) -> Option<usize>;

/// Relies on `TableState::default`: every part of the fresh state is the
/// type's default, so no row is selected.
#[verifier::external_body]
fn table_state_new() -> (s: TableState<RowSelection>)
    ensures
        table_selected_row(s) == None::<usize>,
{
    TableState::default()
}

/// Relies on `TableState::<RowSelection>::select`: stores the given row as
/// the selection, whether or not such a row exists in the table, and
/// reports whether the selection changed.
#[verifier::external_body]
fn table_state_select(s: &mut TableState<RowSelection>, row: Option<usize>) -> (changed: bool)
    ensures
        table_selected_row(*final(s)) == row,
        changed == (table_selected_row(*old(s)) != row),
{
    s.select(row)
}

/// Relies on `TableState::<RowSelection>::selected`: reads the selection
/// back.
#[verifier::external_body]
fn table_state_selected(s: &TableState<RowSelection>) -> (r: Option<usize>)
    ensures
        r == table_selected_row(*s),
{
    s.selected()
}

/// Relies on `TableState::row_at_clicked`: the row under the given grid
/// position according to the row areas of the last render. The answer
/// depends on that rendering state, so nothing is promised of it.
#[verifier::external_body]
fn table_state_row_at_clicked(s: &TableState<RowSelection>, x: u16, y: u16) -> Option<usize> {
    s.row_at_clicked((x, y))
}

/// The selection state of the key-binding listing.
#[derive(Debug)]
pub struct KeyBindingsState {
    pub table_state: TableState<RowSelection>,
}

impl KeyBindingsState {
    /// The row currently selected, if any.
    pub open spec fn selection(&self) -> Option<usize> {
        table_selected_row(self.table_state)
    }

    /// A fresh state with no row selected.
    pub fn new() -> (s: Self)
        ensures
            s.selection() is None,
    {
        Self { table_state: table_state_new() }
    }

    /// Selects row `id`.
    pub fn select(&mut self, id: usize)
        ensures
            final(self).selection() == Some(id),
    {
        let _changed = table_state_select(&mut self.table_state, Some(id));
    }

    /// The selected row, if any.
    pub fn selected(&mut self) -> (r: Option<usize>)
        ensures
            r == old(self).selection(),
            *final(self) == *old(self),
    {
        table_state_selected(&self.table_state)
    }

    /// Selects the row under the given grid position, as the last render
    /// laid the rows out; a position over no row clears the selection.
    /// Which row that is depends on that rendering state, so nothing can
    /// be promised of the new selection's value.
    pub fn select_at_mouse(&mut self, x: u16, y: u16) {
        let item_index = table_state_row_at_clicked(&self.table_state, x, y);
        let _changed = table_state_select(&mut self.table_state, item_index);
    }
}

} // verus!
