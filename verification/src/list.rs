use crate::status::{Status, StatusRecord, StatusRecordView};
use ratatui::widgets::ListState;
use vstd::prelude::*;
use vstd::string::StringExecFns;

verus! {

/// One row of the service list: the name shown, the text of the detail pane,
/// and the status that decides the row's mark and colour.
#[derive(Debug, PartialEq, Eq)]
pub struct StatusItem {
    pub service_name: String,
    pub description: String,
    pub status: Status,
}

/// The mathematical content of a [`StatusItem`].
pub ghost struct StatusItemView {
    pub service_name: Seq<char>,
    pub description: Seq<char>,
    pub status: Status,
}

impl View for StatusItem {
    type V = StatusItemView;

    open spec fn view(&self) -> StatusItemView {
        StatusItemView {
            service_name: self.service_name@,
            description: self.description@,
            status: self.status,
        }
    }
}

impl DeepView for StatusItem {
    type V = StatusItemView;

    open spec fn deep_view(&self) -> StatusItemView {
        self@
    }
}

impl StatusItemView {
    /// The row that stands for a record: it shows the display name, and its
    /// detail text is the summary of the record's fields.
    pub open spec fn of_record(record: StatusRecordView) -> StatusItemView {
        StatusItemView {
            service_name: record.detail.service_display_name,
            description: record.detail.summary(),
            status: record.status,
        }
    }
}

impl StatusItem {
    pub fn new(status: Status, service_name: &str, description: &str) -> (item: StatusItem)
        ensures
            item@ == (StatusItemView {
                service_name: service_name@,
                description: description@,
                status,
            }),
    {
        StatusItem {
            status,
            service_name: String::from_str(service_name),
            description: String::from_str(description),
        }
    }

    /// The row that stands for `record`.
    pub fn from_record(record: &StatusRecord) -> (item: StatusItem)
        ensures
            item@ == StatusItemView::of_record(record@),
    {
        let description = record.detail.summary();
        StatusItem::new(
            record.status,
            record.detail.service_display_name.as_str(),
            description.as_str(),
        )
    }
}

/// What a list widget remembers between two frames: the first row shown and
/// the row selected, if any.
#[derive(Debug, Clone, Copy, PartialEq, Eq, Structural)]
pub struct Cursor {
    pub offset: usize,
    pub selected: Option<usize>,
}

/// `ListState::select`: the selection becomes `index`; clearing the
/// selection also scrolls back to the top, any other index leaves the
/// scroll position alone.
#[verifier::external_body]
fn list_state_select(cursor: Cursor, index: Option<usize>) -> (moved: Cursor)
    ensures
        moved.selected == index,
        moved.offset == (if index is None { 0 } else { cursor.offset }),
{
    let mut state = ListState::default().with_offset(cursor.offset).with_selected(cursor.selected);
    state.select(index);
    Cursor { offset: state.offset(), selected: state.selected() }
}

/// `ListState::select_next`: with nothing selected the first row is chosen,
/// else the index goes up by one and stops at the largest `usize`. Nothing
/// is known of the list's length here, so the index may leave the list. The
/// scroll position stays.
#[verifier::external_body]
fn list_state_select_next(cursor: Cursor) -> (moved: Cursor)
    ensures
        moved.offset == cursor.offset,
        moved.selected == Some(
            match cursor.selected {
                None => 0usize,
                Some(i) => if i < usize::MAX { (i + 1) as usize } else { i },
            },
        ),
{
    let mut state = ListState::default().with_offset(cursor.offset).with_selected(cursor.selected);
    state.select_next();
    Cursor { offset: state.offset(), selected: state.selected() }
}

/// `ListState::select_previous`: with nothing selected the largest `usize`
/// is chosen, else the index goes down by one and stops at zero. The scroll
/// position stays.
#[verifier::external_body]
fn list_state_select_previous(cursor: Cursor) -> (moved: Cursor)
    ensures
        moved.offset == cursor.offset,
        moved.selected == Some(
            match cursor.selected {
                None => usize::MAX,
                Some(i) => if i > 0 { (i - 1) as usize } else { i },
            },
        ),
{
    let mut state = ListState::default().with_offset(cursor.offset).with_selected(cursor.selected);
    state.select_previous();
    Cursor { offset: state.offset(), selected: state.selected() }
}

/// `ListState::select_first`: row zero is chosen; the scroll position stays.
#[verifier::external_body]
fn list_state_select_first(cursor: Cursor) -> (moved: Cursor)
    ensures
        moved.offset == cursor.offset,
        moved.selected == Some(0usize),
{
    let mut state = ListState::default().with_offset(cursor.offset).with_selected(cursor.selected);
    state.select_first();
    Cursor { offset: state.offset(), selected: state.selected() }
}

/// The mathematical content of a [`StatusList`].
pub ghost struct StatusListView {
    pub items: Seq<StatusItemView>,
    pub offset: usize,
    pub selected: Option<usize>,
}

impl StatusListView {
    /// The selection is nothing or a row of the list.
    pub open spec fn wf(self) -> bool {
        match self.selected {
            None => true,
            Some(i) => i < self.items.len(),
        }
    }

    /// The rows that stand for `records`, in the same order.
    pub open spec fn rows(records: Seq<StatusRecordView>) -> Seq<StatusItemView> {
        records.map_values(|record: StatusRecordView| StatusItemView::of_record(record))
    }

    /// The list as it is made from a fresh set of records: nothing is
    /// selected and the view is at the top.
    pub open spec fn fresh(records: Seq<StatusRecordView>) -> StatusListView {
        StatusListView { items: StatusListView::rows(records), offset: 0, selected: None }
    }

    /// Nothing selected, view at the top.
    pub open spec fn cleared(self) -> StatusListView {
        StatusListView { offset: 0, selected: None, ..self }
    }

    /// One row down, stopping at the last row; from no selection, the first
    /// row. An empty list stays as it is.
    pub open spec fn moved_down(self) -> StatusListView {
        if self.items.len() == 0 {
            self
        } else {
            StatusListView {
                selected: Some(
                    match self.selected {
                        None => 0usize,
                        Some(i) => if i + 1 < self.items.len() {
                            (i + 1) as usize
                        } else {
                            (self.items.len() - 1) as usize
                        },
                    },
                ),
                ..self
            }
        }
    }

    /// One row up, stopping at the first row; from no selection, the last
    /// row. An empty list stays as it is.
    pub open spec fn moved_up(self) -> StatusListView {
        if self.items.len() == 0 {
            self
        } else {
            StatusListView {
                selected: Some(
                    match self.selected {
                        None => (self.items.len() - 1) as usize,
                        Some(i) => if i == 0 {
                            0usize
                        } else if i - 1 < self.items.len() {
                            (i - 1) as usize
                        } else {
                            (self.items.len() - 1) as usize
                        },
                    },
                ),
                ..self
            }
        }
    }

    /// The first row selected. An empty list stays as it is.
    pub open spec fn moved_to_first(self) -> StatusListView {
        if self.items.len() == 0 {
            self
        } else {
            StatusListView { selected: Some(0usize), ..self }
        }
    }
}

/// The selection is always nothing or a row of the list: a fresh list has
/// none; every move on a list with rows ends on one of its rows; and on a
/// list without rows every move leaves the selection as it was, which is
/// none.
pub proof fn lemma_selection_stays_in_list(list: StatusListView, records: Seq<StatusRecordView>)
    requires
        list.wf(),
    ensures
        StatusListView::fresh(records).wf(),
        StatusListView::fresh(records).selected is None,
        StatusListView::fresh(records).items.len() == records.len(),
        list.cleared().wf() && list.cleared().selected is None,
        list.moved_down().wf() && list.moved_up().wf() && list.moved_to_first().wf(),
        list.items.len() > 0 ==> {
            &&& list.moved_down().selected is Some
            &&& 0 <= list.moved_down().selected->0 < list.items.len()
            &&& list.moved_up().selected is Some
            &&& 0 <= list.moved_up().selected->0 < list.items.len()
            &&& list.moved_to_first().selected == Some(0usize)
        },
        list.items.len() == 0 ==> {
            &&& list.selected is None
            &&& list.moved_down() == list
            &&& list.moved_up() == list
            &&& list.moved_to_first() == list
        },
{
}

/// The rows on screen together with the selection.
///
/// The selection is always nothing or the index of a row that is there: a
/// move past either end stops at that end, and a list with no rows has no
/// selection.
#[derive(Debug)]
pub struct StatusList {
    items: Vec<StatusItem>,
    state: Cursor,
}

impl View for StatusList {
    type V = StatusListView;

    closed spec fn view(&self) -> StatusListView {
        StatusListView {
            items: self.items.deep_view(),
            offset: self.state.offset,
            selected: self.state.selected,
        }
    }
}

impl StatusList {
    /// Holds of every list: the selection is nothing or one of its rows.
    #[verifier::type_invariant]
    pub open spec fn selection_in_list(self) -> bool {
        self@.wf()
    }

    /// Makes the list for a set of records, one row each, in their order,
    /// with nothing selected.
    pub fn from_iter(records: Vec<StatusRecord>) -> (list: StatusList)
        ensures
            list@ == StatusListView::fresh(records.deep_view()),
            list@.wf(),
            list@.selected is None,
            list@.items.len() == records.len(),
    {
        let mut items: Vec<StatusItem> = Vec::new();
        let mut i: usize = 0;
        while i < records.len()
            invariant
                i <= records.len(),
                items.len() == i,
                forall|j: int|
                    0 <= j < i ==> (#[trigger] items[j])@ == StatusItemView::of_record(
                        records[j]@,
                    ),
            decreases records.len() - i,
        {
            items.push(StatusItem::from_record(&records[i]));
            i += 1;
        }
        let list = StatusList { items, state: Cursor { offset: 0, selected: None } };
        assert(list.items.deep_view() =~= StatusListView::rows(records.deep_view()));
        list
    }

    /// Brings a cursor that a move has left outside the list back to the
    /// last row.
    fn settle(&mut self, moved: Cursor)
        requires
            old(self).items.len() > 0,
        ensures
            final(self).items == old(self).items,
            final(self).state.offset == moved.offset,
            final(self).state.selected == (match moved.selected {
                Some(i) if i >= old(self).items.len() => Some((old(self).items.len() - 1) as usize),
                other => other,
            }),
    {
        let beyond = match moved.selected {
            Some(i) => i >= self.items.len(),
            None => false,
        };
        self.state = if beyond {
            list_state_select(moved, Some(self.items.len() - 1))
        } else {
            moved
        };
    }

    /// Drops the selection.
    pub fn select_none(&mut self)
        ensures
            final(self)@ == old(self)@.cleared(),
            final(self)@.wf(),
            final(self)@.selected is None,
    {
        self.state = list_state_select(self.state, None);
    }

    /// Moves the selection one row down.
    pub fn select_next(&mut self)
        ensures
            final(self)@ == old(self)@.moved_down(),
            final(self)@.wf(),
            old(self)@.items.len() > 0 ==> final(self)@.selected is Some,
            old(self)@.items.len() == 0 ==> final(self)@.selected is None,
    {
        proof {
            use_type_invariant(&*self);
        }
        if self.items.len() > 0 {
            let moved = list_state_select_next(self.state);
            self.settle(moved);
        }
    }

    /// Moves the selection one row up.
    pub fn select_previous(&mut self)
        ensures
            final(self)@ == old(self)@.moved_up(),
            final(self)@.wf(),
            old(self)@.items.len() > 0 ==> final(self)@.selected is Some,
            old(self)@.items.len() == 0 ==> final(self)@.selected is None,
    {
        proof {
            use_type_invariant(&*self);
        }
        if self.items.len() > 0 {
            let moved = list_state_select_previous(self.state);
            self.settle(moved);
        }
    }

    /// Selects the first row.
    pub fn select_first(&mut self)
        ensures
            final(self)@ == old(self)@.moved_to_first(),
            final(self)@.wf(),
            old(self)@.items.len() > 0 ==> final(self)@.selected is Some,
            old(self)@.items.len() == 0 ==> final(self)@.selected is None,
    {
        proof {
            use_type_invariant(&*self);
        }
        if self.items.len() > 0 {
            let moved = list_state_select_first(self.state);
            self.settle(moved);
        }
    }

    /// The index of the selected row, if a row is selected.
    pub fn selected(&self) -> (selected: Option<usize>)
        ensures
            selected == self@.selected,
            self@.wf(),
    {
        proof {
            use_type_invariant(self);
        }
        self.state.selected
    }

    /// The index of the first row in view.
    pub fn offset(&self) -> (offset: usize)
        ensures
            offset == self@.offset,
    {
        self.state.offset
    }

    /// Records the first row in view, as the widget reports it after a frame.
    pub fn set_offset(&mut self, offset: usize)
        ensures
            final(self)@ == (StatusListView { offset, ..old(self)@ }),
            final(self)@.wf(),
    {
        proof {
            use_type_invariant(&*self);
        }
        self.state = Cursor { offset, selected: self.state.selected };
    }

    /// The rows, in order.
    pub fn items(&self) -> (items: &Vec<StatusItem>)
        ensures
            items.deep_view() == self@.items,
    {
        &self.items
    }

    /// How many rows there are.
    pub fn len(&self) -> (count: usize)
        ensures
            count == self@.items.len(),
    {
        self.items.len()
    }

    /// The selected row, if a row is selected.
    pub fn selected_item(&self) -> (item: Option<&StatusItem>)
        ensures
            self@.wf(),
            match self@.selected {
                None => item is None,
                Some(i) => item is Some && item->0@ == self@.items[i as int],
            },
    {
        proof {
            use_type_invariant(self);
        }
        match self.state.selected {
            Some(i) => Some(&self.items[i]),
            None => None,
        }
    }
}

} // verus!
