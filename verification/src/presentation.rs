use crate::list::{StatusItem, StatusItemView, StatusList, StatusListView};
use crate::status::Status;
use vstd::prelude::*;
use vstd::string::StringExecFns;

verus! {

/// The background of a row: rows take the two shades in turn.
#[derive(Debug, Clone, Copy, PartialEq, Eq, Structural)]
pub enum RowShade {
    Normal,
    Alternate,
}

/// The shade of row `i`: even rows are normal, odd rows alternate.
pub fn alternate_colors(i: usize) -> (shade: RowShade)
    ensures
        shade == (if i % 2 == 0 {
            RowShade::Normal
        } else {
            RowShade::Alternate
        }),
{
    if i % 2 == 0 {
        RowShade::Normal
    } else {
        RowShade::Alternate
    }
}

impl StatusItemView {
    /// The text of the row in the list: a mark for the status, then the name.
    pub open spec fn row_label(self) -> Seq<char> {
        match self.status {
            Status::Inactive => " x "@ + self.service_name,
            Status::Active => " o "@ + self.service_name,
        }
    }

    /// The text of the row as a check-list entry.
    pub open spec fn checkbox_label(self) -> Seq<char> {
        match self.status {
            Status::Inactive => " ☐ "@ + self.service_name,
            Status::Active => " √ "@ + self.service_name,
        }
    }

    /// The text of the detail pane when this row is selected: the status in
    /// words, then the description on the lines below.
    pub open spec fn info(self) -> Seq<char> {
        match self.status {
            Status::Active => "o Active\n"@ + self.description,
            Status::Inactive => "x Inactive\n"@ + self.description,
        }
    }
}

impl StatusItem {
    /// The text of the row in the list.
    pub fn row_label(&self) -> (label: String)
        ensures
            label@ == self@.row_label(),
    {
        let mut label = match self.status {
            Status::Inactive => String::from_str(" x "),
            Status::Active => String::from_str(" o "),
        };
        label.append(self.service_name.as_str());
        label
    }

    /// The text of the row as a check-list entry.
    pub fn checkbox_label(&self) -> (label: String)
        ensures
            label@ == self@.checkbox_label(),
    {
        let mut label = match self.status {
            Status::Inactive => String::from_str(" ☐ "),
            Status::Active => String::from_str(" √ "),
        };
        label.append(self.service_name.as_str());
        label
    }

    /// The text of the detail pane when this row is selected.
    pub fn info(&self) -> (text: String)
        ensures
            text@ == self@.info(),
    {
        let mut text = match self.status {
            Status::Active => String::from_str("o Active\n"),
            Status::Inactive => String::from_str("x Inactive\n"),
        };
        text.append(self.description.as_str());
        text
    }
}

impl StatusListView {
    /// The text of the detail pane: that of the selected row, or a notice
    /// that nothing is selected.
    pub open spec fn selected_info(self) -> Seq<char> {
        match self.selected {
            Some(i) => self.items[i as int].info(),
            None => "Nothing selected..."@,
        }
    }
}

impl StatusList {
    /// The text of the detail pane.
    pub fn selected_info(&self) -> (text: String)
        ensures
            text@ == self@.selected_info(),
    {
        match self.selected_item() {
            Some(item) => item.info(),
            None => String::from_str("Nothing selected..."),
        }
    }
}

} // verus!
