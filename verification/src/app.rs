use crate::list::{StatusList, StatusListView};
use crate::status::StatusRecord;
use vstd::prelude::*;

verus! {

/// A key of the terminal, as far as the controller tells keys apart.
#[derive(Debug, Clone, Copy, PartialEq, Eq, Structural)]
pub enum Key {
    Char(char),
    Esc,
    Left,
    Down,
    Up,
    Home,
    /// Any key that no command is bound to.
    Other,
}

/// One key event: the key, and whether it was pressed (as opposed to
/// released or held).
#[derive(Debug, Clone, Copy, PartialEq, Eq, Structural)]
pub struct KeyInput {
    pub key: Key,
    pub pressed: bool,
}

/// What the operator can ask of the controller.
#[derive(Debug, Clone, Copy, PartialEq, Eq, Structural)]
pub enum Command {
    Exit,
    Refresh,
    ClearSelection,
    SelectNext,
    SelectPrevious,
    SelectFirst,
    /// The key is bound to nothing.
    Ignore,
}

/// What the caller has to do after a key was handled.
#[derive(Debug, Clone, Copy, PartialEq, Eq, Structural)]
pub enum Effect {
    Nothing,
    /// Run an aggregation pass and hand its records to [`App::refresh`].
    Aggregate,
}

impl Command {
    /// The command bound to a key. Letters count in either case.
    pub open spec fn bound_to(key: Key) -> Command {
        match key {
            Key::Esc => Command::Exit,
            Key::Left => Command::ClearSelection,
            Key::Down => Command::SelectNext,
            Key::Up => Command::SelectPrevious,
            Key::Home => Command::SelectFirst,
            Key::Other => Command::Ignore,
            Key::Char(c) => if c == 'q' || c == 'Q' {
                Command::Exit
            } else if c == 'r' || c == 'R' {
                Command::Refresh
            } else if c == 'h' || c == 'H' {
                Command::ClearSelection
            } else if c == 'j' || c == 'J' {
                Command::SelectNext
            } else if c == 'k' || c == 'K' {
                Command::SelectPrevious
            } else if c == 'g' || c == 'G' {
                Command::SelectFirst
            } else {
                Command::Ignore
            },
        }
    }

    /// The command bound to `key`.
    pub fn for_key(key: Key) -> (command: Command)
        ensures
            command == Command::bound_to(key),
    {
        match key {
            Key::Esc => Command::Exit,
            Key::Left => Command::ClearSelection,
            Key::Down => Command::SelectNext,
            Key::Up => Command::SelectPrevious,
            Key::Home => Command::SelectFirst,
            Key::Other => Command::Ignore,
            Key::Char(c) => {
                if c == 'q' || c == 'Q' {
                    Command::Exit
                } else if c == 'r' || c == 'R' {
                    Command::Refresh
                } else if c == 'h' || c == 'H' {
                    Command::ClearSelection
                } else if c == 'j' || c == 'J' {
                    Command::SelectNext
                } else if c == 'k' || c == 'K' {
                    Command::SelectPrevious
                } else if c == 'g' || c == 'G' {
                    Command::SelectFirst
                } else {
                    Command::Ignore
                }
            },
        }
    }
}

/// The mathematical content of an [`App`].
pub ghost struct AppView {
    pub should_exit: bool,
    pub list: StatusListView,
}

impl AppView {
    /// The selection is nothing or a row of the list.
    pub open spec fn wf(self) -> bool {
        self.list.wf()
    }

    /// The state after a command. `Refresh` changes nothing by itself: the
    /// list is replaced when the new records arrive.
    pub open spec fn applied(self, command: Command) -> AppView {
        match command {
            Command::Exit => AppView { should_exit: true, ..self },
            Command::Refresh => self,
            Command::ClearSelection => AppView { list: self.list.cleared(), ..self },
            Command::SelectNext => AppView { list: self.list.moved_down(), ..self },
            Command::SelectPrevious => AppView { list: self.list.moved_up(), ..self },
            Command::SelectFirst => AppView { list: self.list.moved_to_first(), ..self },
            Command::Ignore => self,
        }
    }

    /// The state after a key event: only a press counts, and it counts as
    /// the command bound to the key.
    pub open spec fn after_key(self, input: KeyInput) -> AppView {
        if input.pressed {
            self.applied(Command::bound_to(input.key))
        } else {
            self
        }
    }

    /// The state after a refresh brought `list`: the rows are replaced and
    /// nothing is selected.
    pub open spec fn refreshed(self, list: StatusListView) -> AppView {
        AppView { list, ..self }
    }
}

/// No command breaks the selection: after any command the selection is
/// nothing or a row of the list; after a move on a list with rows it is a
/// row; and after a refresh it is nothing.
pub proof fn lemma_commands_keep_selection(app: AppView, command: Command, list: StatusListView)
    requires
        app.wf(),
    ensures
        app.applied(command).wf(),
        app.applied(command).list.items == app.list.items,
        (command == Command::SelectNext || command == Command::SelectPrevious || command
            == Command::SelectFirst) && app.list.items.len() > 0 ==> {
            &&& app.applied(command).list.selected is Some
            &&& 0 <= app.applied(command).list.selected->0 < app.list.items.len()
        },
        app.list.items.len() == 0 ==> app.applied(command).list.selected is None,
        list.selected is None ==> app.refreshed(list).wf() && app.refreshed(list).list.selected
            is None,
{
}

/// The interactive list controller: the rows on screen, the selection, and
/// whether the operator has asked to leave.
#[derive(Debug)]
pub struct App {
    should_exit: bool,
    status_list: StatusList,
}

impl View for App {
    type V = AppView;

    closed spec fn view(&self) -> AppView {
        AppView { should_exit: self.should_exit, list: self.status_list@ }
    }
}

impl App {
    /// A running controller that shows the records of the first pass, with
    /// nothing selected.
    pub fn new(records: Vec<StatusRecord>) -> (app: App)
        ensures
            app@ == (AppView {
                should_exit: false,
                list: StatusListView::fresh(records.deep_view()),
            }),
            app@.wf(),
    {
        App { should_exit: false, status_list: StatusList::from_iter(records) }
    }

    /// Whether the operator has asked to leave.
    pub fn should_exit(&self) -> (leaving: bool)
        ensures
            leaving == self@.should_exit,
    {
        self.should_exit
    }

    /// The rows and the selection.
    pub fn status_list(&self) -> (list: &StatusList)
        ensures
            list@ == self@.list,
            self@.wf(),
    {
        proof {
            use_type_invariant(&self.status_list);
        }
        &self.status_list
    }

    /// Applies the command bound to a key event, one command per event.
    ///
    /// Everything but a refresh is done here. For a refresh the state is left
    /// alone and `Effect::Aggregate` comes back: the caller runs an
    /// aggregation pass and hands the records to [`App::refresh`].
    pub fn handle_key(&mut self, input: KeyInput) -> (effect: Effect)
        ensures
            final(self)@ == old(self)@.after_key(input),
            final(self)@.wf(),
            effect == (if input.pressed && Command::bound_to(input.key) == Command::Refresh {
                Effect::Aggregate
            } else {
                Effect::Nothing
            }),
    {
        proof {
            use_type_invariant(&self.status_list);
        }
        if !input.pressed {
            return Effect::Nothing;
        }
        match Command::for_key(input.key) {
            Command::Exit => {
                self.should_exit = true;
                Effect::Nothing
            },
            Command::Refresh => Effect::Aggregate,
            Command::ClearSelection => {
                self.select_none();
                Effect::Nothing
            },
            Command::SelectNext => {
                self.select_next();
                Effect::Nothing
            },
            Command::SelectPrevious => {
                self.select_previous();
                Effect::Nothing
            },
            Command::SelectFirst => {
                self.select_first();
                Effect::Nothing
            },
            Command::Ignore => Effect::Nothing,
        }
    }

    /// Replaces the rows by those of a new aggregation pass and drops the
    /// selection.
    pub fn refresh(&mut self, records: Vec<StatusRecord>)
        ensures
            final(self)@ == old(self)@.refreshed(StatusListView::fresh(records.deep_view())),
            final(self)@.list.selected is None,
            final(self)@.wf(),
    {
        self.status_list = StatusList::from_iter(records);
    }

    /// Records the first row in view, as the widget reports it after a frame.
    pub fn set_offset(&mut self, offset: usize)
        ensures
            final(self)@ == (AppView {
                list: StatusListView { offset, ..old(self)@.list },
                ..old(self)@
            }),
    {
        self.status_list.set_offset(offset);
    }

    pub fn select_none(&mut self)
        ensures
            final(self)@ == old(self)@.applied(Command::ClearSelection),
            final(self)@.list.selected is None,
            final(self)@.wf(),
    {
        self.status_list.select_none();
    }

    pub fn select_next(&mut self)
        ensures
            final(self)@ == old(self)@.applied(Command::SelectNext),
            final(self)@.wf(),
            old(self)@.list.items.len() > 0 ==> final(self)@.list.selected is Some,
    {
        self.status_list.select_next();
    }

    pub fn select_previous(&mut self)
        ensures
            final(self)@ == old(self)@.applied(Command::SelectPrevious),
            final(self)@.wf(),
            old(self)@.list.items.len() > 0 ==> final(self)@.list.selected is Some,
    {
        self.status_list.select_previous();
    }

    pub fn select_first(&mut self)
        ensures
            final(self)@ == old(self)@.applied(Command::SelectFirst),
            final(self)@.wf(),
            old(self)@.list.items.len() > 0 ==> final(self)@.list.selected == Some(0usize),
    {
        self.status_list.select_first();
    }
}

} // verus!
