//! The controller: the mode state machine that owns every sub-component,
//! drains the flash-message bus one message per tick, and applies the
//! intents the active component produced.

use vstd::prelude::*;

use crate::channel::{clone_sender, try_recv_msg, unbounded_channel, SendFailed};
use crate::datetime::DateTime;
use crate::due_date::DueDateComponent;
use crate::hints::BarType;
use crate::input::TodoInputComponent;
use crate::notify::{FlashMsg, MsgType, Notification};
use crate::skim::{spec_names, spec_rank, SkimMatch, SkimmerAction, SkimmerComponent};
use crate::todo::{ListAction, TodoListComponent};

verus! {

/// The top-level interaction mode. Exactly one is active; it decides
/// which sub-component owns key input.
#[derive(Clone, Copy, PartialEq, Eq, Structural, Debug)]
pub enum AppState {
    Normal,
    AddTodo,
    EditTodo,
    DueDate,
    Find,
    Move,
}

/// An intent handed from a sub-component to the controller; the
/// controller applies at most one per tick.
pub enum AppMessage {
    InputState(AppState),
    Skimmer(SkimmerAction),
    UpdateList(ListAction),
    SetDueDate(DateTime),
    ReInitTerminal,
    NoAction,
    Quit,
}

/// What the run loop should do after a tick.
#[derive(Clone, Copy, PartialEq, Eq, Structural, Debug)]
pub enum LoopSignal {
    Continue,
    ReInit,
    Quit,
}

/// The logical actions the key bindings map to. The shell turns each raw
/// key event into one of these; the core never sees raw keys.
#[derive(Clone, Copy, PartialEq, Eq, Structural, Debug)]
pub enum KeyAction {
    MoveUp,
    MoveDown,
    MoveLeft,
    MoveRight,
    AltMoveUp,
    AltMoveDown,
    AltMoveLeft,
    AltMoveRight,
    ToggleCompleted,
    AddTodo,
    ExternalEditor,
    EditTodo,
    OpenCalendar,
    RemoveTodo,
    MarkRecurring,
    DescScrollUp,
    DescScrollDown,
    Submit,
    FindMode,
    MoveMode,
    Back,
    Quit,
    Other,
}

/// The whole application core.
pub struct App {
    pub todo_list: TodoListComponent,
    pub todo_input: TodoInputComponent,
    pub skimmer: SkimmerComponent,
    pub notification: Notification,
    pub due_date: DueDateComponent,
    pub state: AppState,
    pub flash_rx: kanal::Receiver<FlashMsg>,
}

impl App {
    /// Every owned component is well formed.
    pub open spec fn wf(&self) -> bool {
        &&& self.todo_list.wf()
        &&& self.skimmer.wf()
        &&& self.due_date.wf()
    }

    /// Builds the core over an already loaded collection, in Normal mode,
    /// with the flash bus wired to the components that report through it.
    pub fn new(todos: Vec<crate::todo::Todo>) -> (r: App)
        ensures
            r.wf(),
            r.state == AppState::Normal,
            r.todo_list.todos == todos,
            r.notification.msg is None,
    {
        let (sender, receiver) = unbounded_channel::<FlashMsg>();
        let list_sender = clone_sender(&sender);
        App {
            todo_list: TodoListComponent::load(todos, list_sender),
            todo_input: TodoInputComponent::new(),
            skimmer: SkimmerComponent::new(),
            notification: Notification::new(),
            due_date: DueDateComponent::new(sender),
            state: AppState::Normal,
            flash_rx: receiver,
        }
    }

    /// Drains at most one flash message from the bus into the live
    /// notification slot.
    pub fn poll_flash_messages(&mut self)
        requires
            old(self).wf(),
        ensures
            final(self).wf(),
            final(self).todo_list == old(self).todo_list,
            final(self).todo_input == old(self).todo_input,
            final(self).skimmer == old(self).skimmer,
            final(self).due_date == old(self).due_date,
            final(self).state == old(self).state,
            final(self).notification == old(self).notification || (exists|m: FlashMsg|
                final(self).notification == old(self).notification.spec_set(m)),
    {
        if let Some(msg) = try_recv_msg(&self.flash_rx) {
            self.notification.set(msg);
        }
    }

    /// Delivery of a scheduled notification-expiry signal: clears the
    /// slot only when the token is the one armed last.
    pub fn deliver_expiry(&mut self, token: u64)
        requires
            old(self).wf(),
        ensures
            final(self).wf(),
            final(self).notification == old(self).notification.spec_expire(token),
            final(self).todo_list == old(self).todo_list,
            final(self).todo_input == old(self).todo_input,
            final(self).skimmer == old(self).skimmer,
            final(self).due_date == old(self).due_date,
            final(self).state == old(self).state,
    {
        self.notification.expire(token);
    }

    /// How a mode transition relates the core before to the core after.
    /// Entering Find seeds the result list from the collection; entering
    /// EditTodo with nothing selected degrades to a "No todo selected"
    /// notification with the mode unchanged; entering DueDate
    /// pre-populates the pickers from the editor's pending due field;
    /// returning to AddTodo from the due-date picker goes back to the
    /// originating editor surface. No transition touches the task
    /// collection or its cursor.
    pub open spec fn spec_update_state_rel(pre: App, post: App, state: AppState) -> bool {
        &&& post.todo_list.todos == pre.todo_list.todos
        &&& post.todo_list.list_state == pre.todo_list.list_state
        &&& post.todo_list.move_mode == pre.todo_list.move_mode
        &&& match state {
            AppState::Find => {
                &&& post.state == AppState::Find
                &&& post.todo_list.hintbar == BarType::Find
                &&& SkimmerComponent::spec_skim_rel(
                    pre.skimmer,
                    post.skimmer,
                    pre.todo_list.todos@,
                )
                &&& post.notification == pre.notification
                &&& post.todo_input == pre.todo_input
                &&& post.due_date == pre.due_date
            },
            AppState::EditTodo => {
                &&& post.todo_list.hintbar == BarType::Edit
                &&& match pre.todo_list.list_state.selection() {
                    Some(s) => {
                        &&& post.state == AppState::EditTodo
                        &&& post.todo_input.name@ == pre.todo_list.todos@[s as int].name@
                        &&& post.todo_input.description@ == pre.todo_list.todos@[
                            s as int
                        ].description@
                        &&& post.todo_input.metadata == pre.todo_list.todos@[s as int].metadata
                        &&& post.todo_input.is_editing_existing
                        &&& post.todo_input.todo_index == s
                        &&& post.notification == pre.notification
                    },
                    None => {
                        &&& post.state == pre.state
                        &&& post.todo_input == pre.todo_input
                        &&& post.notification.msg matches Some(m) && m.message@
                            == "No todo selected"@ && m.level == MsgType::Error
                    },
                }
                &&& post.skimmer == pre.skimmer
                &&& post.due_date == pre.due_date
            },
            AppState::AddTodo => {
                &&& post.state == if pre.state == AppState::DueDate
                    && pre.todo_input.is_editing_existing {
                    AppState::EditTodo
                } else {
                    AppState::AddTodo
                }
                &&& post.todo_list.hintbar == BarType::Edit
                &&& post.todo_input == pre.todo_input
                &&& post.skimmer == pre.skimmer
                &&& post.notification == pre.notification
                &&& post.due_date == pre.due_date
            },
            AppState::Normal => {
                &&& post.state == AppState::Normal
                &&& post.todo_list.hintbar == BarType::Normal
                &&& post.todo_input == pre.todo_input
                &&& post.skimmer == pre.skimmer
                &&& post.notification == pre.notification
                &&& post.due_date == pre.due_date
            },
            AppState::Move => {
                &&& post.state == AppState::Move
                &&& post.todo_list.hintbar == BarType::Move
                &&& post.todo_input == pre.todo_input
                &&& post.skimmer == pre.skimmer
                &&& post.notification == pre.notification
                &&& post.due_date == pre.due_date
            },
            AppState::DueDate => {
                &&& post.state == AppState::DueDate
                &&& post.todo_list.hintbar == BarType::DueDate
                &&& post.todo_input == pre.todo_input
                &&& post.skimmer == pre.skimmer
                &&& post.notification == pre.notification
                &&& match pre.todo_input.metadata.due_date {
                    Some(dt) => DueDateComponent::spec_set_date_time_rel(
                        pre.due_date,
                        post.due_date,
                        dt,
                    ),
                    None => post.due_date == pre.due_date,
                }
            },
        }
    }

    /// The mode transition; see `spec_update_state_rel` for what each
    /// target mode does.
    pub fn update_state(&mut self, state: AppState) -> (r: Result<(), SendFailed>)
        requires
            old(self).wf(),
        ensures
            final(self).wf(),
            Self::spec_update_state_rel(*old(self), *final(self), state),
    {
        match state {
            AppState::Find => {
                self.todo_list.load_hintbar(BarType::Find);
                self.skimmer.skim(&self.todo_list.todos);
                self.state = AppState::Find;
            },
            AppState::EditTodo => {
                self.todo_list.load_hintbar(BarType::Edit);
                if let Some(s) = self.todo_list.list_state.selected() {
                    self.todo_input.populate_with(&self.todo_list.todos[s], s);
                    self.state = AppState::EditTodo;
                } else {
                    self.notification.set(FlashMsg::err("No todo selected"));
                }
            },
            AppState::AddTodo => {
                self.todo_list.load_hintbar(BarType::Edit);
                self.state = if self.state == AppState::DueDate
                    && self.todo_input.is_editing_existing {
                    AppState::EditTodo
                } else {
                    AppState::AddTodo
                };
            },
            AppState::Normal => {
                self.todo_list.load_hintbar(BarType::Normal);
                self.state = AppState::Normal;
            },
            AppState::Move => {
                self.todo_list.load_hintbar(BarType::Move);
                self.state = AppState::Move;
            },
            AppState::DueDate => {
                self.todo_list.load_hintbar(BarType::DueDate);
                if let Some(dt) = self.todo_input.get_due_date() {
                    let sent = self.due_date.set_date_time(dt);
                    if sent.is_err() {
                        self.state = AppState::DueDate;
                        return Err(SendFailed);
                    }
                }
                self.state = AppState::DueDate;
            },
        }
        Ok(())
    }

    /// How applying what the finder asked for relates the core before to
    /// the core after: jumping the task cursor onto the reported original
    /// index and returning to Normal, or re-ranking after a keystroke. An
    /// index that no longer exists degrades to an error notification.
    pub open spec fn spec_skimmer_action_rel(
        pre: App,
        post: App,
        skimmer_action: SkimmerAction,
    ) -> bool {
        &&& post.todo_list.todos == pre.todo_list.todos
        &&& post.todo_input == pre.todo_input
        &&& post.due_date == pre.due_date
        &&& match skimmer_action {
            SkimmerAction::ReportSelection(s) => {
                &&& post.skimmer == pre.skimmer
                &&& if s < pre.todo_list.todos@.len() {
                    &&& post.todo_list.list_state.selection() == Some(s)
                    &&& post.state == AppState::Normal
                    &&& post.todo_list.hintbar == BarType::Normal
                    &&& post.notification.msg matches Some(m) && m.message@
                        == "Entered normal mode"@ && m.level == MsgType::Info
                } else {
                    &&& post.todo_list.list_state == pre.todo_list.list_state
                    &&& post.state == pre.state
                    &&& post.notification.msg matches Some(m) && m.message@
                        == "Invalid selection"@ && m.level == MsgType::Error
                }
            },
            SkimmerAction::Skim => {
                &&& post.state == pre.state
                &&& post.todo_list == pre.todo_list
                &&& post.notification == pre.notification
                &&& SkimmerComponent::spec_skim_rel(
                    pre.skimmer,
                    post.skimmer,
                    pre.todo_list.todos@,
                )
            },
        }
    }

    /// Applies what the finder asked for; see `spec_skimmer_action_rel`.
    pub fn perform_skimmer_action(&mut self, skimmer_action: SkimmerAction)
        requires
            old(self).wf(),
        ensures
            final(self).wf(),
            Self::spec_skimmer_action_rel(*old(self), *final(self), skimmer_action),
    {
        match skimmer_action {
            SkimmerAction::ReportSelection(s) => {
                if s < self.todo_list.todos.len() {
                    self.todo_list.select(s);
                    self.todo_list.load_hintbar(BarType::Normal);
                    self.state = AppState::Normal;
                    self.notification.set(FlashMsg::info("Entered normal mode"));
                } else {
                    self.notification.set(FlashMsg::err("Invalid selection"));
                }
            },
            SkimmerAction::Skim => {
                self.skimmer.skim(&self.todo_list.todos);
            },
        }
    }

    /// How applying a submitted editor result relates the core before to
    /// the core after: the new todo is appended or the edited one
    /// replaced, the outcome is flashed, the editor is cleared and the
    /// mode returns to Normal. A stale index degrades to an error
    /// notification without touching the collection.
    pub open spec fn spec_list_action_rel(pre: App, post: App, list_action: ListAction) -> bool {
        &&& post.state == AppState::Normal
        &&& post.todo_list.hintbar == BarType::Normal
        &&& post.todo_input.name@ == Seq::<char>::empty()
        &&& post.todo_input.description@ == Seq::<char>::empty()
        &&& !post.todo_input.is_editing_existing
        &&& post.due_date == pre.due_date
        &&& post.skimmer == pre.skimmer
        &&& match list_action {
            ListAction::Add(t) => {
                &&& post.todo_list.todos@ == pre.todo_list.todos@.push(t)
                &&& post.todo_list.list_state.selection() == Some(
                    pre.todo_list.todos@.len() as usize,
                )
                &&& post.notification.msg matches Some(m) && m.message@ == "Added todo"@
                    && m.level == MsgType::Info
            },
            ListAction::Replace(t, i) => {
                &&& i < pre.todo_list.todos@.len() ==> post.todo_list.todos@
                    == pre.todo_list.todos@.update(i as int, t) && (post.notification.msg matches
                    Some(m) && m.message@ == "Edited todo"@ && m.level == MsgType::Info)
                &&& i >= pre.todo_list.todos@.len() ==> post.todo_list.todos
                    == pre.todo_list.todos && (post.notification.msg matches Some(m) && m.message@
                    == "Invalid selection"@ && m.level == MsgType::Error)
            },
        }
    }

    /// Applies a submitted editor result; see `spec_list_action_rel`.
    pub fn todo_list_action(&mut self, list_action: ListAction)
        requires
            old(self).wf(),
            old(self).todo_list.todos@.len() < usize::MAX,
        ensures
            final(self).wf(),
            Self::spec_list_action_rel(*old(self), *final(self), list_action),
    {
        match list_action {
            ListAction::Add(t) => {
                self.todo_list.add_todo(t);
                self.notification.set(FlashMsg::info("Added todo"));
            },
            ListAction::Replace(t, i) => {
                if i < self.todo_list.todos.len() {
                    self.todo_list.replace(t, i);
                    self.notification.set(FlashMsg::info("Edited todo"));
                } else {
                    self.notification.set(FlashMsg::err("Invalid selection"));
                }
            },
        }
        self.todo_list.load_hintbar(BarType::Normal);
        self.todo_input.clear();
        self.state = AppState::Normal;
    }

    /// How writing the picked due moment relates the core before to the
    /// core after: the editor's pending due field takes it and the mode
    /// returns to the editor surface the picker was opened from.
    pub open spec fn spec_set_due_rel(pre: App, post: App, d: DateTime) -> bool {
        &&& post.state == if pre.todo_input.is_editing_existing {
            AppState::EditTodo
        } else {
            AppState::AddTodo
        }
        &&& post.todo_input.metadata.due_date == Some(d)
        &&& post.todo_input.name == pre.todo_input.name
        &&& post.todo_input.description == pre.todo_input.description
        &&& post.todo_input.is_editing_existing == pre.todo_input.is_editing_existing
        &&& post.todo_input.todo_index == pre.todo_input.todo_index
        &&& post.todo_list == pre.todo_list
        &&& post.skimmer == pre.skimmer
        &&& post.notification == pre.notification
        &&& post.due_date == pre.due_date
    }

    /// Writes the picked due moment into the editor and returns to the
    /// originating editor surface.
    pub fn set_due_date(&mut self, d: DateTime)
        requires
            old(self).wf(),
        ensures
            final(self).wf(),
            Self::spec_set_due_rel(*old(self), *final(self), d),
    {
        self.todo_input.set_due_date(d);
        self.state = if self.todo_input.is_editing_existing {
            AppState::EditTodo
        } else {
            AppState::AddTodo
        };
    }

    /// Routes a logical key action to the component the active mode gives
    /// the input to, and hands back the intent it produced. The routed
    /// component moves exactly as its own key relation says; everything
    /// else, the mode included, stays put until the intent is applied.
    pub fn handle_key(&mut self, action: KeyAction) -> (r: Result<AppMessage, SendFailed>)
        requires
            old(self).wf(),
        ensures
            final(self).wf(),
            final(self).state == old(self).state,
            final(self).notification == old(self).notification,
            match old(self).state {
                AppState::Normal | AppState::Move => {
                    &&& TodoListComponent::spec_handle_rel(
                        old(self).todo_list,
                        final(self).todo_list,
                        action,
                        r,
                    )
                    &&& final(self).todo_input == old(self).todo_input
                    &&& final(self).skimmer == old(self).skimmer
                    &&& final(self).due_date == old(self).due_date
                },
                AppState::AddTodo | AppState::EditTodo => {
                    &&& r matches Ok(m) && TodoInputComponent::spec_handle_rel(
                        old(self).todo_input,
                        final(self).todo_input,
                        action,
                        m,
                    )
                    &&& final(self).todo_list == old(self).todo_list
                    &&& final(self).skimmer == old(self).skimmer
                    &&& final(self).due_date == old(self).due_date
                },
                AppState::Find => {
                    &&& r matches Ok(m) && SkimmerComponent::spec_handle_rel(
                        old(self).skimmer,
                        final(self).skimmer,
                        action,
                        m,
                    )
                    &&& final(self).todo_list == old(self).todo_list
                    &&& final(self).todo_input == old(self).todo_input
                    &&& final(self).due_date == old(self).due_date
                },
                AppState::DueDate => {
                    &&& DueDateComponent::spec_handle_rel(
                        old(self).due_date,
                        final(self).due_date,
                        action,
                        r,
                    )
                    &&& final(self).todo_list == old(self).todo_list
                    &&& final(self).todo_input == old(self).todo_input
                    &&& final(self).skimmer == old(self).skimmer
                },
            },
    {
        match self.state {
            AppState::Normal | AppState::Move => self.todo_list.handle_input(action),
            AppState::AddTodo | AppState::EditTodo => Ok(self.todo_input.handle_input(action)),
            AppState::Find => Ok(self.skimmer.handle_input(action)),
            AppState::DueDate => self.due_date.handle_input(action),
        }
    }

    /// Applies one intent and says how the loop goes on. Every intent
    /// that carries state is applied through its transition relation;
    /// none is dropped.
    pub fn apply_message(&mut self, msg: AppMessage) -> (r: Result<LoopSignal, SendFailed>)
        requires
            old(self).wf(),
            old(self).todo_list.todos@.len() < usize::MAX,
        ensures
            final(self).wf(),
            r is Ok ==> r == Ok::<LoopSignal, SendFailed>(
                match msg {
                    AppMessage::ReInitTerminal => LoopSignal::ReInit,
                    AppMessage::Quit => LoopSignal::Quit,
                    _ => LoopSignal::Continue,
                },
            ),
            match msg {
                AppMessage::NoAction => *final(self) == *old(self) && r is Ok,
                AppMessage::InputState(s) => Self::spec_update_state_rel(
                    *old(self),
                    *final(self),
                    s,
                ),
                AppMessage::Skimmer(a) => Self::spec_skimmer_action_rel(
                    *old(self),
                    *final(self),
                    a,
                ) && r is Ok,
                AppMessage::UpdateList(la) => Self::spec_list_action_rel(
                    *old(self),
                    *final(self),
                    la,
                ) && r is Ok,
                AppMessage::SetDueDate(d) => Self::spec_set_due_rel(*old(self), *final(self), d)
                    && r is Ok,
                AppMessage::ReInitTerminal => *final(self) == *old(self) && r is Ok,
                AppMessage::Quit => *final(self) == *old(self) && r is Ok,
            },
    {
        match msg {
            AppMessage::NoAction => Ok(LoopSignal::Continue),
            AppMessage::InputState(state) => {
                self.update_state(state)?;
                Ok(LoopSignal::Continue)
            },
            AppMessage::Skimmer(skim_action) => {
                self.perform_skimmer_action(skim_action);
                Ok(LoopSignal::Continue)
            },
            AppMessage::UpdateList(list_action) => {
                self.todo_list_action(list_action);
                Ok(LoopSignal::Continue)
            },
            AppMessage::SetDueDate(d) => {
                self.set_due_date(d);
                Ok(LoopSignal::Continue)
            },
            AppMessage::ReInitTerminal => Ok(LoopSignal::ReInit),
            AppMessage::Quit => Ok(LoopSignal::Quit),
        }
    }
}

} // verus!
