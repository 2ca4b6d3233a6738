//! The task collection and the component around it: an ordered list of
//! todos with a bounded cursor, mutated only through add, replace, remove,
//! reorder and completion toggling. A recurring todo can never be marked
//! finished; the attempt is refused without touching the list.

use vstd::prelude::*;
use vstd::pervasive::VecAdditionalExecFns;

use crate::channel::{send_msg, SendFailed};
use crate::cursor::{BoundedState, StateWrap};
use crate::datetime::{local_now, DateTime};
use crate::hints::BarType;
use crate::notify::FlashMsg;
use crate::paragraph::{ParagraphState, ScrollPos, ScrollSelection};

verus! {

/// A mutation of the task collection requested by the editor.
pub enum ListAction {
    Replace(Todo, usize),
    Add(Todo),
}

/// One task.
#[derive(Clone, Debug)]
#[verifier::ext_equal]
pub struct Todo {
    pub name: String,
    pub description: String,
    pub metadata: TodoMetadata,
}

impl Todo {
    /// Flips the completion flag. The recurring check lives in the list
    /// component, which refuses to call this on a recurring todo.
    pub fn toggle_finished(&mut self)
        ensures
            final(self).metadata.finished == !old(self).metadata.finished,
            final(self).metadata.added_at == old(self).metadata.added_at,
            final(self).metadata.edited_at == old(self).metadata.edited_at,
            final(self).metadata.due_date == old(self).metadata.due_date,
            final(self).metadata.recurring == old(self).metadata.recurring,
            final(self).name == old(self).name,
            final(self).description == old(self).description,
    {
        self.metadata.finished = !self.metadata.finished;
    }
}

/// When a task was created, last edited and is due, and its two flags.
#[derive(Clone, Copy, PartialEq, Eq, Structural, Debug)]
pub struct TodoMetadata {
    pub added_at: DateTime,
    pub edited_at: Option<DateTime>,
    pub due_date: Option<DateTime>,
    pub recurring: bool,
    pub finished: bool,
}

impl TodoMetadata {
    /// Fresh metadata for a task created at `now`.
    pub fn created_at(now: DateTime) -> (r: Self)
        ensures
            r.added_at == now,
            r.edited_at is None,
            r.due_date is None,
            !r.recurring,
            !r.finished,
    {
        TodoMetadata {
            added_at: now,
            edited_at: None,
            due_date: None,
            recurring: false,
            finished: false,
        }
    }

    /// Fresh metadata stamped with the current wall clock.
    pub fn now_default() -> (r: Self)
        ensures
            r.added_at.wf(),
            r.edited_at is None,
            r.due_date is None,
            !r.recurring,
            !r.finished,
    {
        TodoMetadata::created_at(local_now())
    }
}

/// The task list with its cursor and per-mode display state.
pub struct TodoListComponent {
    pub list_state: BoundedState,
    pub todos: Vec<Todo>,
    pub hintbar: BarType,
    pub move_mode: bool,
    pub flash_tx: kanal::Sender<FlashMsg>,
    pub paragraph_state: ParagraphState,
}

impl TodoListComponent {
    /// The cursor tracks the collection: wrapping steps, boundary equal to
    /// the list's length, selection inside it.
    pub open spec fn wf(&self) -> bool {
        &&& self.list_state.wf()
        &&& self.list_state.boundary() == self.todos@.len()
        &&& self.list_state.wraps()
    }

    /// Builds the component over an already loaded collection; the first
    /// todo is selected when there is one.
    pub fn load(todos: Vec<Todo>, flash_tx: kanal::Sender<FlashMsg>) -> (r: Self)
        ensures
            r.wf(),
            r.todos == todos,
            r.list_state.selection() == if todos@.len() > 0 {
                Some(0usize)
            } else {
                None::<usize>
            },
            !r.move_mode,
            r.hintbar == BarType::Normal,
    {
        let mut state = BoundedState::new(todos.len(), StateWrap::Enable);
        if todos.len() > 0 {
            state.first();
        }
        TodoListComponent {
            list_state: state,
            todos,
            hintbar: BarType::Normal,
            move_mode: false,
            flash_tx,
            paragraph_state: ParagraphState::default(),
        }
    }

    pub fn todos_ref(&self) -> (r: &Vec<Todo>)
        ensures
            r == &self.todos,
    {
        &self.todos
    }

    /// Appends a todo and selects it.
    pub fn add_todo(&mut self, t: Todo)
        requires
            old(self).wf(),
            old(self).todos@.len() < usize::MAX,
        ensures
            final(self).wf(),
            final(self).todos@ == old(self).todos@.push(t),
            final(self).list_state.selection() == Some(old(self).todos@.len() as usize),
            final(self).move_mode == old(self).move_mode,
            final(self).hintbar == old(self).hintbar,
            final(self).flash_tx == old(self).flash_tx,
            final(self).paragraph_state == old(self).paragraph_state,
    {
        self.todos.push(t);
        self.list_state.update_upper_and_select(self.todos.len() - 1);
    }

    /// Replaces the todo at `i`, leaving the cursor alone.
    pub fn replace(&mut self, t: Todo, i: usize)
        requires
            old(self).wf(),
            i < old(self).todos@.len(),
        ensures
            final(self).wf(),
            final(self).todos@ == old(self).todos@.update(i as int, t),
            final(self).list_state == old(self).list_state,
            final(self).move_mode == old(self).move_mode,
            final(self).hintbar == old(self).hintbar,
            final(self).flash_tx == old(self).flash_tx,
            final(self).paragraph_state == old(self).paragraph_state,
    {
        self.todos[i] = t;
    }

    pub fn next(&mut self)
        requires
            old(self).wf(),
        ensures
            final(self).wf(),
            final(self).list_state.selection() == old(self).list_state.step_forward(),
            final(self).todos == old(self).todos,
            final(self).move_mode == old(self).move_mode,
            final(self).hintbar == old(self).hintbar,
            final(self).flash_tx == old(self).flash_tx,
            final(self).paragraph_state == old(self).paragraph_state,
    {
        self.list_state.next();
    }

    pub fn previous(&mut self)
        requires
            old(self).wf(),
        ensures
            final(self).wf(),
            final(self).list_state.selection() == old(self).list_state.step_backward(),
            final(self).todos == old(self).todos,
            final(self).move_mode == old(self).move_mode,
            final(self).hintbar == old(self).hintbar,
            final(self).flash_tx == old(self).flash_tx,
            final(self).paragraph_state == old(self).paragraph_state,
    {
        self.list_state.prev();
    }

    /// Removes the selected todo and re-bounds the cursor; with nothing
    /// selected it only reports the failure. Removing the only remaining
    /// todo always leaves the selection empty.
    pub fn remove_current(&mut self) -> (r: Result<(), SendFailed>)
        requires
            old(self).wf(),
        ensures
            final(self).wf(),
            match old(self).list_state.selection() {
                Some(s) => {
                    &&& final(self).todos@ == old(self).todos@.remove(s as int)
                    &&& final(self).list_state.selection() == old(self).list_state.clamped_to(
                        (old(self).todos@.len() - 1) as usize,
                    )
                },
                None => {
                    &&& final(self).todos == old(self).todos
                    &&& final(self).list_state == old(self).list_state
                },
            },
            old(self).todos@.len() == 1 && old(self).list_state.selection() is Some
                ==> final(self).list_state.selection() is None,
            final(self).move_mode == old(self).move_mode,
            final(self).hintbar == old(self).hintbar,
            final(self).flash_tx == old(self).flash_tx,
            final(self).paragraph_state == old(self).paragraph_state,
    {
        if let Some(selected) = self.list_state.selected() {
            self.todos.remove(selected);
            self.list_state.update_boundary(self.todos.len());
            if send_msg(&self.flash_tx, FlashMsg::info("Removed todo")) {
                Ok(())
            } else {
                Err(SendFailed)
            }
        } else {
            self.report_no_selection()
        }
    }

    /// Flashes "No todo selected" over the bus.
    pub fn report_no_selection(&self) -> (r: Result<(), SendFailed>)
    {
        if send_msg(&self.flash_tx, FlashMsg::err("No todo selected")) {
            Ok(())
        } else {
            Err(SendFailed)
        }
    }

    /// The selected todo together with its index.
    pub fn selected(&self) -> (r: Option<(&Todo, usize)>)
        requires
            self.wf(),
        ensures
            r is Some <==> self.list_state.selection() is Some,
            r matches Some((t, i)) ==> self.list_state.selection() == Some(i) && *t
                == self.todos@[i as int],
    {
        if let Some(s) = self.list_state.selected() {
            Some((&self.todos[s], s))
        } else {
            None
        }
    }

    /// The collection after the completion flag of the todo at `s` is
    /// toggled; a recurring todo is left as it is.
    pub open spec fn spec_toggled(todos: Seq<Todo>, s: int) -> Seq<Todo> {
        if 0 <= s < todos.len() && !todos[s].metadata.recurring {
            todos.update(
                s,
                Todo {
                    metadata: TodoMetadata {
                        finished: !todos[s].metadata.finished,
                        ..todos[s].metadata
                    },
                    ..todos[s]
                },
            )
        } else {
            todos
        }
    }

    /// Toggles completion of the selected todo. A recurring todo is
    /// refused with a warning and the collection is untouched; with no
    /// selection only the failure is reported.
    pub fn toggle_finished(&mut self) -> (r: Result<(), SendFailed>)
        requires
            old(self).wf(),
        ensures
            final(self).wf(),
            match old(self).list_state.selection() {
                Some(s) => final(self).todos@ == Self::spec_toggled(old(self).todos@, s as int),
                None => final(self).todos == old(self).todos,
            },
            final(self).list_state == old(self).list_state,
            final(self).move_mode == old(self).move_mode,
            final(self).hintbar == old(self).hintbar,
            final(self).flash_tx == old(self).flash_tx,
            final(self).paragraph_state == old(self).paragraph_state,
    {
        if let Some(s) = self.list_state.selected() {
            if self.todos[s].metadata.recurring {
                if send_msg(&self.flash_tx, FlashMsg::warn("Can't mark recurring as finished")) {
                    return Ok(());
                } else {
                    return Err(SendFailed);
                }
            }
            let finished = !self.todos[s].metadata.finished;
            self.todos[s].metadata.finished = finished;
            proof {
                assert(self.todos@[s as int] =~= Self::spec_toggled(old(self).todos@, s as int)[
                    s as int
                ]);
                assert(self.todos@ =~= Self::spec_toggled(old(self).todos@, s as int));
            }
            let msg = if finished {
                FlashMsg::info("Marked todo as finished")
            } else {
                FlashMsg::info("Marked todo as unfinished")
            };
            if send_msg(&self.flash_tx, msg) {
                Ok(())
            } else {
                Err(SendFailed)
            }
        } else {
            self.report_no_selection()
        }
    }

    /// The collection with the elements at `a` and `b` exchanged.
    pub open spec fn spec_swapped(todos: Seq<Todo>, a: int, b: int) -> Seq<Todo> {
        todos.update(a, todos[b]).update(b, todos[a])
    }

    /// Swaps the selected todo with its predecessor (the last todo when it
    /// is first) and moves the selection with it.
    pub fn move_todo_up(&mut self)
        requires
            old(self).wf(),
        ensures
            final(self).wf(),
            match old(self).list_state.selection() {
                Some(s) => {
                    let n = if s == 0 {
                        (old(self).todos@.len() - 1) as int
                    } else {
                        s - 1
                    };
                    &&& final(self).todos@ == Self::spec_swapped(old(self).todos@, s as int, n)
                    &&& final(self).list_state.selection() == Some(n as usize)
                },
                None => {
                    &&& final(self).todos == old(self).todos
                    &&& final(self).list_state == old(self).list_state
                },
            },
            final(self).move_mode == old(self).move_mode,
            final(self).hintbar == old(self).hintbar,
            final(self).flash_tx == old(self).flash_tx,
            final(self).paragraph_state == old(self).paragraph_state,
    {
        if let Some(s) = self.list_state.selected() {
            let new_index = if s == 0 {
                self.todos.len() - 1
            } else {
                s - 1
            };
            swap_elements(&mut self.todos, s, new_index);
            let _ = self.list_state.select(new_index);
        }
    }

    /// Swaps the selected todo with its successor (the first todo when it
    /// is last) and moves the selection with it.
    pub fn move_todo_down(&mut self)
        requires
            old(self).wf(),
        ensures
            final(self).wf(),
            match old(self).list_state.selection() {
                Some(s) => {
                    let n = if s == old(self).todos@.len() - 1 {
                        0int
                    } else {
                        s + 1
                    };
                    &&& final(self).todos@ == Self::spec_swapped(old(self).todos@, s as int, n)
                    &&& final(self).list_state.selection() == Some(n as usize)
                },
                None => {
                    &&& final(self).todos == old(self).todos
                    &&& final(self).list_state == old(self).list_state
                },
            },
            final(self).move_mode == old(self).move_mode,
            final(self).hintbar == old(self).hintbar,
            final(self).flash_tx == old(self).flash_tx,
            final(self).paragraph_state == old(self).paragraph_state,
    {
        if let Some(s) = self.list_state.selected() {
            let new_index = if s == self.todos.len() - 1 {
                0
            } else {
                s + 1
            };
            swap_elements(&mut self.todos, s, new_index);
            let _ = self.list_state.select(new_index);
        }
    }

    /// Sets the cursor onto index `selection`.
    pub fn select(&mut self, selection: usize)
        requires
            old(self).wf(),
            selection < old(self).todos@.len(),
        ensures
            final(self).wf(),
            final(self).list_state.selection() == Some(selection),
            final(self).todos == old(self).todos,
            final(self).move_mode == old(self).move_mode,
            final(self).hintbar == old(self).hintbar,
            final(self).flash_tx == old(self).flash_tx,
            final(self).paragraph_state == old(self).paragraph_state,
    {
        let _ = self.list_state.select(selection);
    }

    /// Picks which hint bar the list shows.
    pub fn load_hintbar(&mut self, bar_type: BarType)
        ensures
            final(self).hintbar == bar_type,
            final(self).todos == old(self).todos,
            final(self).list_state == old(self).list_state,
            final(self).move_mode == old(self).move_mode,
            final(self).flash_tx == old(self).flash_tx,
            final(self).paragraph_state == old(self).paragraph_state,
    {
        self.hintbar = bar_type;
    }

    /// Scrolls the description view one `nav` step, clamped to the text.
    pub fn scroll_desc(&mut self, nav: ScrollSelection) -> (r: bool)
        ensures
            r,
            final(self).paragraph_state.spec_scroll().y == ({
                let target = old(self).paragraph_state.spec_nav_target(nav);
                let max = old(self).paragraph_state.spec_max_scroll();
                if target <= max {
                    target
                } else {
                    max
                }
            }),
            final(self).paragraph_state.spec_scroll().x == 0,
            final(self).todos == old(self).todos,
            final(self).list_state == old(self).list_state,
            final(self).move_mode == old(self).move_mode,
            final(self).hintbar == old(self).hintbar,
            final(self).flash_tx == old(self).flash_tx,
    {
        let state = self.paragraph_state;
        let page = state.height().saturating_sub(2);
        let new_scroll_pos: u16 = match nav {
            ScrollSelection::Up => state.scroll().y.saturating_sub(1),
            ScrollSelection::Down => state.scroll().y.saturating_add(1),
            ScrollSelection::Top => 0,
            ScrollSelection::End => state.lines().saturating_sub(page),
            ScrollSelection::PageUp => state.scroll().y.saturating_sub(page),
            ScrollSelection::PageDown => state.scroll().y.saturating_add(page),
            ScrollSelection::Unchanged => state.scroll().y,
        };
        self.set_scroll_desc(new_scroll_pos)
    }

    /// Sets the description scroll to `pos`, clamped to the text height.
    pub fn set_scroll_desc(&mut self, pos: u16) -> (r: bool)
        ensures
            r,
            final(self).paragraph_state.spec_scroll().y == ({
                let max = old(self).paragraph_state.spec_max_scroll();
                if pos <= max {
                    pos
                } else {
                    max
                }
            }),
            final(self).paragraph_state.spec_scroll().x == 0,
            final(self).paragraph_state.spec_lines() == old(self).paragraph_state.spec_lines(),
            final(self).paragraph_state.spec_height() == old(self).paragraph_state.spec_height(),
            final(self).todos == old(self).todos,
            final(self).list_state == old(self).list_state,
            final(self).move_mode == old(self).move_mode,
            final(self).hintbar == old(self).hintbar,
            final(self).flash_tx == old(self).flash_tx,
    {
        let mut state = self.paragraph_state;
        let max = state.lines().saturating_sub(state.height().saturating_sub(2));
        let new_scroll_pos = if pos < max {
            pos
        } else {
            max
        };
        state.set_scroll(ScrollPos { x: 0, y: new_scroll_pos });
        self.paragraph_state = state;
        true
    }
}

impl TodoListComponent {
    /// Neither the collection, the cursor, the move flag nor the hint bar
    /// changed.
    pub open spec fn spec_unchanged(pre: Self, post: Self) -> bool {
        &&& post.todos == pre.todos
        &&& post.list_state == pre.list_state
        &&& post.move_mode == pre.move_mode
        &&& post.hintbar == pre.hintbar
        &&& post.paragraph_state == pre.paragraph_state
    }

    /// Only the cursor moved, to the given selection.
    pub open spec fn spec_stepped(pre: Self, post: Self, sel: Option<usize>) -> bool {
        &&& post.todos == pre.todos
        &&& post.list_state.selection() == sel
        &&& post.list_state.boundary() == pre.list_state.boundary()
        &&& post.move_mode == pre.move_mode
        &&& post.hintbar == pre.hintbar
        &&& post.paragraph_state == pre.paragraph_state
    }

    /// The selected todo swapped with its neighbour — the one before when
    /// `up`, the one after otherwise, wrapping around the ends — with the
    /// selection following it.
    pub open spec fn spec_swapped_step(pre: Self, post: Self, up: bool) -> bool {
        match pre.list_state.selection() {
            Some(s) => {
                let n = if up {
                    if s == 0 {
                        (pre.todos@.len() - 1) as int
                    } else {
                        s - 1
                    }
                } else {
                    if s == pre.todos@.len() - 1 {
                        0int
                    } else {
                        s + 1
                    }
                };
                &&& post.todos@ == Self::spec_swapped(pre.todos@, s as int, n)
                &&& post.list_state.selection() == Some(n as usize)
                &&& post.move_mode == pre.move_mode
                &&& post.hintbar == pre.hintbar
            },
            None => Self::spec_unchanged(pre, post),
        }
    }

    /// One key in Normal or Move mode: stepping or reordering, toggling
    /// completion, removing, scrolling the description, or an intent for
    /// the controller.
    /// How one key in Normal or Move mode relates the component before
    /// to the component after, and to the produced intent.
    pub open spec fn spec_handle_rel(
        pre: TodoListComponent,
        post: TodoListComponent,
        action: crate::app::KeyAction,
        r: Result<crate::app::AppMessage, SendFailed>,
    ) -> bool {
        match action {
                crate::app::KeyAction::Quit => r matches Ok(m) && m is Quit
                    && Self::spec_unchanged(pre, post),
                crate::app::KeyAction::MoveUp => (r matches Ok(m) ==> m is NoAction) && if pre.move_mode {
                    Self::spec_swapped_step(pre, post, true)
                } else {
                    Self::spec_stepped(
                        pre,
                        post,
                        pre.list_state.step_backward(),
                    )
                },
                crate::app::KeyAction::MoveDown => (r matches Ok(m) ==> m is NoAction) && if pre.move_mode {
                    Self::spec_swapped_step(pre, post, false)
                } else {
                    Self::spec_stepped(
                        pre,
                        post,
                        pre.list_state.step_forward(),
                    )
                },
                crate::app::KeyAction::ToggleCompleted => (r matches Ok(m) ==> m is NoAction)
                    && post.list_state == pre.list_state && post.move_mode
                    == pre.move_mode && post.hintbar == pre.hintbar && match pre.list_state.selection() {
                    Some(s) => post.todos@ == Self::spec_toggled(
                        pre.todos@,
                        s as int,
                    ),
                    None => post.todos == pre.todos,
                },
                crate::app::KeyAction::AddTodo => r matches Ok(m) && m matches
                    crate::app::AppMessage::InputState(s) && s == crate::app::AppState::AddTodo
                    && Self::spec_unchanged(pre, post),
                crate::app::KeyAction::EditTodo => r matches Ok(m) && m matches
                    crate::app::AppMessage::InputState(s) && s == crate::app::AppState::EditTodo
                    && Self::spec_unchanged(pre, post),
                crate::app::KeyAction::MoveMode => r matches Ok(m) && m matches
                    crate::app::AppMessage::InputState(s) && s == crate::app::AppState::Move
                    && post.move_mode && post.todos == pre.todos && post.list_state == pre.list_state && post.hintbar == pre.hintbar,
                crate::app::KeyAction::FindMode => r matches Ok(m) && m matches
                    crate::app::AppMessage::InputState(s) && s == crate::app::AppState::Find
                    && Self::spec_unchanged(pre, post),
                crate::app::KeyAction::RemoveTodo => (r matches Ok(m) ==> m is NoAction) && post.move_mode == pre.move_mode && post.hintbar == pre.hintbar
                    && match pre.list_state.selection() {
                    Some(s) => post.todos@ == pre.todos@.remove(s as int) && post.list_state.selection() == pre.list_state.clamped_to(
                        (pre.todos@.len() - 1) as usize,
                    ),
                    None => post.todos == pre.todos && post.list_state == pre.list_state,
                },
                crate::app::KeyAction::Submit => if pre.move_mode {
                    r matches Ok(m) && m matches crate::app::AppMessage::InputState(s) && s
                        == crate::app::AppState::Normal && !post.move_mode && post.todos == pre.todos && post.list_state == pre.list_state
                        && post.hintbar == pre.hintbar
                } else {
                    r matches Ok(m) && m is NoAction && Self::spec_unchanged(
                        pre,
                        post,
                    )
                },
                crate::app::KeyAction::DescScrollUp => (r matches Ok(m) && m is NoAction) && post.todos == pre.todos && post.list_state == pre.list_state
                    && post.move_mode == pre.move_mode && post.hintbar == pre.hintbar,
                crate::app::KeyAction::DescScrollDown => (r matches Ok(m) && m is NoAction)
                    && post.todos == pre.todos && post.list_state == pre.list_state && post.move_mode == pre.move_mode && post.hintbar
                    == pre.hintbar,
                _ => r matches Ok(m) && m is NoAction && Self::spec_unchanged(
                    pre,
                    post,
                ),
            }
    }

    pub fn handle_input(&mut self, action: crate::app::KeyAction) -> (r: Result<
        crate::app::AppMessage,
        SendFailed,
    >)
        requires
            old(self).wf(),
        ensures
            final(self).wf(),
            final(self).flash_tx == old(self).flash_tx,
            Self::spec_handle_rel(*old(self), *final(self), action, r),
    {
        match action {
            crate::app::KeyAction::Quit => Ok(crate::app::AppMessage::Quit),
            crate::app::KeyAction::MoveUp => {
                if self.move_mode {
                    self.move_todo_up();
                } else {
                    self.previous();
                }
                Ok(crate::app::AppMessage::NoAction)
            },
            crate::app::KeyAction::MoveDown => {
                if self.move_mode {
                    self.move_todo_down();
                } else {
                    self.next();
                }
                Ok(crate::app::AppMessage::NoAction)
            },
            crate::app::KeyAction::ToggleCompleted => {
                self.toggle_finished()?;
                Ok(crate::app::AppMessage::NoAction)
            },
            crate::app::KeyAction::AddTodo => Ok(
                crate::app::AppMessage::InputState(crate::app::AppState::AddTodo),
            ),
            crate::app::KeyAction::EditTodo => Ok(
                crate::app::AppMessage::InputState(crate::app::AppState::EditTodo),
            ),
            crate::app::KeyAction::MoveMode => {
                self.move_mode = true;
                Ok(crate::app::AppMessage::InputState(crate::app::AppState::Move))
            },
            crate::app::KeyAction::FindMode => Ok(
                crate::app::AppMessage::InputState(crate::app::AppState::Find),
            ),
            crate::app::KeyAction::RemoveTodo => {
                self.remove_current()?;
                Ok(crate::app::AppMessage::NoAction)
            },
            crate::app::KeyAction::Submit => {
                if self.move_mode {
                    self.move_mode = false;
                    Ok(crate::app::AppMessage::InputState(crate::app::AppState::Normal))
                } else {
                    Ok(crate::app::AppMessage::NoAction)
                }
            },
            crate::app::KeyAction::DescScrollUp => {
                self.scroll_desc(ScrollSelection::Up);
                Ok(crate::app::AppMessage::NoAction)
            },
            crate::app::KeyAction::DescScrollDown => {
                self.scroll_desc(ScrollSelection::Down);
                Ok(crate::app::AppMessage::NoAction)
            },
            _ => Ok(crate::app::AppMessage::NoAction),
        }
    }
}

/// Exchanges the elements at `a` and `b`.
fn swap_elements<T>(v: &mut Vec<T>, a: usize, b: usize)
    requires
        a < old(v)@.len(),
        b < old(v)@.len(),
    ensures
        final(v)@ == old(v)@.update(a as int, old(v)@[b as int]).update(
            b as int,
            old(v)@[a as int],
        ),
{
    if a == b {
        proof {
            assert(v@ =~= v@.update(a as int, v@[b as int]).update(b as int, v@[a as int]));
        }
        return;
    }
    let mut tmp = v.remove(a);
    let bb = if b > a {
        b - 1
    } else {
        b
    };
    v.set_and_swap(bb, &mut tmp);
    v.insert(a, tmp);
    proof {
        assert(v@ =~= old(v)@.update(a as int, old(v)@[b as int]).update(
            b as int,
            old(v)@[a as int],
        ));
    }
}

/// Toggling completion twice gives the collection back unchanged: a
/// non-recurring todo's flag flips and flips back, and a recurring todo is
/// refused both times.
pub proof fn lemma_toggle_twice_roundtrip(todos: Seq<Todo>, s: int)
    ensures
        TodoListComponent::spec_toggled(TodoListComponent::spec_toggled(todos, s), s) =~= todos,
{
    let once = TodoListComponent::spec_toggled(todos, s);
    if 0 <= s < todos.len() && !todos[s].metadata.recurring {
        assert(TodoListComponent::spec_toggled(once, s) =~= todos);
    }
}

} // verus!
