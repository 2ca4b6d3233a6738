//! The task editor: the pending name, description and metadata of a todo
//! being created or edited, turned into a `Todo` on submit.

use vstd::prelude::*;

use crate::datetime::DateTime;
use crate::todo::{ListAction, Todo, TodoMetadata};

verus! {

/// The editor's pending fields. `is_editing_existing` tells apart editing
/// the todo at `todo_index` from adding a new one.
pub struct TodoInputComponent {
    pub name: String,
    pub description: String,
    pub finished: bool,
    pub metadata: TodoMetadata,
    pub is_editing_existing: bool,
    pub todo_index: usize,
}

impl TodoInputComponent {
    pub fn new() -> (r: Self)
        ensures
            r.name@ == Seq::<char>::empty(),
            r.description@ == Seq::<char>::empty(),
            !r.finished,
            r.metadata.edited_at is None,
            r.metadata.due_date is None,
            !r.metadata.recurring,
            !r.metadata.finished,
            r.metadata.added_at.wf(),
            !r.is_editing_existing,
            r.todo_index == 0,
    {
        TodoInputComponent {
            name: String::new(),
            description: String::new(),
            finished: false,
            metadata: TodoMetadata::now_default(),
            is_editing_existing: false,
            todo_index: 0,
        }
    }

    /// Copies the selected todo into the editor for editing in place.
    pub fn populate_with(&mut self, todo: &Todo, i: usize)
        ensures
            final(self).name@ == todo.name@,
            final(self).description@ == todo.description@,
            final(self).metadata == todo.metadata,
            final(self).is_editing_existing,
            final(self).todo_index == i,
            final(self).finished == old(self).finished,
    {
        self.name = todo.name.clone();
        self.description = todo.description.clone();
        self.metadata = todo.metadata;
        self.is_editing_existing = true;
        self.todo_index = i;
    }

    /// Replaces the pending name (the text field is edited outside).
    pub fn set_name(&mut self, name: String)
        ensures
            final(self).name == name,
            final(self).description == old(self).description,
            final(self).metadata == old(self).metadata,
            final(self).is_editing_existing == old(self).is_editing_existing,
            final(self).todo_index == old(self).todo_index,
            final(self).finished == old(self).finished,
    {
        self.name = name;
    }

    /// Replaces the pending description (written in an outside editor).
    pub fn set_description(&mut self, description: String)
        ensures
            final(self).description == description,
            final(self).name == old(self).name,
            final(self).metadata == old(self).metadata,
            final(self).is_editing_existing == old(self).is_editing_existing,
            final(self).todo_index == old(self).todo_index,
            final(self).finished == old(self).finished,
    {
        self.description = description;
    }

    /// Writes the picked due moment into the pending metadata.
    pub fn set_due_date(&mut self, dt: DateTime)
        ensures
            final(self).metadata == (TodoMetadata { due_date: Some(dt), ..old(self).metadata }),
            final(self).name == old(self).name,
            final(self).description == old(self).description,
            final(self).is_editing_existing == old(self).is_editing_existing,
            final(self).todo_index == old(self).todo_index,
            final(self).finished == old(self).finished,
    {
        self.metadata.due_date = Some(dt);
    }

    pub fn get_due_date(&self) -> (r: Option<DateTime>)
        ensures
            r == self.metadata.due_date,
    {
        self.metadata.due_date
    }

    /// Flips the pending recurring flag.
    pub fn toggle_recurring(&mut self)
        ensures
            final(self).metadata == (TodoMetadata {
                recurring: !old(self).metadata.recurring,
                ..old(self).metadata
            }),
            final(self).name == old(self).name,
            final(self).description == old(self).description,
            final(self).is_editing_existing == old(self).is_editing_existing,
            final(self).todo_index == old(self).todo_index,
            final(self).finished == old(self).finished,
    {
        self.metadata.recurring = !self.metadata.recurring;
    }

    /// Discards the pending edit.
    pub fn clear(&mut self)
        ensures
            final(self).name@ == Seq::<char>::empty(),
            final(self).description@ == Seq::<char>::empty(),
            final(self).metadata.edited_at is None,
            final(self).metadata.due_date is None,
            !final(self).metadata.recurring,
            !final(self).metadata.finished,
            final(self).metadata.added_at.wf(),
            !final(self).is_editing_existing,
    {
        self.name = String::new();
        self.description = String::new();
        self.metadata = TodoMetadata::now_default();
        self.is_editing_existing = false;
    }

    /// How one key relates the editor before to the editor after, and to
    /// the produced intent: leaving discards the pending edit, submitting
    /// builds the pending todo into an add or replace intent, the other
    /// bound keys flip the recurring flag or ask for the calendar or the
    /// outside description editor.
    pub open spec fn spec_handle_rel(
        pre: TodoInputComponent,
        post: TodoInputComponent,
        action: crate::app::KeyAction,
        r: crate::app::AppMessage,
    ) -> bool {
        match action {
            crate::app::KeyAction::Back => {
                &&& r matches crate::app::AppMessage::InputState(s) && s
                    == crate::app::AppState::Normal
                &&& post.name@ == Seq::<char>::empty()
                &&& post.description@ == Seq::<char>::empty()
                &&& !post.is_editing_existing
                &&& post.metadata.due_date is None
            },
            crate::app::KeyAction::Submit => {
                &&& post == pre
                &&& r matches crate::app::AppMessage::UpdateList(la)
                &&& if pre.is_editing_existing {
                    &&& la matches ListAction::Replace(t, i)
                    &&& i == pre.todo_index
                    &&& t.name@ == pre.name@
                    &&& t.description@ == pre.description@
                    &&& t.metadata.due_date == pre.metadata.due_date
                    &&& t.metadata.recurring == pre.metadata.recurring
                    &&& t.metadata.finished == pre.metadata.finished
                    &&& t.metadata.added_at == pre.metadata.added_at
                    &&& t.metadata.edited_at matches Some(d)
                    &&& d.wf()
                } else {
                    &&& la matches ListAction::Add(t)
                    &&& t.name@ == pre.name@
                    &&& t.description@ == pre.description@
                    &&& t.metadata == (TodoMetadata { edited_at: None, ..pre.metadata })
                }
            },
            crate::app::KeyAction::ExternalEditor => r is ReInitTerminal && post == pre,
            crate::app::KeyAction::MarkRecurring => {
                &&& r is NoAction
                &&& post.metadata == (TodoMetadata {
                    recurring: !pre.metadata.recurring,
                    ..pre.metadata
                })
                &&& post.name == pre.name
                &&& post.description == pre.description
                &&& post.is_editing_existing == pre.is_editing_existing
                &&& post.todo_index == pre.todo_index
            },
            crate::app::KeyAction::OpenCalendar => {
                &&& r matches crate::app::AppMessage::InputState(s) && s
                    == crate::app::AppState::DueDate
                &&& post == pre
            },
            _ => r is NoAction && post == pre,
        }
    }

    /// One key while the editor owns input: leaving, submitting the
    /// pending todo, flipping the recurring flag, or asking for the
    /// calendar or the outside description editor.
    pub fn handle_input(&mut self, action: crate::app::KeyAction) -> (r: crate::app::AppMessage)
        ensures
            Self::spec_handle_rel(*old(self), *final(self), action, r),
    {
        match action {
            crate::app::KeyAction::Back => {
                self.clear();
                crate::app::AppMessage::InputState(crate::app::AppState::Normal)
            },
            crate::app::KeyAction::Submit => {
                let now = crate::datetime::local_now();
                let todo = self.build_todo(now);
                if self.is_editing_existing {
                    crate::app::AppMessage::UpdateList(
                        ListAction::Replace(todo, self.todo_index),
                    )
                } else {
                    crate::app::AppMessage::UpdateList(ListAction::Add(todo))
                }
            },
            crate::app::KeyAction::ExternalEditor => crate::app::AppMessage::ReInitTerminal,
            crate::app::KeyAction::MarkRecurring => {
                self.toggle_recurring();
                crate::app::AppMessage::NoAction
            },
            crate::app::KeyAction::OpenCalendar => crate::app::AppMessage::InputState(
                crate::app::AppState::DueDate,
            ),
            _ => crate::app::AppMessage::NoAction,
        }
    }

    /// The todo the pending fields describe. When an existing todo is
    /// being edited, `now` becomes its last-edited stamp.
    pub fn build_todo(&self, now: DateTime) -> (r: Todo)
        ensures
            r.name@ == self.name@,
            r.description@ == self.description@,
            r.metadata == (TodoMetadata {
                edited_at: if self.is_editing_existing {
                    Some(now)
                } else {
                    None
                },
                ..self.metadata
            }),
    {
        let edited_at = if self.is_editing_existing {
            Some(now)
        } else {
            None
        };
        Todo {
            name: self.name.clone(),
            description: self.description.clone(),
            metadata: TodoMetadata { edited_at, ..self.metadata },
        }
    }
}

} // verus!
