use tood::app::{App, AppMessage, AppState, KeyAction, LoopSignal};
use tood::datetime::DateTime;
use tood::notify::MsgType;
use tood::todo::{Todo, TodoMetadata};

fn plain_metadata() -> TodoMetadata {
    TodoMetadata {
        added_at: DateTime { year: 2024, month: 1, day: 1, hour: 9, minute: 0 },
        edited_at: None,
        due_date: None,
        recurring: false,
        finished: false,
    }
}

fn plain_todo(name: &str) -> Todo {
    Todo {
        name: String::from(name),
        description: String::new(),
        metadata: plain_metadata(),
    }
}

#[test]
fn submitting_add_appends_one_todo_and_returns_to_normal() {
    let mut app = App::new(Vec::new());
    app.update_state(AppState::AddTodo).unwrap();
    assert_eq!(app.state, AppState::AddTodo);
    app.todo_input.set_name(String::from("Buy milk"));
    let msg = app.handle_key(KeyAction::Submit).unwrap();
    assert!(matches!(msg, AppMessage::UpdateList(_)));
    let sig = app.apply_message(msg).unwrap();
    assert_eq!(sig, LoopSignal::Continue);
    assert_eq!(app.state, AppState::Normal);
    assert_eq!(app.todo_list.todos.len(), 1);
    let t = &app.todo_list.todos[0];
    assert_eq!(t.name, "Buy milk");
    assert_eq!(t.description, "");
    assert!(!t.metadata.finished);
    assert!(!t.metadata.recurring);
    assert!(t.metadata.due_date.is_none());
    let m = app.notification.msg.as_ref().unwrap();
    assert_eq!(m.message, "Added todo");
    assert_eq!(m.level, MsgType::Info);
}

#[test]
fn edit_with_nothing_selected_reports_and_keeps_mode() {
    let mut app = App::new(Vec::new());
    app.update_state(AppState::EditTodo).unwrap();
    assert_eq!(app.state, AppState::Normal);
    let m = app.notification.msg.as_ref().unwrap();
    assert_eq!(m.message, "No todo selected");
    assert_eq!(m.level, MsgType::Error);
}

#[test]
fn find_then_cancel_keeps_collection_and_cursor() {
    let todos = vec![plain_todo("Water plants"), plain_todo("Feed cat")];
    let mut app = App::new(todos);
    app.todo_list.next();
    assert_eq!(app.todo_list.list_state.selected(), Some(1));
    app.update_state(AppState::Find).unwrap();
    assert_eq!(app.state, AppState::Find);
    let msg = app.handle_key(KeyAction::Back).unwrap();
    assert!(matches!(msg, AppMessage::InputState(AppState::Normal)));
    app.apply_message(msg).unwrap();
    assert_eq!(app.state, AppState::Normal);
    assert_eq!(app.todo_list.todos.len(), 2);
    assert_eq!(app.todo_list.todos[0].name, "Water plants");
    assert_eq!(app.todo_list.todos[1].name, "Feed cat");
    assert_eq!(app.todo_list.list_state.selected(), Some(1));
    // the fuzzy session is discarded on cancel
    assert_eq!(app.skimmer.matches.len(), 0);
    assert_eq!(app.skimmer.input, "");
    assert_eq!(app.skimmer.state.selected(), None);
}

#[test]
fn entering_find_seeds_every_todo_in_order() {
    let todos = vec![plain_todo("a"), plain_todo("b"), plain_todo("c")];
    let mut app = App::new(todos);
    app.update_state(AppState::Find).unwrap();
    assert_eq!(app.skimmer.matches.len(), 3);
    for (i, m) in app.skimmer.matches.iter().enumerate() {
        assert_eq!(m.position, i);
    }
    assert_eq!(app.skimmer.state.selected(), Some(0));
}

#[test]
fn selecting_a_match_moves_the_task_cursor() {
    let todos = vec![plain_todo("a"), plain_todo("b"), plain_todo("c")];
    let mut app = App::new(todos);
    app.update_state(AppState::Find).unwrap();
    let msg = app.handle_key(KeyAction::AltMoveDown).unwrap();
    app.apply_message(msg).unwrap();
    assert_eq!(app.skimmer.state.selected(), Some(1));
    let msg = app.handle_key(KeyAction::Submit).unwrap();
    match &msg {
        AppMessage::Skimmer(_) => {}
        _ => panic!("expected a skimmer action"),
    }
    app.apply_message(msg).unwrap();
    assert_eq!(app.state, AppState::Normal);
    assert_eq!(app.todo_list.list_state.selected(), Some(1));
    let m = app.notification.msg.as_ref().unwrap();
    assert_eq!(m.message, "Entered normal mode");
}

#[test]
fn toggle_twice_restores_completion() {
    let mut app = App::new(vec![plain_todo("a")]);
    app.todo_list.toggle_finished().unwrap();
    assert!(app.todo_list.todos[0].metadata.finished);
    app.todo_list.toggle_finished().unwrap();
    assert!(!app.todo_list.todos[0].metadata.finished);
}

#[test]
fn toggle_on_recurring_is_refused_twice() {
    let mut recurring = plain_todo("water");
    recurring.metadata.recurring = true;
    let mut app = App::new(vec![recurring]);
    app.todo_list.toggle_finished().unwrap();
    assert!(!app.todo_list.todos[0].metadata.finished);
    app.todo_list.toggle_finished().unwrap();
    assert!(!app.todo_list.todos[0].metadata.finished);
    app.poll_flash_messages();
    let m = app.notification.msg.as_ref().unwrap();
    assert_eq!(m.message, "Can't mark recurring as finished");
    assert_eq!(m.level, MsgType::Warn);
}

#[test]
fn removing_the_only_todo_clears_the_selection() {
    let mut app = App::new(vec![plain_todo("only")]);
    assert_eq!(app.todo_list.list_state.selected(), Some(0));
    app.todo_list.remove_current().unwrap();
    assert_eq!(app.todo_list.todos.len(), 0);
    assert_eq!(app.todo_list.list_state.selected(), None);
    app.poll_flash_messages();
    assert_eq!(app.notification.msg.as_ref().unwrap().message, "Removed todo");
}

#[test]
fn removing_with_no_selection_reports() {
    let mut app = App::new(Vec::new());
    app.todo_list.remove_current().unwrap();
    app.poll_flash_messages();
    let m = app.notification.msg.as_ref().unwrap();
    assert_eq!(m.message, "No todo selected");
    assert_eq!(m.level, MsgType::Error);
}

#[test]
fn move_mode_swaps_neighbours() {
    let mut app = App::new(vec![plain_todo("a"), plain_todo("b"), plain_todo("c")]);
    let msg = app.handle_key(KeyAction::MoveMode).unwrap();
    app.apply_message(msg).unwrap();
    assert_eq!(app.state, AppState::Move);
    let msg = app.handle_key(KeyAction::MoveDown).unwrap();
    app.apply_message(msg).unwrap();
    assert_eq!(app.todo_list.todos[0].name, "b");
    assert_eq!(app.todo_list.todos[1].name, "a");
    assert_eq!(app.todo_list.list_state.selected(), Some(1));
    let msg = app.handle_key(KeyAction::Submit).unwrap();
    app.apply_message(msg).unwrap();
    assert_eq!(app.state, AppState::Normal);
}

#[test]
fn move_up_from_the_top_wraps_to_the_last() {
    let mut app = App::new(vec![plain_todo("a"), plain_todo("b"), plain_todo("c")]);
    let msg = app.handle_key(KeyAction::MoveMode).unwrap();
    app.apply_message(msg).unwrap();
    let msg = app.handle_key(KeyAction::MoveUp).unwrap();
    app.apply_message(msg).unwrap();
    assert_eq!(app.todo_list.todos[0].name, "c");
    assert_eq!(app.todo_list.todos[2].name, "a");
    assert_eq!(app.todo_list.list_state.selected(), Some(2));
}

#[test]
fn editing_replaces_in_place() {
    let mut app = App::new(vec![plain_todo("old name"), plain_todo("other")]);
    app.update_state(AppState::EditTodo).unwrap();
    assert_eq!(app.state, AppState::EditTodo);
    assert_eq!(app.todo_input.name, "old name");
    assert!(app.todo_input.is_editing_existing);
    app.todo_input.set_name(String::from("new name"));
    let msg = app.handle_key(KeyAction::Submit).unwrap();
    app.apply_message(msg).unwrap();
    assert_eq!(app.state, AppState::Normal);
    assert_eq!(app.todo_list.todos.len(), 2);
    assert_eq!(app.todo_list.todos[0].name, "new name");
    assert!(app.todo_list.todos[0].metadata.edited_at.is_some());
    assert_eq!(app.notification.msg.as_ref().unwrap().message, "Edited todo");
}

#[test]
fn cancelling_the_editor_discards_the_pending_todo() {
    let mut app = App::new(Vec::new());
    app.update_state(AppState::AddTodo).unwrap();
    app.todo_input.set_name(String::from("temp"));
    let msg = app.handle_key(KeyAction::Back).unwrap();
    app.apply_message(msg).unwrap();
    assert_eq!(app.state, AppState::Normal);
    assert_eq!(app.todo_list.todos.len(), 0);
    assert_eq!(app.todo_input.name, "");
}

#[test]
fn picking_a_due_date_lands_in_the_editor() {
    let mut app = App::new(Vec::new());
    app.update_state(AppState::AddTodo).unwrap();
    let msg = app.handle_key(KeyAction::OpenCalendar).unwrap();
    assert!(matches!(msg, AppMessage::InputState(AppState::DueDate)));
    app.apply_message(msg).unwrap();
    assert_eq!(app.state, AppState::DueDate);
    let msg = app.handle_key(KeyAction::Submit).unwrap();
    match &msg {
        AppMessage::SetDueDate(dt) => {
            assert!(dt.check());
        }
        _ => panic!("expected a picked due date"),
    }
    app.apply_message(msg).unwrap();
    assert_eq!(app.state, AppState::AddTodo);
    let due = app.todo_input.get_due_date().unwrap();
    assert!(due.check());
    let msg = app.handle_key(KeyAction::Submit).unwrap();
    app.apply_message(msg).unwrap();
    assert!(app.todo_list.todos[0].metadata.due_date.is_some());
}

#[test]
fn due_date_grid_steps_stay_inside_the_month() {
    let mut app = App::new(Vec::new());
    app.update_state(AppState::DueDate).unwrap();
    let num_days = app.due_date.calendar_state.num_days;
    let before = app.due_date.calendar_state.selected_day;
    let msg = app.handle_key(KeyAction::MoveRight).unwrap();
    app.apply_message(msg).unwrap();
    let after = app.due_date.calendar_state.selected_day;
    if before < num_days {
        assert_eq!(after, before + 1);
    } else {
        assert_eq!(after, before);
    }
    assert!(after >= 1 && after <= num_days);
}

#[test]
fn quit_key_quits() {
    let mut app = App::new(Vec::new());
    let msg = app.handle_key(KeyAction::Quit).unwrap();
    let sig = app.apply_message(msg).unwrap();
    assert_eq!(sig, LoopSignal::Quit);
}

#[test]
fn stale_replace_index_is_refused() {
    let mut app = App::new(vec![plain_todo("a")]);
    app.todo_list_action(tood::todo::ListAction::Replace(plain_todo("b"), 5));
    assert_eq!(app.todo_list.todos[0].name, "a");
    let m = app.notification.msg.as_ref().unwrap();
    assert_eq!(m.message, "Invalid selection");
    assert_eq!(m.level, MsgType::Error);
}

#[test]
fn todo_flag_flip_is_its_own_inverse() {
    let mut t = plain_todo("x");
    t.toggle_finished();
    assert!(t.metadata.finished);
    t.toggle_finished();
    assert!(!t.metadata.finished);
}


#[test]
fn due_date_returns_to_the_editor_it_was_opened_from() {
    // from the edit surface, both submit and cancel land back in EditTodo
    let mut app = App::new(vec![plain_todo("task")]);
    app.update_state(AppState::EditTodo).unwrap();
    assert_eq!(app.state, AppState::EditTodo);
    let msg = app.handle_key(KeyAction::OpenCalendar).unwrap();
    app.apply_message(msg).unwrap();
    assert_eq!(app.state, AppState::DueDate);
    let msg = app.handle_key(KeyAction::Submit).unwrap();
    app.apply_message(msg).unwrap();
    assert_eq!(app.state, AppState::EditTodo);
    assert_eq!(app.todo_input.name, "task");
    assert!(app.todo_input.get_due_date().is_some());

    let msg = app.handle_key(KeyAction::OpenCalendar).unwrap();
    app.apply_message(msg).unwrap();
    assert_eq!(app.state, AppState::DueDate);
    let msg = app.handle_key(KeyAction::Back).unwrap();
    app.apply_message(msg).unwrap();
    assert_eq!(app.state, AppState::EditTodo);
    assert_eq!(app.todo_input.name, "task");
}

#[test]
fn reentering_the_picker_prepopulates_from_the_pending_due() {
    let mut app = App::new(Vec::new());
    app.update_state(AppState::AddTodo).unwrap();
    // pick a day one step away from today so the re-entry is observable
    let msg = app.handle_key(KeyAction::OpenCalendar).unwrap();
    app.apply_message(msg).unwrap();
    let day = app.due_date.calendar_state.selected_day;
    let step = if day > 1 { KeyAction::MoveLeft } else { KeyAction::MoveRight };
    let msg = app.handle_key(step).unwrap();
    app.apply_message(msg).unwrap();
    let picked_day = app.due_date.calendar_state.selected_day;
    assert_ne!(picked_day, day);
    let msg = app.handle_key(KeyAction::Submit).unwrap();
    app.apply_message(msg).unwrap();
    assert_eq!(app.state, AppState::AddTodo);
    let due = app.todo_input.get_due_date().unwrap();
    assert_eq!(due.day as usize, picked_day);
    // the pickers were reset to today on leaving ...
    assert_eq!(app.due_date.calendar_state.selected_day, day);
    // ... and follow the pending due field when the picker reopens
    let msg = app.handle_key(KeyAction::OpenCalendar).unwrap();
    app.apply_message(msg).unwrap();
    assert_eq!(app.state, AppState::DueDate);
    assert_eq!(app.due_date.calendar_state.selected_day, picked_day);
    assert_eq!(app.due_date.time_picker_state.hour_minute().0, due.hour);
    assert_eq!(app.due_date.time_picker_state.hour_minute().1, due.minute);
}
