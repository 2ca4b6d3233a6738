use tood::app::{App, AppState};
use tood::datetime::DateTime;
use tood::todo::{Todo, TodoMetadata};

fn named_todo(name: &str) -> Todo {
    Todo {
        name: String::from(name),
        description: String::new(),
        metadata: TodoMetadata {
            added_at: DateTime { year: 2024, month: 6, day: 15, hour: 12, minute: 30 },
            edited_at: None,
            due_date: None,
            recurring: false,
            finished: false,
        },
    }
}

fn skim_app(names: &[&str]) -> App {
    let todos = names.iter().map(|n| named_todo(n)).collect::<Vec<_>>();
    let mut app = App::new(todos);
    app.update_state(AppState::Find).unwrap();
    app
}

#[test]
fn empty_query_keeps_all_candidates_in_index_order() {
    let mut app = skim_app(&["pay rent", "call mom", "walk dog"]);
    app.skimmer.set_input(String::new());
    let todos = app.todo_list.todos.clone();
    app.skimmer.skim(&todos);
    assert_eq!(app.skimmer.matches.len(), 3);
    assert_eq!(app.skimmer.matches[0].position, 0);
    assert_eq!(app.skimmer.matches[0].text, "pay rent");
    assert_eq!(app.skimmer.matches[1].position, 1);
    assert_eq!(app.skimmer.matches[2].position, 2);
    assert_eq!(app.skimmer.state.selected(), Some(0));
}

#[test]
fn ranking_same_input_twice_gives_the_same_result() {
    let mut app = skim_app(&["pay rent", "call mom", "walk dog"]);
    app.skimmer.set_input(String::from("al"));
    let todos = app.todo_list.todos.clone();
    app.skimmer.skim(&todos);
    let first: Vec<(String, usize)> = app
        .skimmer
        .matches
        .iter()
        .map(|m| (m.text.clone(), m.position))
        .collect();
    app.skimmer.skim(&todos);
    let second: Vec<(String, usize)> = app
        .skimmer
        .matches
        .iter()
        .map(|m| (m.text.clone(), m.position))
        .collect();
    assert_eq!(first, second);
}

#[test]
fn non_matching_candidates_are_dropped() {
    let mut app = skim_app(&["alpha", "beta", "gamma"]);
    app.skimmer.set_input(String::from("zzz"));
    let todos = app.todo_list.todos.clone();
    app.skimmer.skim(&todos);
    assert_eq!(app.skimmer.matches.len(), 0);
    assert_eq!(app.skimmer.state.selected(), None);
}

#[test]
fn closer_match_ranks_first() {
    let mut app = skim_app(&["xaxbxc", "abc"]);
    app.skimmer.set_input(String::from("abc"));
    let todos = app.todo_list.todos.clone();
    app.skimmer.skim(&todos);
    assert_eq!(app.skimmer.matches.len(), 2);
    assert_eq!(app.skimmer.matches[0].text, "abc");
    assert_eq!(app.skimmer.matches[0].position, 1);
    assert_eq!(app.skimmer.matches[1].text, "xaxbxc");
    assert_eq!(app.skimmer.matches[1].position, 0);
}

#[test]
fn matched_positions_point_at_the_query_characters() {
    let mut app = skim_app(&["buy milk"]);
    app.skimmer.set_input(String::from("milk"));
    let todos = app.todo_list.todos.clone();
    app.skimmer.skim(&todos);
    assert_eq!(app.skimmer.matches.len(), 1);
    assert_eq!(app.skimmer.matches[0].indices, vec![4, 5, 6, 7]);
}

#[test]
fn query_matches_as_a_subsequence() {
    let mut app = skim_app(&["water the plants"]);
    app.skimmer.set_input(String::from("wtp"));
    let todos = app.todo_list.todos.clone();
    app.skimmer.skim(&todos);
    assert_eq!(app.skimmer.matches.len(), 1);
    assert_eq!(app.skimmer.matches[0].position, 0);
}

#[test]
fn clearing_forgets_the_session() {
    let mut app = skim_app(&["a", "b"]);
    app.skimmer.set_input(String::from("a"));
    let todos = app.todo_list.todos.clone();
    app.skimmer.skim(&todos);
    assert!(app.skimmer.matches.len() >= 1);
    app.skimmer.clear();
    assert_eq!(app.skimmer.matches.len(), 0);
    assert_eq!(app.skimmer.input, "");
    assert_eq!(app.skimmer.state.selected(), None);
}

#[test]
fn equal_scores_keep_original_order() {
    let mut app = skim_app(&["same name", "same name", "same name"]);
    app.skimmer.set_input(String::from("same"));
    let todos = app.todo_list.todos.clone();
    app.skimmer.skim(&todos);
    assert_eq!(app.skimmer.matches.len(), 3);
    assert_eq!(app.skimmer.matches[0].position, 0);
    assert_eq!(app.skimmer.matches[1].position, 1);
    assert_eq!(app.skimmer.matches[2].position, 2);
}
