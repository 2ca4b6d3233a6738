use tood::app::App;
use tood::hints::{BarType, Hint, HintBar};
use tood::paragraph::{ParagraphState, ScrollPos, ScrollSelection};

#[test]
fn hint_width_counts_name_bind_and_brackets() {
    // rendered as "Up [k]": 2 + 1 + 3 characters
    let h = Hint::new(String::from("Up"), String::from("k"));
    assert_eq!(h.len(), 6);
    let wide = Hint::new(String::from("Toggle"), String::from("space"));
    assert_eq!(wide.len(), 14);
}

#[test]
fn hint_bar_wraps_onto_more_rows_when_narrow() {
    let hints = vec![
        Hint::new(String::from("Up"), String::from("k")),
        Hint::new(String::from("Down"), String::from("j")),
    ];
    let bar = HintBar::new(hints);
    // both hints fit a wide frame on one row
    assert_eq!(bar.height_required(40, 5), 1);
    // the second hint does not fit 10 columns and wraps
    assert_eq!(bar.height_required(10, 5), 2);
    // the cap stops the layout from growing
    assert_eq!(bar.height_required(1, 2), 2);
}

#[test]
fn mode_changes_pick_the_matching_hint_bar() {
    let mut app = App::new(Vec::new());
    assert_eq!(app.todo_list.hintbar, BarType::Normal);
    app.update_state(tood::app::AppState::Find).unwrap();
    assert_eq!(app.todo_list.hintbar, BarType::Find);
    app.update_state(tood::app::AppState::Normal).unwrap();
    assert_eq!(app.todo_list.hintbar, BarType::Normal);
}

#[test]
fn description_scroll_clamps_to_the_text() {
    let mut app = App::new(Vec::new());
    app.todo_list.paragraph_state = ParagraphState::new(ScrollPos::new(0, 0), 10, 4);
    app.todo_list.scroll_desc(ScrollSelection::Down);
    assert_eq!(app.todo_list.paragraph_state.scroll().y, 1);
    app.todo_list.scroll_desc(ScrollSelection::PageDown);
    assert_eq!(app.todo_list.paragraph_state.scroll().y, 3);
    app.todo_list.scroll_desc(ScrollSelection::End);
    assert_eq!(app.todo_list.paragraph_state.scroll().y, 8);
    app.todo_list.scroll_desc(ScrollSelection::Down);
    assert_eq!(app.todo_list.paragraph_state.scroll().y, 8);
    app.todo_list.scroll_desc(ScrollSelection::Top);
    assert_eq!(app.todo_list.paragraph_state.scroll().y, 0);
    app.todo_list.scroll_desc(ScrollSelection::Up);
    assert_eq!(app.todo_list.paragraph_state.scroll().y, 0);
}
