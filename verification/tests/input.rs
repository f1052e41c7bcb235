use commit_browser::input::{Key, Status};
use commit_browser::record::{load_history, RawRecord};
use commit_browser::state::AppData;

fn app_with(rows: usize) -> AppData {
    let walked: Vec<RawRecord> = (0..rows)
        .map(|i| RawRecord {
            id: format!("{i:040x}"),
            author: Some(format!("author {i}")),
            time: 1_000 - i as i64,
            message: Some(format!("commit {i}")),
        })
        .collect();
    AppData::new(load_history(&walked))
}

#[test]
fn down_walks_the_rows_and_wraps() {
    let mut app = app_with(3);
    assert_eq!(app.index(), 0);
    assert_eq!(app.items().selected(), None);
    assert_eq!(app.handle_key(Key::Down), Status::Running);
    assert_eq!(app.items().selected(), Some(0));
    app.handle_key(Key::Down);
    app.handle_key(Key::Down);
    assert_eq!(app.items().selected(), Some(2));
    app.handle_key(Key::Down);
    assert_eq!(app.items().selected(), Some(0));
}

#[test]
fn up_walks_the_rows_backwards() {
    let mut app = app_with(3);
    app.handle_key(Key::Up);
    assert_eq!(app.items().selected(), Some(0));
    app.handle_key(Key::Up);
    assert_eq!(app.items().selected(), Some(2));
    app.handle_key(Key::Up);
    assert_eq!(app.items().selected(), Some(1));
}

#[test]
fn right_three_times_comes_back_to_the_first_pane() {
    let mut app = app_with(3);
    app.handle_key(Key::Right);
    assert_eq!(app.index(), 1);
    app.handle_key(Key::Right);
    assert_eq!(app.index(), 2);
    app.handle_key(Key::Right);
    assert_eq!(app.index(), 0);
}

#[test]
fn left_from_the_first_pane_goes_to_the_last() {
    let mut app = app_with(3);
    assert_eq!(app.handle_key(Key::Left), Status::Running);
    assert_eq!(app.index(), 2);
    app.handle_key(Key::Left);
    assert_eq!(app.index(), 1);
}

#[test]
fn q_ends_the_session_and_changes_nothing() {
    let mut app = app_with(3);
    app.handle_key(Key::Down);
    app.handle_key(Key::Right);
    assert_eq!(app.handle_key(Key::Char('q')), Status::Terminated);
    assert_eq!(app.index(), 1);
    assert_eq!(app.items().selected(), Some(0));
}

#[test]
fn other_keys_change_nothing() {
    let mut app = app_with(3);
    app.handle_key(Key::Down);
    app.handle_key(Key::Down);
    app.handle_key(Key::Right);
    for key in [Key::Other, Key::Char('x'), Key::Char('Q'), Key::Char(' ')] {
        assert_eq!(app.handle_key(key), Status::Running);
        assert_eq!(app.index(), 1);
        assert_eq!(app.items().selected(), Some(1));
    }
}

#[test]
fn rows_do_not_move_on_a_placeholder_pane() {
    let mut app = app_with(3);
    app.handle_key(Key::Down);
    app.handle_key(Key::Right);
    app.handle_key(Key::Down);
    app.handle_key(Key::Up);
    app.handle_key(Key::Up);
    assert_eq!(app.items().selected(), Some(0));
    app.handle_key(Key::Left);
    app.handle_key(Key::Down);
    assert_eq!(app.items().selected(), Some(1));
}

#[test]
fn cursor_outlives_a_trip_through_the_panes() {
    let mut app = app_with(5);
    for _ in 0..4 {
        app.handle_key(Key::Down);
    }
    assert_eq!(app.items().selected(), Some(3));
    for key in [Key::Right, Key::Right, Key::Left, Key::Right, Key::Right] {
        app.handle_key(key);
        assert_eq!(app.items().selected(), Some(3));
    }
    assert_eq!(app.index(), 0);
}

#[test]
fn no_key_puts_a_cursor_on_an_empty_history() {
    let mut app = app_with(0);
    for key in [Key::Down, Key::Up, Key::Down, Key::Right, Key::Down, Key::Left, Key::Up] {
        app.handle_key(key);
        assert_eq!(app.items().selected(), None);
    }
}

#[test]
fn some_pane_is_active_after_any_keys() {
    let mut app = app_with(2);
    let keys = [Key::Left, Key::Left, Key::Right, Key::Up, Key::Left, Key::Left, Key::Other, Key::Right];
    for round in 0..5 {
        for key in keys.iter().skip(round) {
            app.handle_key(*key);
            assert!(app.index() < 3);
        }
    }
}
