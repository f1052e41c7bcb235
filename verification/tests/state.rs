use commit_browser::list::StatefulList;
use commit_browser::record::HistoryRecord;
use commit_browser::state::{split_title, AppData, PaneContent};

fn three_records() -> StatefulList<HistoryRecord> {
    let records = ["A", "B", "C"]
        .iter()
        .map(|id| HistoryRecord::new(id.to_string(), "someone".to_string(), 0, "msg".to_string()))
        .collect();
    StatefulList::with_items(records)
}

#[test]
fn fresh_state_has_three_panes_and_the_first_is_active() {
    let app = AppData::new(three_records());
    assert_eq!(app.titles(), &vec!["commit logs".to_string(), "TBD".to_string(), "TBD".to_string()]);
    assert_eq!(app.index(), 0);
    assert_eq!(app.items().len(), 3);
    assert_eq!(app.items().selected(), None);
}

#[test]
fn next_pane_goes_round() {
    let mut app = AppData::new(three_records());
    app.next();
    assert_eq!(app.index(), 1);
    app.next();
    assert_eq!(app.index(), 2);
    app.next();
    assert_eq!(app.index(), 0);
}

#[test]
fn previous_pane_goes_round() {
    let mut app = AppData::new(three_records());
    app.previous();
    assert_eq!(app.index(), 2);
    app.previous();
    assert_eq!(app.index(), 1);
    app.previous();
    assert_eq!(app.index(), 0);
}

#[test]
fn active_pane_stays_in_range() {
    let mut app = AppData::new(three_records());
    for step in 0..50 {
        if step % 3 == 0 {
            app.previous();
        } else {
            app.next();
        }
        assert!(app.index() < app.titles().len());
    }
}

#[test]
fn switching_panes_keeps_the_cursor() {
    let mut app = AppData::new(three_records());
    app.select_next();
    app.select_next();
    assert_eq!(app.items().selected(), Some(1));
    app.next();
    assert_eq!(app.items().selected(), Some(1));
    app.next();
    assert_eq!(app.items().selected(), Some(1));
    app.previous();
    app.previous();
    assert_eq!(app.index(), 0);
    assert_eq!(app.items().selected(), Some(1));
}

#[test]
fn rows_move_only_while_the_history_is_shown() {
    let mut app = AppData::new(three_records());
    app.select_next();
    assert_eq!(app.items().selected(), Some(0));
    app.next();
    app.select_next();
    app.select_previous();
    app.select_previous();
    assert_eq!(app.items().selected(), Some(0));
    app.previous();
    app.select_previous();
    assert_eq!(app.items().selected(), Some(2));
}

#[test]
fn only_the_first_pane_shows_the_history() {
    let mut app = AppData::new(three_records());
    match app.content() {
        PaneContent::History(list) => assert_eq!(list.len(), 3),
        PaneContent::Placeholder => panic!("the first pane shows the history"),
    }
    app.next();
    assert!(matches!(app.content(), PaneContent::Placeholder));
    app.next();
    assert!(matches!(app.content(), PaneContent::Placeholder));
    app.next();
    assert!(matches!(app.content(), PaneContent::History(_)));
}

#[test]
fn title_is_split_after_its_first_character() {
    assert_eq!(split_title("commit logs"), ("c", "ommit logs"));
    assert_eq!(split_title("TBD"), ("T", "BD"));
    assert_eq!(split_title("x"), ("x", ""));
}

#[test]
fn empty_title_splits_into_two_empty_parts() {
    assert_eq!(split_title(""), ("", ""));
}

#[test]
fn title_that_starts_with_a_wide_character_is_split_after_it() {
    assert_eq!(split_title("écrit"), ("é", "crit"));
}
