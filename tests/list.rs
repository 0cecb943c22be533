use logbook::error::StatefulListStateInfoError;
use logbook::list::StatefulList;

fn list_of(names: &[&str]) -> StatefulList<String> {
    let mut list = StatefulList::new();
    for name in names {
        list.add_item(name.to_string());
    }
    list
}

#[test]
fn next_from_nothing_selects_first() {
    let mut list = list_of(&["Linux", "Todo", "logbook"]);
    assert_eq!(list.selected(), None);
    assert_eq!(list.next(), Ok(()));
    assert_eq!(list.selected(), Some(0));
}

#[test]
fn next_full_cycle_returns_to_first() {
    let mut list = list_of(&["Linux", "Todo", "logbook"]);
    list.next().unwrap();
    assert_eq!(list.selected(), Some(0));
    let mut seen = Vec::new();
    for _ in 0..3 {
        list.next().unwrap();
        seen.push(list.selected());
    }
    assert_eq!(seen, vec![Some(1), Some(2), Some(0)]);
}

#[test]
fn next_full_cycle_single_item() {
    let mut list = list_of(&["only"]);
    list.selected = Some(0);
    list.next().unwrap();
    assert_eq!(list.selected(), Some(0));
}

#[test]
fn previous_from_nothing_selects_first() {
    let mut list = list_of(&["a", "b", "c"]);
    assert_eq!(list.previous(), Ok(()));
    assert_eq!(list.selected(), Some(0));
}

#[test]
fn previous_wraps_to_last() {
    let mut list = list_of(&["a", "b", "c"]);
    list.previous().unwrap();
    list.previous().unwrap();
    assert_eq!(list.selected(), Some(2));
    list.previous().unwrap();
    assert_eq!(list.selected(), Some(1));
}

#[test]
fn previous_on_empty_list_with_selection_fails_and_keeps_it() {
    let mut list: StatefulList<String> = StatefulList::new();
    list.selected = Some(0);
    assert_eq!(list.previous(), Err(StatefulListStateInfoError));
    assert_eq!(list.selected(), Some(0));
}

#[test]
fn next_on_empty_list_with_selection_fails_and_keeps_it() {
    let mut list: StatefulList<String> = StatefulList::new();
    list.selected = Some(0);
    assert_eq!(list.next(), Err(StatefulListStateInfoError));
    assert_eq!(list.selected(), Some(0));
    assert!(list.items.is_empty());
}

#[test]
fn first_move_on_empty_list_selects_start() {
    let mut list: StatefulList<String> = StatefulList::new();
    assert_eq!(list.previous(), Ok(()));
    assert_eq!(list.selected(), Some(0));
}

#[test]
fn add_item_appends_and_keeps_selection() {
    let mut list = list_of(&["a"]);
    list.next().unwrap();
    list.add_item("b".to_string());
    assert_eq!(list.items, vec!["a".to_string(), "b".to_string()]);
    assert_eq!(list.selected(), Some(0));
}

#[test]
fn movement_error_message() {
    assert_eq!(StatefulListStateInfoError.message(), "Error in Statefullist");
}
