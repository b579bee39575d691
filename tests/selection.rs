use data_viewer::select::{MultipleSelectionListState, Select, StatefulList};

fn labels(items: &[&str]) -> Vec<String> {
    items.iter().map(|s| s.to_string()).collect()
}

fn sorted_marks(s: &MultipleSelectionListState) -> Vec<usize> {
    let mut v: Vec<usize> = s.marked().cloned().collect();
    v.sort();
    v
}

#[test]
fn mark_unmark_toggle_and_clear() {
    let mut s = MultipleSelectionListState::new();
    s.mark(Some(3));
    s.mark(None);
    assert!(s.contains(3));
    assert!(!s.contains(2));
    s.toggle(Some(2));
    assert_eq!(sorted_marks(&s), vec![2, 3]);
    s.toggle(Some(3));
    assert_eq!(sorted_marks(&s), vec![2]);
    s.unmark(Some(2));
    s.unmark(None);
    assert!(sorted_marks(&s).is_empty());
    s.mark(Some(7));
    s.clear();
    assert!(!s.contains(7));
}

#[test]
fn sorted_lists_marks_ascending() {
    let mut s = MultipleSelectionListState::default();
    for i in [9usize, 1, 5, 3] {
        s.mark(Some(i));
    }
    assert_eq!(s.sorted(), vec![1, 3, 5, 9]);
}

#[test]
fn toggle_all_flips_each_mark() {
    let mut l = StatefulList::with_items(labels(&["a", "b", "c", "d"]));
    l.multiple_selection_state.mark(Some(0));
    l.multiple_selection_state.mark(Some(2));
    l.toggle_all();
    assert_eq!(l.selected(), vec![1, 3]);
}

#[test]
fn selected_marks_first_when_empty() {
    let mut l = StatefulList::with_items(labels(&["a", "b"]));
    assert_eq!(l.selected(), vec![0]);
    assert!(l.multiple_selection_state.contains(0));
}

#[test]
fn mark_all_and_unmark_all() {
    let mut l = StatefulList::with_items(labels(&["a", "b", "c"]));
    l.mark_all();
    assert_eq!(l.selected(), vec![0, 1, 2]);
    l.unmark_all();
    assert!(l.multiple_selection_state.sorted().is_empty());
}

#[test]
fn list_cursor_wraps() {
    let mut l = StatefulList::with_items(labels(&["a", "b", "c"]));
    l.next();
    assert_eq!(l.cursor, Some(0));
    l.previous();
    assert_eq!(l.cursor, Some(2));
    l.next();
    assert_eq!(l.cursor, Some(0));
    l.next();
    assert_eq!(l.cursor, Some(1));
    l.toggle();
    assert_eq!(l.selected(), vec![1]);
}

#[test]
fn empty_list_cursor_stays_at_zero() {
    let mut l = StatefulList::with_items(Vec::new());
    l.previous();
    assert_eq!(l.cursor, Some(0));
    l.next();
    assert_eq!(l.cursor, Some(0));
}

#[test]
fn select_keeps_marks_of_other_dimensions() {
    let mut s = Select::new();
    s.refresh(vec![labels(&["a", "b"]), labels(&["x", "y", "z", "w"])], labels(&["first", "second"]));
    s.init();
    assert_eq!(s.active_sets_state[0].selected(), vec![0, 1]);
    s.next_set();
    assert_eq!(s.current_set, 1);
    s.toggle_all();
    assert!(s.active_sets_state[1].multiple_selection_state.sorted().is_empty());
    s.toggle();
    assert_eq!(s.active_sets_state[1].multiple_selection_state.sorted(), vec![0]);
    s.next_element();
    assert_eq!(s.active_sets_state[1].cursor, Some(1));
    s.previous_element();
    s.previous_element();
    assert_eq!(s.active_sets_state[1].cursor, Some(3));
    s.next_set();
    assert_eq!(s.current_set, 0);
    s.previous_set();
    assert_eq!(s.current_set, 1);
    assert_eq!(s.active_sets_state[0].selected(), vec![0, 1]);
}
