use notes_core::list::StatefulList;

fn three_items() -> Vec<String> {
    vec![String::from("a"), String::from("b"), String::from("c")]
}

#[test]
fn next_full_cycle_returns_to_start() {
    // Wraparound closure: length forward steps end where they began.
    let mut l = StatefulList::new(three_items(), true);
    assert_eq!(l.get_current_index(), Some(0));
    l.next();
    l.next();
    l.next();
    assert_eq!(l.get_current_index(), Some(0));

    let mut m = StatefulList::new(three_items(), true);
    m.next();
    assert_eq!(m.get_current_index(), Some(1));
    m.next();
    m.next();
    m.next();
    assert_eq!(m.get_current_index(), Some(1));
}

#[test]
fn next_then_previous_is_identity() {
    let mut l = StatefulList::new(three_items(), true);
    l.next();
    l.previous();
    assert_eq!(l.get_current_index(), Some(0));
    l.previous();
    l.next();
    assert_eq!(l.get_current_index(), Some(0));
}

#[test]
fn wraparound_at_both_ends() {
    let mut l = StatefulList::new(three_items(), true);
    l.previous();
    assert_eq!(l.get_current_index(), Some(2));
    l.next();
    assert_eq!(l.get_current_index(), Some(0));
}

#[test]
fn unset_cursor_reads_first_item() {
    // Fresh model without select-first: reads default to index 0 while the
    // raw cursor stays unset.
    let l = StatefulList::new(three_items(), false);
    assert_eq!(l.get_current_index(), None);
    assert_eq!(l.get_current(), "a");
}

#[test]
fn unset_cursor_moves_to_first_in_both_directions() {
    let mut l = StatefulList::new(three_items(), false);
    l.previous();
    assert_eq!(l.get_current_index(), Some(0));

    let mut m = StatefulList::new(three_items(), false);
    m.next();
    assert_eq!(m.get_current_index(), Some(0));
}

#[test]
fn replacing_items_resets_the_cursor() {
    let mut l = StatefulList::new(three_items(), true);
    l.next();
    l.set_items(vec![String::from("x"), String::from("y")]);
    assert_eq!(l.get_current_index(), None);
    assert_eq!(l.items(), &vec![String::from("x"), String::from("y")]);
}

#[test]
fn replacing_items_with_index_keeps_a_selection() {
    let mut l = StatefulList::new(three_items(), false);
    l.set_items_with_index(three_items(), 2);
    assert_eq!(l.get_current_index(), Some(2));
    assert_eq!(l.get_current(), "c");
}

#[test]
fn unselect_drops_the_highlight_but_not_the_items() {
    let mut l = StatefulList::new(three_items(), true);
    l.unselect();
    assert_eq!(l.get_current_index(), None);
    assert_eq!(l.items().len(), 3);
}
