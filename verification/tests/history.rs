use auravibe::history::History;

#[test]
fn push_after_back_truncates_the_forward_branch() {
    let mut h = History::new(10);
    h.push(0);
    h.push(1);
    h.push(2);
    assert_eq!(h.back(), Some(1));
    h.push(3);
    assert!(!h.can_go_forward());
    assert_eq!(h.current(), Some(3));
    assert_eq!(h.back(), Some(1));
    assert_eq!(h.back(), Some(0));
}

#[test]
fn pushing_the_page_under_the_cursor_after_back_drops_the_forward_branch() {
    let mut h = History::new(10);
    h.push(0);
    h.push(1);
    assert_eq!(h.back(), Some(0));
    h.push(0);
    assert_eq!(h.current(), Some(0));
    assert_eq!(h.forward(), None);
}

#[test]
fn consecutive_duplicates_collapse_but_a_b_a_is_kept() {
    let mut h = History::new(10);
    h.push(0);
    h.push(0);
    assert!(!h.can_go_back());
    h.push(1);
    h.push(0);
    assert_eq!(h.back(), Some(1));
    assert_eq!(h.back(), Some(0));
}

#[test]
fn back_at_start_and_forward_at_end_are_none() {
    let mut h = History::new(10);
    assert_eq!(h.back(), None);
    h.push(0);
    assert_eq!(h.forward(), None);
    assert!(!h.can_go_back());
    assert!(!h.can_go_forward());
}

#[test]
fn history_is_bounded() {
    let mut h = History::new(3);
    for i in 0..10 {
        h.push(i);
    }
    assert_eq!(h.current(), Some(9));
    assert_eq!(h.back(), Some(8));
    assert_eq!(h.back(), Some(7));
    assert_eq!(h.back(), None);
}

#[test]
fn replace_swaps_the_current_entry() {
    let mut h = History::new(10);
    h.replace(5);
    assert_eq!(h.current(), Some(5));
    h.push(1);
    h.replace(2);
    assert_eq!(h.current(), Some(2));
    assert_eq!(h.back(), Some(5));
    assert_eq!(h.forward(), Some(2));
    // Replacing with the previous entry collapses the duplicate.
    h.replace(5);
    assert_eq!(h.current(), Some(5));
    assert!(!h.can_go_back());
}

#[test]
fn a_zero_length_history_keeps_one_entry_in_release() {
    let mut h = History::new(0);
    h.push(1);
    h.push(2);
    assert_eq!(h.current(), Some(2));
    assert!(!h.can_go_back());
}

#[test]
fn pushing_a_page_twice_records_it_once() {
    let mut h = History::new(4);
    h.push(3);
    h.push(3);
    assert_eq!(h.len(), 1);
    assert_eq!(h.capacity(), 4);
}

#[test]
fn a_full_history_forgets_the_oldest_entry() {
    let mut h = History::new(2);
    h.push(1);
    h.push(2);
    h.push(3);
    assert_eq!(h.len(), 2);
    assert_eq!(h.back(), Some(2));
    assert_eq!(h.back(), None);
    assert_eq!(h.forward(), Some(3));
}

#[test]
fn replace_after_back_discards_the_forward_branch() {
    let mut h = History::new(10);
    h.push(0);
    h.push(1);
    h.push(2);
    assert_eq!(h.back(), Some(1));
    h.replace(7);
    assert_eq!(h.current(), Some(7));
    assert!(!h.can_go_forward());
    assert_eq!(h.len(), 2);
}

#[test]
fn back_then_forward_returns_to_the_same_entry() {
    let mut h = History::new(10);
    h.push(4);
    h.push(5);
    assert_eq!(h.back(), Some(4));
    assert_eq!(h.forward(), Some(5));
    assert_eq!(h.current(), Some(5));
}
