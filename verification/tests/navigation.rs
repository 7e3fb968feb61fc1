use kalk::nav::{
    is_ai_entry, picker_rows, ring_next, ring_previous, select_after_removal, select_first,
    select_last, select_next, select_previous, template_position, Focus,
};
use kalk::order::{move_down, move_up, remove_selected};

#[test]
fn focus_moves_between_panels() {
    assert_eq!(Focus::Courses.cycled(), Focus::Categories);
    assert_eq!(Focus::Categories.cycled(), Focus::Evaluations);
    assert_eq!(Focus::Evaluations.cycled(), Focus::Courses);
    assert_eq!(Focus::Courses.left(), Focus::Courses);
    assert_eq!(Focus::Evaluations.left(), Focus::Categories);
    assert_eq!(Focus::Categories.right(), Focus::Evaluations);
    assert_eq!(Focus::Evaluations.right(), Focus::Evaluations);
}

#[test]
fn selection_moves_and_stops_at_the_ends() {
    assert_eq!(select_next(None, 3), Some(0));
    assert_eq!(select_next(Some(0), 3), Some(1));
    assert_eq!(select_next(Some(2), 3), Some(2));
    assert_eq!(select_next(Some(7), 3), Some(2));
    assert_eq!(select_next(Some(0), 0), None);
    assert_eq!(select_previous(None, 3), Some(0));
    assert_eq!(select_previous(Some(2), 3), Some(1));
    assert_eq!(select_previous(Some(0), 3), Some(0));
    assert_eq!(select_previous(Some(1), 0), None);
    assert_eq!(select_next(Some(usize::MAX), usize::MAX), Some(usize::MAX - 1));
}

#[test]
fn first_last_and_after_removal() {
    assert_eq!(select_first(0), None);
    assert_eq!(select_first(4), Some(0));
    assert_eq!(select_last(0), None);
    assert_eq!(select_last(4), Some(3));
    assert_eq!(select_after_removal(1, 3), Some(1));
    assert_eq!(select_after_removal(3, 3), Some(2));
    assert_eq!(select_after_removal(0, 0), None);
}

#[test]
fn rings_wrap_both_ways() {
    assert_eq!(ring_next(2, 3), 0);
    assert_eq!(ring_next(0, 3), 1);
    assert_eq!(ring_next(5, 0), 5);
    assert_eq!(ring_previous(0, 3), 2);
    assert_eq!(ring_previous(2, 3), 1);
    assert_eq!(ring_previous(4, 0), 4);
    for count in 1..6 {
        for i in 0..count {
            assert_eq!(ring_previous(ring_next(i, count), count), i);
            assert_eq!(ring_next(ring_previous(i, count), count), i);
        }
    }
}

#[test]
fn template_picker_rows() {
    assert!(is_ai_entry(0));
    assert!(!is_ai_entry(1));
    assert_eq!(template_position(0), None);
    assert_eq!(template_position(3), Some(2));
    assert_eq!(picker_rows(8, 2), 11);
}

#[test]
fn moving_entries_up_and_down() {
    let mut v = vec!['a', 'b', 'c'];
    assert_eq!(move_up(&mut v, 0), 0);
    assert_eq!(v, vec!['a', 'b', 'c']);
    assert_eq!(move_up(&mut v, 2), 1);
    assert_eq!(v, vec!['a', 'c', 'b']);
    assert_eq!(move_down(&mut v, 1), 2);
    assert_eq!(v, vec!['a', 'b', 'c']);
    assert_eq!(move_down(&mut v, 2), 2);
    assert_eq!(v, vec!['a', 'b', 'c']);
}

#[test]
fn removing_keeps_at_least_one_entry() {
    let mut v = vec![1];
    assert_eq!(remove_selected(&mut v, 0), None);
    assert_eq!(v, vec![1]);
    let mut v = vec![1, 2, 3];
    assert_eq!(remove_selected(&mut v, 2), Some(1));
    assert_eq!(v, vec![1, 2]);
    assert_eq!(remove_selected(&mut v, 9), Some(0));
    assert_eq!(v, vec![1]);
    let mut v = vec![1, 2, 3];
    assert_eq!(remove_selected(&mut v, 0), Some(0));
    assert_eq!(v, vec![2, 3]);
}
