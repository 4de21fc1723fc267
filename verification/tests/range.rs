use hoshi::utils::range::{range_from, Range};

#[test]
fn merge_takes_start_of_left_and_end_of_right() {
    let left = Range::new(2, 5);
    let right = Range::new(7, 11);
    assert_eq!(range_from(&left, &right), Range { start: 2, end: 11 });
}

#[test]
fn merge_of_touching_ranges() {
    assert_eq!(range_from(&Range::new(0, 4), &Range::new(4, 4)), Range { start: 0, end: 4 });
    assert_eq!(range_from(&Range::new(3, 3), &Range::new(3, 3)), Range { start: 3, end: 3 });
}

#[test]
fn merge_does_not_reorder_its_arguments() {
    let early = Range::new(1, 2);
    let late = Range::new(8, 9);
    assert_eq!(range_from(&late, &early), Range { start: 8, end: 2 });
}

#[test]
fn merge_of_a_range_with_one_inside_it() {
    assert_eq!(range_from(&Range::new(0, 10), &Range::new(5, 10)), Range { start: 0, end: 10 });
}
