use renderkit::sequence::{checked_slice, get, get_signed, index, slice};

#[test]
fn get_finds_every_element_in_range() {
    let xs: [i32; 5] = [1, 2, 3, 4, 5];
    for i in 0..xs.len() {
        assert_eq!(get(&xs, i), Some(&xs[i]));
        assert_eq!(get(&xs, i), Some(index(&xs, i)));
    }
}

#[test]
fn get_is_absent_from_the_length_on() {
    let xs: [i32; 5] = [1, 2, 3, 4, 5];
    assert_eq!(get(&xs, 5), None);
    assert_eq!(get(&xs, 6), None);
    assert_eq!(get(&xs, usize::MAX), None);
}

#[test]
fn get_on_an_empty_sequence_is_absent() {
    let empty: [u32; 0] = [];
    assert_eq!(get(&empty, 0), None);
    assert_eq!(get_signed(&empty, 0), None);
}

#[test]
fn get_signed_is_absent_below_zero() {
    let xs: [i32; 5] = [1, 2, 3, 4, 5];
    assert_eq!(get_signed(&xs, -1), None);
    assert_eq!(get_signed(&xs, i64::MIN), None);
    assert_eq!(get_signed(&xs, 5), None);
    assert_eq!(get_signed(&xs, i64::MAX), None);
}

#[test]
fn get_signed_agrees_with_get_in_range() {
    let xs: [i32; 5] = [1, 2, 3, 4, 5];
    for i in 0..5usize {
        assert_eq!(get_signed(&xs, i as i64), get(&xs, i));
    }
}

#[test]
fn index_reads_the_element() {
    let xs: [i32; 5] = [1, 2, 3, 4, 5];
    assert_eq!(*index(&xs, 0), 1);
    assert_eq!(*index(&xs, 4), 5);
}

#[test]
fn slice_of_the_middle_of_five() {
    let xs: [i32; 5] = [1, 2, 3, 4, 5];
    let view: &[i32] = slice(&xs, 1, 4);
    assert_eq!(view.len(), 3);
    assert_eq!(view, &[2, 3, 4]);
    assert_eq!(get(view, 0), Some(&2));
    assert_eq!(get(view, 2), Some(&4));
    assert_eq!(get(view, 3), None);
}

#[test]
fn slice_of_the_whole_has_the_same_content() {
    let xs: [i32; 5] = [1, 2, 3, 4, 5];
    let view: &[i32] = slice(&xs, 0, xs.len());
    assert_eq!(view, &xs);
    let v: Vec<u8> = vec![9, 8, 7];
    assert_eq!(slice(&v, 0, v.len()), v.as_slice());
}

#[test]
fn slice_of_an_empty_range_is_empty() {
    let xs: [i32; 5] = [1, 2, 3, 4, 5];
    assert_eq!(slice(&xs, 0, 0).len(), 0);
    assert_eq!(slice(&xs, 3, 3).len(), 0);
    assert_eq!(slice(&xs, 5, 5).len(), 0);
}

#[test]
fn slice_of_a_slice_adds_the_offsets() {
    let ys: [i32; 500] = [0; 500];
    let view: &[i32] = slice(&ys, 1, 4);
    assert_eq!(view.len(), 3);
    let xs: [i32; 5] = [1, 2, 3, 4, 5];
    let inner: &[i32] = slice(slice(&xs, 1, 5), 1, 3);
    assert_eq!(inner, &[3, 4]);
}

#[test]
fn checked_slice_refuses_ranges_outside() {
    let xs: [i32; 5] = [1, 2, 3, 4, 5];
    assert_eq!(checked_slice(&xs, 3, 2), None);
    assert_eq!(checked_slice(&xs, 0, 6), None);
    assert_eq!(checked_slice(&xs, 6, 6), None);
    assert_eq!(checked_slice(&xs, usize::MAX, 0), None);
}

#[test]
fn checked_slice_agrees_with_slice_inside() {
    let xs: [i32; 5] = [1, 2, 3, 4, 5];
    assert_eq!(checked_slice(&xs, 1, 4), Some(slice(&xs, 1, 4)));
    assert_eq!(checked_slice(&xs, 5, 5), Some(slice(&xs, 5, 5)));
    assert_eq!(checked_slice(&xs, 0, 5), Some(&xs[..]));
}
