use fruit_salad::editor::{insert_at, remove_at, SaladError};

fn salad(names: &[&str]) -> Vec<String> {
    names.iter().map(|n| n.to_string()).collect()
}

#[test]
fn insert_mid_keeps_length_and_order() {
    let mut v = salad(&["a", "b", "c", "d"]);
    let r = insert_at(&mut v, 2, "x".to_string());
    assert_eq!(r, Ok(()));
    assert_eq!(v.len(), 5);
    assert_eq!(v, salad(&["a", "b", "x", "c", "d"]));
}

#[test]
fn insert_at_zero_prepends() {
    let mut v = salad(&["a", "b"]);
    assert_eq!(insert_at(&mut v, 0, "x".to_string()), Ok(()));
    assert_eq!(v, salad(&["x", "a", "b"]));
}

#[test]
fn insert_at_length_appends() {
    let mut v = salad(&["a", "b"]);
    assert_eq!(insert_at(&mut v, 2, "x".to_string()), Ok(()));
    assert_eq!(v, salad(&["a", "b", "x"]));
}

#[test]
fn insert_into_empty() {
    let mut v = salad(&[]);
    assert_eq!(insert_at(&mut v, 0, "x".to_string()), Ok(()));
    assert_eq!(v, salad(&["x"]));
}

#[test]
fn insert_past_length_is_out_of_range_and_leaves_salad_alone() {
    let mut v = salad(&["a", "b"]);
    assert_eq!(insert_at(&mut v, 3, "x".to_string()), Err(SaladError::OutOfRange));
    assert_eq!(v, salad(&["a", "b"]));
}

#[test]
fn remove_mid_returns_element_and_keeps_order() {
    let mut v = salad(&["a", "b", "c", "d"]);
    let r = remove_at(&mut v, 2);
    assert_eq!(r, Ok("c".to_string()));
    assert_eq!(v.len(), 3);
    assert_eq!(v, salad(&["a", "b", "d"]));
}

#[test]
fn remove_at_zero_removes_first() {
    let mut v = salad(&["a", "b", "c"]);
    assert_eq!(remove_at(&mut v, 0), Ok("a".to_string()));
    assert_eq!(v, salad(&["b", "c"]));
}

#[test]
fn remove_last_index() {
    let mut v = salad(&["a", "b", "c"]);
    assert_eq!(remove_at(&mut v, 2), Ok("c".to_string()));
    assert_eq!(v, salad(&["a", "b"]));
}

#[test]
fn remove_at_length_is_out_of_range_and_leaves_salad_alone() {
    let mut v = salad(&["a", "b"]);
    assert_eq!(remove_at(&mut v, 2), Err(SaladError::OutOfRange));
    assert_eq!(v, salad(&["a", "b"]));
}

#[test]
fn remove_from_empty_is_out_of_range() {
    let mut v = salad(&[]);
    assert_eq!(remove_at(&mut v, 0), Err(SaladError::OutOfRange));
    assert!(v.is_empty());
}

#[test]
fn insert_then_remove_round_trips() {
    let original = salad(&["a", "b", "c", "d", "e"]);
    for i in 0..=original.len() {
        let mut v = original.clone();
        assert_eq!(insert_at(&mut v, i, "mystery".to_string()), Ok(()));
        assert_eq!(v.len(), original.len() + 1);
        assert_eq!(v[i], "mystery".to_string());
        assert_eq!(remove_at(&mut v, i), Ok("mystery".to_string()));
        assert_eq!(v, original);
    }
}
