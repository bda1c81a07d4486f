use arrayvec::ArrayVec;
use arrayvec::SliceVec;

#[test]
fn fresh_container_is_empty() {
    let v = ArrayVec::<u64, 5>::new();
    assert_eq!(v.len(), 0);
    assert_eq!(v.capacity(), 5);
    assert!(v.is_empty());
}

#[test]
fn fresh_view_container_is_empty() {
    let v = SliceVec::<u32>::with_capacity(7);
    assert_eq!(v.len(), 0);
    assert_eq!(v.capacity(), 7);
    assert!(v.is_empty());
}

#[test]
fn try_push_fills_up_to_capacity() {
    let mut v = ArrayVec::<u64, 3>::new();
    assert!(v.try_push(10).is_ok());
    assert!(v.try_push(20).is_ok());
    assert!(v.try_push(30).is_ok());
    assert_eq!(v.len(), 3);
    assert_eq!(v.get(0), Some(&10));
    assert_eq!(v.get(1), Some(&20));
    assert_eq!(v.get(2), Some(&30));
}

#[test]
fn try_push_on_full_container_fails_and_changes_nothing() {
    let mut v = ArrayVec::<u64, 3>::new();
    v.push(10);
    v.push(20);
    v.push(30);
    let err = v.try_push(40).unwrap_err();
    assert_eq!(err.missing_capacity, 1);
    assert_eq!(err.item, 40);
    assert_eq!(v.len(), 3);
    assert_eq!(v.get(0), Some(&10));
    assert_eq!(v.get(1), Some(&20));
    assert_eq!(v.get(2), Some(&30));
}

#[test]
fn try_push_on_zero_capacity_container_fails() {
    let mut v = ArrayVec::<u64, 0>::new();
    assert_eq!(v.capacity(), 0);
    let err = v.try_push(1).unwrap_err();
    assert_eq!(err.missing_capacity, 1);
    assert_eq!(err.item, 1);
    assert!(v.is_empty());
}

#[test]
fn pop_is_lifo() {
    let mut v = ArrayVec::<u64, 4>::new();
    v.push(1);
    v.push(2);
    v.push(3);
    assert_eq!(v.pop(), Some(3));
    assert_eq!(v.len(), 2);
    assert_eq!(v.pop(), Some(2));
    assert_eq!(v.pop(), Some(1));
    assert_eq!(v.pop(), None);
    assert!(v.is_empty());
}

#[test]
fn pop_on_empty_returns_none() {
    let mut v = ArrayVec::<u64, 4>::new();
    assert_eq!(v.pop(), None);
    assert_eq!(v.len(), 0);
}

#[test]
fn push_again_after_pop_succeeds() {
    let mut v = ArrayVec::<u64, 2>::new();
    v.push(1);
    v.push(2);
    assert!(v.try_push(3).is_err());
    assert_eq!(v.pop(), Some(2));
    assert!(v.try_push(4).is_ok());
    assert_eq!(v.get(1), Some(&4));
}

#[test]
fn truncate_above_length_is_a_noop() {
    let mut v = ArrayVec::<u64, 4>::new();
    v.push(1);
    v.push(2);
    v.truncate(2);
    assert_eq!(v.len(), 2);
    v.truncate(10);
    assert_eq!(v.len(), 2);
    assert_eq!(v.get(0), Some(&1));
    assert_eq!(v.get(1), Some(&2));
}

#[test]
fn truncate_below_length_shrinks() {
    let mut v = ArrayVec::<u64, 4>::new();
    v.push(1);
    v.push(2);
    v.push(3);
    v.truncate(1);
    assert_eq!(v.len(), 1);
    assert_eq!(v.get(0), Some(&1));
    assert_eq!(v.get(1), None);
}

#[test]
fn clear_empties_the_container() {
    let mut v = ArrayVec::<u64, 4>::new();
    v.push(1);
    v.push(2);
    v.clear();
    assert_eq!(v.len(), 0);
    assert!(v.is_empty());
    assert_eq!(v.capacity(), 4);
    assert_eq!(v.get(0), None);
}

#[test]
fn get_is_limited_to_the_logical_prefix() {
    let mut v = ArrayVec::<u64, 4>::new();
    v.push(1);
    assert_eq!(v.get(0), Some(&1));
    assert_eq!(v.get(1), None);
    assert_eq!(v.get(3), None);
}

#[test]
fn set_overwrites_in_place() {
    let mut v = ArrayVec::<u64, 4>::new();
    v.push(1);
    v.push(2);
    v.set(0, 9);
    assert_eq!(v.get(0), Some(&9));
    assert_eq!(v.get(1), Some(&2));
    assert_eq!(v.len(), 2);
}

#[test]
fn view_container_supports_the_same_operations() {
    let mut v = SliceVec::<u64>::with_capacity(2);
    assert!(v.try_push(5).is_ok());
    v.push(6);
    let err = v.try_push(7).unwrap_err();
    assert_eq!(err.missing_capacity, 1);
    assert_eq!(err.item, 7);
    assert_eq!(v.pop(), Some(6));
    v.set(0, 8);
    assert_eq!(v.get(0), Some(&8));
    v.clear();
    assert!(v.is_empty());
    assert_eq!(v.capacity(), 2);
}

#[test]
fn owning_container_exposes_its_view_form() {
    let mut v = ArrayVec::<u64, 3>::new();
    v.push(1);
    v.push(2);
    let view = v.as_view();
    assert_eq!(view.len(), 2);
    assert_eq!(view.capacity(), 3);
    assert_eq!(view.get(0), Some(&1));
    assert_eq!(view.get(1), Some(&2));
}

#[test]
fn scenario_capacity_three() {
    let mut v = ArrayVec::<u64, 3>::new();
    v.push(1);
    v.push(2);
    v.push(3);
    assert_eq!(v.len(), 3);
    let err = v.try_push(4).unwrap_err();
    assert_eq!(err.missing_capacity, 1);
    assert_eq!(err.item, 4);
    assert_eq!(v.pop(), Some(3));
    assert_eq!(v.len(), 2);
    v.truncate(1);
    assert_eq!(v.len(), 1);
    assert_eq!(v.get(0), Some(&1));
    v.clear();
    assert_eq!(v.len(), 0);
    assert!(v.is_empty());
}
