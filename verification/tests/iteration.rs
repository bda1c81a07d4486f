use arrayvec::ArrayVec;

#[test]
fn consuming_round_trip_in_push_order() {
    let mut v = ArrayVec::<u64, 5>::new();
    v.push(1);
    v.push(2);
    v.push(3);
    let mut it = v.into_iter();
    assert_eq!(it.size_hint(), (3, Some(3)));
    assert_eq!(it.next(), Some(1));
    assert_eq!(it.size_hint(), (2, Some(2)));
    assert_eq!(it.next(), Some(2));
    assert_eq!(it.size_hint(), (1, Some(1)));
    assert_eq!(it.next(), Some(3));
    assert_eq!(it.size_hint(), (0, Some(0)));
    assert_eq!(it.next(), None);
}

#[test]
fn consuming_iterator_stays_exhausted() {
    let mut v = ArrayVec::<u64, 2>::new();
    v.push(7);
    let mut it = v.into_iter();
    assert_eq!(it.next(), Some(7));
    assert_eq!(it.next(), None);
    assert_eq!(it.next(), None);
    assert_eq!(it.size_hint(), (0, Some(0)));
}

#[test]
fn consuming_an_empty_container_yields_nothing() {
    let v = ArrayVec::<u64, 3>::new();
    let mut it = v.into_iter();
    assert_eq!(it.size_hint(), (0, Some(0)));
    assert_eq!(it.next(), None);
}

#[test]
fn borrowing_iteration_yields_in_order() {
    let mut v = ArrayVec::<u64, 4>::new();
    v.push(10);
    v.push(20);
    v.push(30);
    let mut it = v.iter();
    assert_eq!(it.next(), Some(&10));
    assert_eq!(it.next(), Some(&20));
    assert_eq!(it.next(), Some(&30));
    assert_eq!(it.next(), None);
}

#[test]
fn borrowing_iteration_is_repeatable() {
    let mut v = ArrayVec::<u64, 4>::new();
    v.push(10);
    v.push(20);
    v.push(30);
    let mut first_pass = Vec::new();
    let mut it = v.iter();
    while let Some(x) = it.next() {
        first_pass.push(*x);
    }
    let mut second_pass = Vec::new();
    let mut it = v.iter();
    while let Some(x) = it.next() {
        second_pass.push(*x);
    }
    assert_eq!(first_pass, vec![10, 20, 30]);
    assert_eq!(second_pass, vec![10, 20, 30]);
    assert_eq!(v.len(), 3);
}

#[test]
fn borrowing_iteration_over_the_view_form() {
    let mut v = arrayvec::SliceVec::<u64>::with_capacity(3);
    v.push(4);
    v.push(5);
    let mut it = v.iter();
    assert_eq!(it.next(), Some(&4));
    assert_eq!(it.next(), Some(&5));
    assert_eq!(it.next(), None);
}
