use linked_stack::first::List;

#[test]
fn first_basics() {
    let mut list = List::new();

    assert_eq!(list.pop(), None);
    list.push(1);
    list.push(2);
    list.push(3);

    assert_eq!(list.pop(), Some(3));
    assert_eq!(list.pop(), Some(2));
    assert_eq!(list.pop(), Some(1));
    assert_eq!(list.pop(), None);
}

#[test]
fn first_pop_on_fresh_list_is_none() {
    let mut list = List::new();
    assert_eq!(list.pop(), None);
    assert_eq!(list.pop(), None);
    assert_eq!(list.pop(), None);
}

#[test]
fn first_pop_after_exhaustion_stays_none() {
    let mut list = List::new();
    list.push(-7);
    assert_eq!(list.pop(), Some(-7));
    for _ in 0..10 {
        assert_eq!(list.pop(), None);
    }
    list.push(8);
    assert_eq!(list.pop(), Some(8));
    assert_eq!(list.pop(), None);
}

#[test]
fn first_pops_reverse_the_pushes() {
    let pushed = vec![i32::MIN, -1, 0, 1, 7, 7, i32::MAX];
    let mut list = List::new();
    for v in &pushed {
        list.push(*v);
    }
    let mut seen = Vec::new();
    for _ in 0..pushed.len() {
        seen.push(list.pop());
    }
    let expected: Vec<Option<i32>> = pushed.iter().rev().map(|v| Some(*v)).collect();
    assert_eq!(seen, expected);
    assert_eq!(list.pop(), None);
}

#[test]
fn first_push_between_pops() {
    let mut list = List::new();
    list.push(1);
    list.push(2);
    assert_eq!(list.pop(), Some(2));
    list.push(4);
    list.push(5);
    assert_eq!(list.pop(), Some(5));
    assert_eq!(list.pop(), Some(4));
    assert_eq!(list.pop(), Some(1));
    assert_eq!(list.pop(), None);
}

#[test]
fn first_long_list_drops_without_overflow() {
    let mut list = List::new();
    for i in 0..100_000 {
        list.push(i);
    }
    drop(list);
}

#[test]
fn first_partly_popped_long_list_drops() {
    let mut list = List::new();
    for i in 0..200_000 {
        list.push(i);
    }
    assert_eq!(list.pop(), Some(199_999));
    assert_eq!(list.pop(), Some(199_998));
    drop(list);
}
