use linked_list::first::List;

#[test]
fn first_push_pop() {
    let mut list: List<isize> = List::new();
    assert!(list.empty());
    assert_eq!(list.pop(), None);
    list.push(3);
    assert!(!list.empty());
    assert_eq!(list.pop(), Some(3));
    assert_eq!(list.pop(), None);
    list.push(0);
    list.push(1);
    assert_eq!(list.pop(), Some(1));
    assert_eq!(list.pop(), Some(0));
    assert_eq!(list.pop(), None);
}

#[test]
fn first_insert_after_head_and_tail() {
    let mut list: List<isize> = List::new();
    list.push(0);
    list.push(1);
    list.push(2);
    list.head().insert(3);
    assert_eq!(list.pop(), Some(2));
    assert_eq!(list.pop(), Some(3));
    let mut node = list.head();
    while node.has_next() {
        node = node.next();
    }
    node.insert(3);
    assert_eq!(list.pop(), Some(1));
    assert_eq!(list.pop(), Some(0));
    assert_eq!(list.pop(), Some(3));
    assert_eq!(list.pop(), None);
}

#[test]
fn first_split_at_head_and_tail() {
    let mut list: List<isize> = List::new();
    list.push(0);
    list.push(1);
    list.push(2);
    let mut tail = list.head().split();
    assert!(!list.head().has_next());
    assert_eq!(tail.pop(), Some(1));
    assert_eq!(tail.pop(), Some(0));
    assert_eq!(tail.pop(), None);
    let mut node = list.head();
    while node.has_next() {
        node = node.next();
    }
    let mut none = node.split();
    assert!(none.empty());
    assert_eq!(none.pop(), None);
    assert_eq!(list.pop(), Some(2));
    assert_eq!(list.pop(), None);
}

#[test]
fn first_drop_long_list() {
    let mut list: List<isize> = List::new();
    let mut i: isize = 0;
    while i < 1000000 {
        list.push(i);
        i += 1;
    }
}
