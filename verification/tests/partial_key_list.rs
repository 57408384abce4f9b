use key_generator::address::Address;
use key_generator::key::PartialKey;
use key_generator::partial_key_list::PartialKeyList;

fn key(tag: &str) -> PartialKey {
    PartialKey {
        u: format!("{}1", tag),
        v: format!("{}2", tag),
        y: format!("{}3", tag),
        w: format!("{}4", tag),
    }
}

#[test]
fn new_list_is_empty() {
    let list = PartialKeyList::new();
    assert_eq!(list.len(), 0);
    assert!(list.to_vec().is_empty());
    assert!(list.iter().is_empty());
    assert_eq!(list.get(&Address::new(0, 1)), None);
    assert_eq!(PartialKeyList::default(), list);
}

#[test]
fn insert_keeps_contributors_in_order() {
    let mut list = PartialKeyList::new();
    list.insert(Address::new(0, 30), key("c"));
    list.insert(Address::new(0, 10), key("a"));
    list.insert(Address::new(1, 0), key("d"));
    list.insert(Address::new(0, 20), key("b"));
    assert_eq!(
        list.iter(),
        vec![
            (Address::new(0, 10), key("a")),
            (Address::new(0, 20), key("b")),
            (Address::new(0, 30), key("c")),
            (Address::new(1, 0), key("d")),
        ]
    );
    assert_eq!(list.to_vec(), vec![key("a"), key("b"), key("c"), key("d")]);
    assert_eq!(list.len(), 4);
}

#[test]
fn high_part_orders_before_low_part() {
    let mut list = PartialKeyList::new();
    list.insert(Address::new(2, 0), key("x"));
    list.insert(Address::new(1, u128::MAX), key("y"));
    assert_eq!(list.to_vec(), vec![key("y"), key("x")]);
    assert!(Address::new(1, u128::MAX).is_before(&Address::new(2, 0)));
    assert!(!Address::new(2, 0).is_before(&Address::new(2, 0)));
    assert!(!Address::new(2, 1).is_before(&Address::new(2, 0)));
}

#[test]
fn insert_same_contribution_twice_is_once() {
    let mut once = PartialKeyList::new();
    once.insert(Address::new(0, 1), key("a"));
    let mut many = PartialKeyList::new();
    many.insert(Address::new(0, 1), key("a"));
    many.insert(Address::new(0, 1), key("a"));
    many.insert(Address::new(0, 1), key("a"));
    assert_eq!(once, many);
    assert_eq!(many.len(), 1);
}

#[test]
fn insert_overwrites_earlier_key_of_same_contributor() {
    let mut list = PartialKeyList::new();
    list.insert(Address::new(0, 1), key("first"));
    list.insert(Address::new(0, 2), key("other"));
    list.insert(Address::new(0, 1), key("second"));
    assert_eq!(list.get(&Address::new(0, 1)), Some(key("second")));
    assert_eq!(list.to_vec(), vec![key("second"), key("other")]);
}

#[test]
fn remove_drops_only_that_contributor() {
    let mut list = PartialKeyList::new();
    list.insert(Address::new(0, 1), key("a"));
    list.insert(Address::new(0, 2), key("b"));
    list.insert(Address::new(0, 3), key("c"));
    list.remove(Address::new(0, 2));
    assert_eq!(list.to_vec(), vec![key("a"), key("c")]);
    list.remove(Address::new(0, 9));
    assert_eq!(list.to_vec(), vec![key("a"), key("c")]);
    list.remove(Address::new(0, 1));
    list.remove(Address::new(0, 3));
    assert_eq!(list.len(), 0);
}

#[test]
fn clone_of_list_is_equal() {
    let mut list = PartialKeyList::new();
    list.insert(Address::new(0, 2), key("b"));
    list.insert(Address::new(0, 1), key("a"));
    assert_eq!(list.clone(), list);
}
