use key_generator::address::Address;
use key_generator::address_map::AddressMap;

#[test]
fn address_map_orders_by_address() {
    let mut map: AddressMap<u8> = AddressMap::new();
    map.insert(Address::new(0, 5), 50);
    map.insert(Address::new(0, 3), 30);
    map.insert(Address::new(7, 0), 70);
    map.insert(Address::new(0, 4), 40);
    assert_eq!(map.len(), 4);
    assert_eq!(*map.entry(0), (Address::new(0, 3), 30));
    assert_eq!(*map.entry(1), (Address::new(0, 4), 40));
    assert_eq!(*map.entry(2), (Address::new(0, 5), 50));
    assert_eq!(*map.entry(3), (Address::new(7, 0), 70));
}

#[test]
fn address_map_insert_replaces() {
    let mut map: AddressMap<u8> = AddressMap::new();
    map.insert(Address::new(0, 5), 1);
    map.insert(Address::new(0, 5), 2);
    assert_eq!(map.len(), 1);
    assert_eq!(map.get(&Address::new(0, 5)), Some(&2));
    assert_eq!(map.get(&Address::new(0, 6)), None);
}

#[test]
fn address_map_remove() {
    let mut map: AddressMap<u8> = AddressMap::new();
    map.insert(Address::new(0, 1), 1);
    map.insert(Address::new(0, 2), 2);
    map.remove(Address::new(0, 1));
    map.remove(Address::new(0, 1));
    assert_eq!(map.len(), 1);
    assert_eq!(map.get(&Address::new(0, 1)), None);
    assert_eq!(map.get(&Address::new(0, 2)), Some(&2));
}
