use registry_contracts::address::{Address, AddressKind};
use registry_contracts::address_map::AddressMap;

fn account(b: u8) -> Address {
    Address { kind: AddressKind::Account, id: [b; 32] }
}

#[test]
fn same_as_compares_kind_and_id() {
    let a = account(1);
    let b = account(1);
    let c = account(2);
    let d = Address { kind: AddressKind::Contract, id: [1; 32] };
    let mut e = account(1);
    e.id[31] = 9;
    assert!(a.same_as(&b));
    assert!(!a.same_as(&c));
    assert!(!a.same_as(&d));
    assert!(!a.same_as(&e));
}

#[test]
fn address_map_insert_get_remove() {
    let mut m: AddressMap<u32> = AddressMap::new();
    assert_eq!(m.get(&account(1)), None);
    m.insert(account(1), 10);
    m.insert(account(2), 20);
    m.insert(account(1), 11);
    assert_eq!(m.get(&account(1)), Some(&11));
    assert_eq!(m.get(&account(2)), Some(&20));
    assert!(m.contains_key(&account(2)));
    m.remove(&account(1));
    assert_eq!(m.get(&account(1)), None);
    assert!(!m.contains_key(&account(1)));
    assert_eq!(m.get(&account(2)), Some(&20));
    m.remove(&account(7));
    assert_eq!(m.get(&account(2)), Some(&20));
}

#[test]
fn address_map_lists_each_address_once() {
    let mut m: AddressMap<bool> = AddressMap::new();
    m.insert(account(3), true);
    m.insert(account(4), false);
    m.insert(account(3), false);
    let mut keys = m.addresses();
    keys.sort_by_key(|a| a.id[0]);
    assert_eq!(keys, vec![account(3), account(4)]);
}
