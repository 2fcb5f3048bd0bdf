use load_balancer::backend::BackendPorts;
use load_balancer::table::{Fault, RotationTable, DEFAULT_MAX_ENTRIES};

#[test]
fn new_table_is_empty_with_default_limit() {
    let table = RotationTable::new();
    assert_eq!(table.len(), 0);
    assert_eq!(table.max_entries(), 10);
    assert_eq!(DEFAULT_MAX_ENTRIES, 10);
    assert_eq!(table.get(9996), None);
}

#[test]
fn get_returns_what_set_stored() {
    let mut table = RotationTable::new();
    let backends = BackendPorts { ports: [9997, 9998, 9999, 0], index: 2 };
    assert_eq!(table.set(9996, backends), Ok(()));
    assert_eq!(table.get(9996), Some(backends));
    assert_eq!(table.get(9997), None);
}

#[test]
fn seeding_twice_leaves_one_unchanged_entry() {
    let mut table = RotationTable::new();
    let backends = BackendPorts::new([9997, 9998, 9999, 0]);
    assert_eq!(table.set(9996, backends), Ok(()));
    let after_first = (table.len(), table.get(9996));
    for _ in 0..5 {
        assert_eq!(table.set(9996, backends), Ok(()));
        assert_eq!((table.len(), table.get(9996)), after_first);
    }
    assert_eq!(after_first, (1, Some(backends)));
}

#[test]
fn set_replaces_the_entry_of_a_port() {
    let mut table = RotationTable::new();
    table.set(9996, BackendPorts::new([1, 2, 3, 4])).unwrap();
    table.set(9996, BackendPorts { ports: [5, 6, 0, 0], index: 1 }).unwrap();
    assert_eq!(table.len(), 1);
    assert_eq!(table.get(9996), Some(BackendPorts { ports: [5, 6, 0, 0], index: 1 }));
}

#[test]
fn full_table_refuses_new_port_and_replaces_old() {
    let mut table = RotationTable::with_max_entries(2);
    assert_eq!(table.set(1, BackendPorts::new([11, 0, 0, 0])), Ok(()));
    assert_eq!(table.set(2, BackendPorts::new([21, 0, 0, 0])), Ok(()));
    assert_eq!(table.set(3, BackendPorts::new([31, 0, 0, 0])), Err(Fault::TableFull));
    assert_eq!(table.len(), 2);
    assert_eq!(table.get(3), None);
    assert_eq!(table.get(1), Some(BackendPorts::new([11, 0, 0, 0])));
    assert_eq!(table.set(2, BackendPorts::new([22, 23, 0, 0])), Ok(()));
    assert_eq!(table.get(2), Some(BackendPorts::new([22, 23, 0, 0])));
    assert_eq!(table.len(), 2);
}

#[test]
fn default_table_takes_ten_ports() {
    let mut table = RotationTable::new();
    for port in 0..10u16 {
        assert_eq!(table.set(port, BackendPorts::new([port + 100, 0, 0, 0])), Ok(()));
    }
    assert_eq!(table.len(), 10);
    assert_eq!(table.set(10, BackendPorts::new([110, 0, 0, 0])), Err(Fault::TableFull));
    for port in 0..10u16 {
        assert_eq!(table.get(port), Some(BackendPorts::new([port + 100, 0, 0, 0])));
    }
}

#[test]
fn table_without_room_refuses_every_port() {
    let mut table = RotationTable::with_max_entries(0);
    assert_eq!(table.set(9996, BackendPorts::new([9997, 0, 0, 0])), Err(Fault::TableFull));
    assert_eq!(table.len(), 0);
}
