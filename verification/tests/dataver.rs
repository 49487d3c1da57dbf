use matter_data_model::data_model::objects::{AttrCell, ChangeFlag, Dataver};

#[test]
fn new_flag_has_nothing_pending() {
    let mut flag = ChangeFlag::new();
    assert!(!flag.is_pending());
    assert_eq!(flag.consume(), None);
}

#[test]
fn raises_coalesce_into_one_marker() {
    let mut flag = ChangeFlag::new();
    flag.raise();
    flag.raise();
    assert!(flag.is_pending());
    assert_eq!(flag.consume(), Some(()));
    assert!(!flag.is_pending());
    assert_eq!(flag.consume(), None);
}

#[test]
fn flag_can_be_raised_again_after_consume() {
    let mut flag = ChangeFlag::new();
    flag.raise();
    assert_eq!(flag.consume(), Some(()));
    assert_eq!(flag.consume(), None);
    flag.raise();
    assert_eq!(flag.consume(), Some(()));
    assert_eq!(flag.consume(), None);
}

#[test]
fn dataver_starts_at_initial_version() {
    let data_ver = Dataver::new(41);
    assert_eq!(data_ver.get(), 41);
    assert!(!data_ver.is_changed());
}

#[test]
fn changed_advances_by_one_and_returns_new_version() {
    let mut data_ver = Dataver::new(41);
    assert_eq!(data_ver.changed(), 42);
    assert_eq!(data_ver.get(), 42);
    assert!(data_ver.is_changed());
    assert_eq!(data_ver.changed(), 43);
    assert_eq!(data_ver.get(), 43);
}

#[test]
fn changed_reaches_the_last_version() {
    let mut data_ver = Dataver::new(u32::MAX - 1);
    assert_eq!(data_ver.changed(), u32::MAX);
    assert_eq!(data_ver.get(), u32::MAX);
}

#[test]
fn consume_change_hands_out_the_given_value_once() {
    let mut data_ver = Dataver::new(0);
    assert_eq!(data_ver.consume_change(7u8), None);
    data_ver.changed();
    data_ver.changed();
    data_ver.changed();
    assert_eq!(data_ver.consume_change(7u8), Some(7u8));
    assert_eq!(data_ver.consume_change(7u8), None);
    assert_eq!(data_ver.get(), 3);
}

#[test]
fn dataver_clone_is_independent() {
    let mut data_ver = Dataver::new(5);
    let copy = data_ver.clone();
    data_ver.changed();
    assert_eq!(data_ver.get(), 6);
    assert_eq!(copy.get(), 5);
    assert!(!copy.is_changed());
}

#[test]
fn cell_write_of_new_value_bumps_version() {
    let mut data_ver = Dataver::new(10);
    let mut cell: AttrCell<i16> = AttrCell::new(0);
    assert_eq!(cell.get(), 0);
    assert!(cell.set(&mut data_ver, 250));
    assert_eq!(cell.get(), 250);
    assert_eq!(data_ver.get(), 11);
    assert!(data_ver.is_changed());
}

#[test]
fn cell_write_is_idempotent() {
    let mut data_ver = Dataver::new(10);
    let mut cell: AttrCell<i16> = AttrCell::new(0);
    assert!(cell.set(&mut data_ver, -3));
    assert_eq!(data_ver.get(), 11);
    assert!(!cell.set(&mut data_ver, -3));
    assert_eq!(data_ver.get(), 11);
    assert_eq!(cell.get(), -3);
}

#[test]
fn cell_write_of_held_value_raises_nothing() {
    let mut data_ver = Dataver::new(10);
    let mut cell: AttrCell<u8> = AttrCell::new(9);
    assert!(!cell.set(&mut data_ver, 9));
    assert_eq!(data_ver.get(), 10);
    assert!(!data_ver.is_changed());
    assert_eq!(data_ver.consume_change(()), None);
}

#[test]
fn n_changing_writes_advance_version_by_n() {
    let mut data_ver = Dataver::new(100);
    let mut cell: AttrCell<i16> = AttrCell::new(0);
    let values: [i16; 6] = [1, 2, 3, -4, 5, 0];
    for v in values {
        assert!(cell.set(&mut data_ver, v));
    }
    assert_eq!(data_ver.get(), 106);
    assert_eq!(cell.get(), 0);
    assert_eq!(data_ver.consume_change(()), Some(()));
    assert_eq!(data_ver.consume_change(()), None);
}

#[test]
fn repeated_values_do_not_count() {
    let mut data_ver = Dataver::new(0);
    let mut cell: AttrCell<i16> = AttrCell::new(0);
    let values: [i16; 5] = [0, 1, 1, 2, 2];
    let mut changes: u32 = 0;
    for v in values {
        if cell.set(&mut data_ver, v) {
            changes += 1;
        }
    }
    assert_eq!(changes, 2);
    assert_eq!(data_ver.get(), 2);
}

#[test]
fn version_never_goes_down() {
    let mut data_ver = Dataver::new(3);
    let mut cell: AttrCell<u8> = AttrCell::new(0);
    let values: [u8; 7] = [0, 0, 4, 4, 0, 9, 9];
    let mut last = data_ver.get();
    for v in values {
        cell.set(&mut data_ver, v);
        assert!(data_ver.get() >= last);
        last = data_ver.get();
    }
    assert_eq!(last, 6);
}

#[test]
fn byte_array_cell_compares_by_elements() {
    let mut data_ver = Dataver::new(0);
    let mut cell: AttrCell<[u8; 8]> = AttrCell::new([0; 8]);
    assert!(!cell.set(&mut data_ver, [0, 0, 0, 0, 0, 0, 0, 0]));
    assert_eq!(data_ver.get(), 0);
    assert!(cell.set(&mut data_ver, [0, 0, 0, 0, 0, 0, 0, 1]));
    assert_eq!(data_ver.get(), 1);
    assert_eq!(cell.get(), [0, 0, 0, 0, 0, 0, 0, 1]);
    assert!(cell.set(&mut data_ver, [1, 0, 0, 0, 0, 0, 0, 1]));
    assert_eq!(data_ver.get(), 2);
}

#[test]
fn string_array_cell_compares_by_characters() {
    let mut data_ver = Dataver::new(0);
    let mut cell: AttrCell<[&'static str; 32]> = AttrCell::new([""; 32]);
    let owned = String::from("pre") + "heat";
    let leaked: &'static str = Box::leak(owned.into_boxed_str());
    let mut first = [""; 32];
    first[0] = "preheat";
    let mut second = [""; 32];
    second[0] = leaked;
    assert!(cell.set(&mut data_ver, first));
    assert_eq!(data_ver.get(), 1);
    assert!(!cell.set(&mut data_ver, second));
    assert_eq!(data_ver.get(), 1);
    let mut third = [""; 32];
    third[0] = "preheat ";
    assert!(cell.set(&mut data_ver, third));
    assert_eq!(data_ver.get(), 2);
    let mut fourth = [""; 32];
    fourth[0] = "prehea\u{1F525}";
    assert!(cell.set(&mut data_ver, fourth));
    assert_eq!(data_ver.get(), 3);
    assert_eq!(cell.get()[0], "prehea\u{1F525}");
}

#[test]
fn cell_clone_holds_the_same_value() {
    let cell: AttrCell<i16> = AttrCell::new(-77);
    let copy = cell.clone();
    assert_eq!(copy.get(), -77);
}
