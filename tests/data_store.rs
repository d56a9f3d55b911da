use minmus::{DataStore, Error};

#[test]
fn simple_test() {
    // Create a data store
    let mut new_ds = DataStore::<&str, i32>::new();

    // Create a couple of items we want to put into the DataStore
    let item_0: i32 = 24;
    let item_1: i32 = 99;

    // Set the item given a certain key
    match new_ds.set_item(&"item_0", &item_0) {
        Some(err) => {
            panic!("Failed to set item : {}", err.message());
        }
        None => {}
    }

    // Set the other item given a different key
    match new_ds.set_item(&"item_1", &item_1) {
        Some(err) => {
            panic!("Failed to set item : {}", err.message());
        }
        None => {}
    }

    // Attempt to get an item
    match new_ds.get_item(&"item_0") {
        Ok(value_retrieved) => {
            assert_eq!(item_0, value_retrieved);
        }
        Err(err) => {
            panic!("Got an error attempting to get an item: {}", err.message());
        }
    }

    // Attempt to get an item
    match new_ds.get_item(&"item_1") {
        Ok(value_retrieved) => {
            assert_eq!(item_1, value_retrieved);
        }
        Err(err) => {
            panic!("Got an error attempting to get an item: {}", err.message());
        }
    }
}

#[test]
fn string_keyed_scenario() {
    let mut ds = DataStore::<&str, i32>::new();
    assert_eq!(ds.set_item(&"item_0", &24), None);
    assert_eq!(ds.set_item(&"item_1", &99), None);
    assert_eq!(ds.get_item(&"item_0"), Ok(24));
    assert_eq!(ds.get_item(&"item_1"), Ok(99));
    assert_eq!(ds.get_item(&"item_2"), Err(Error::ItemDoesNotExist));
}

#[test]
fn set_then_get_returns_value() {
    let mut ds = DataStore::<u64, i64>::new();
    assert_eq!(ds.set_item(&7, &-3), None);
    assert_eq!(ds.get_item(&7), Ok(-3));
    // A read leaves the entry in place.
    assert_eq!(ds.get_item(&7), Ok(-3));
}

#[test]
fn empty_store_finds_nothing() {
    let mut ds = DataStore::<u64, u8>::new();
    assert_eq!(ds.get_item(&0), Err(Error::ItemDoesNotExist));
    assert_eq!(ds.get_item(&u64::MAX), Err(Error::ItemDoesNotExist));
}

#[test]
fn unset_key_not_found_after_other_writes() {
    let mut ds = DataStore::<u32, u32>::new();
    for k in 0..10u32 {
        assert_eq!(ds.set_item(&(2 * k), &k), None);
    }
    assert_eq!(ds.get_item(&5), Err(Error::ItemDoesNotExist));
    assert_eq!(ds.get_item(&21), Err(Error::ItemDoesNotExist));
}

#[test]
fn overwrite_keeps_last_value() {
    let mut ds = DataStore::<&str, i32>::new();
    assert_eq!(ds.set_item(&"k", &1), None);
    assert_eq!(ds.set_item(&"k", &2), None);
    assert_eq!(ds.get_item(&"k"), Ok(2));
}

#[test]
fn other_keys_unaffected_by_write() {
    let mut ds = DataStore::<u64, i32>::new();
    assert_eq!(ds.set_item(&1, &10), None);
    assert_eq!(ds.set_item(&2, &20), None);
    assert_eq!(ds.set_item(&1, &11), None);
    assert_eq!(ds.get_item(&2), Ok(20));
    assert_eq!(ds.get_item(&3), Err(Error::ItemDoesNotExist));
}

#[test]
fn distinct_writers_read_own_values() {
    let mut ds = DataStore::<usize, usize>::new();
    let order = [3usize, 0, 4, 1, 2];
    for k in order {
        assert_eq!(ds.set_item(&k, &(100 + k)), None);
    }
    for k in 0..5usize {
        assert_eq!(ds.get_item(&k), Ok(100 + k));
    }
}

#[test]
fn owned_string_keys() {
    let mut ds = DataStore::<String, u8>::new();
    let key = String::from("alpha");
    assert_eq!(ds.set_item(&key, &5), None);
    assert_eq!(ds.get_item(&String::from("alpha")), Ok(5));
    assert_eq!(ds.get_item(&String::from("beta")), Err(Error::ItemDoesNotExist));
}

#[test]
fn error_messages() {
    assert_eq!(Error::ItemDoesNotExist.message(), "Error: Item does not exist");
    assert_eq!(Error::UnableToObtainLock.message(), "Error: Unable to obtain lock");
}
