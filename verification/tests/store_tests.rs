use kvstore::render::i32_to_string;
use kvstore::render::render_value;
use kvstore::render::u32_to_string;
use kvstore::shared::SharedStore;
use kvstore::store::Store;
use kvstore::store::Value;
use kvstore::store::null_value;

#[test]
fn round_trip_integer() {
    let mut store = Store::new();
    store.put(String::from("k"), Value::Integer(5));
    assert_eq!(store.get(&String::from("k")), Value::Integer(5));
}

#[test]
fn round_trip_double() {
    let mut store = Store::new();
    store.put(String::from("pi"), Value::Double(String::from("3.14")));
    assert_eq!(store.get(&String::from("pi")), Value::Double(String::from("3.14")));
}

#[test]
fn round_trip_text() {
    let mut store = Store::new();
    store.put(String::from("name"), Value::Text(String::from("verus")));
    assert_eq!(store.get(&String::from("name")), Value::Text(String::from("verus")));
}

#[test]
fn absent_key_yields_sentinel() {
    let store = Store::new();
    assert_eq!(store.get(&String::from("missing")), Value::Text(String::from("NULL")));
    assert_eq!(null_value(), Value::Text(String::from("NULL")));
}

#[test]
fn empty_key_is_a_key_like_any_other() {
    let mut store = Store::new();
    assert_eq!(store.get(&String::new()), Value::Text(String::from("NULL")));
    store.put(String::new(), Value::Integer(0));
    assert_eq!(store.get(&String::new()), Value::Integer(0));
}

#[test]
fn second_put_fully_replaces() {
    let mut store = Store::new();
    store.put(String::from("k"), Value::Text(String::from("first")));
    store.put(String::from("k"), Value::Integer(2));
    assert_eq!(store.get(&String::from("k")), Value::Integer(2));
}

#[test]
fn puts_to_one_key_leave_the_last_value() {
    let mut store = Store::new();
    for i in 0..8 {
        store.put(String::from("k"), Value::Integer(i));
    }
    assert_eq!(store.get(&String::from("k")), Value::Integer(7));
}

#[test]
fn puts_to_other_keys_do_not_interfere() {
    let mut store = Store::new();
    store.put(String::from("a"), Value::Integer(1));
    store.put(String::from("b"), Value::Integer(2));
    store.put(String::from("a"), Value::Integer(3));
    assert_eq!(store.get(&String::from("a")), Value::Integer(3));
    assert_eq!(store.get(&String::from("b")), Value::Integer(2));
}

#[test]
fn dump_lists_every_entry() {
    let mut store = Store::new();
    store.put(String::from("a"), Value::Integer(1));
    store.put(String::from("b"), Value::Text(String::from("x")));
    let entries = store.dump();
    assert_eq!(entries.len(), 2);
    assert!(entries.contains(&(String::from("a"), Value::Integer(1))));
    assert!(entries.contains(&(String::from("b"), Value::Text(String::from("x")))));
}

#[test]
fn shared_store_round_trip() {
    let (shared, _) = SharedStore::new();
    shared.put(String::from("k"), Value::Integer(9));
    let (v, _) = shared.get(&String::from("k"));
    assert_eq!(v, Value::Integer(9));
}

#[test]
fn shared_store_absent_key() {
    let (shared, _) = SharedStore::new();
    let (v, _) = shared.get(&String::from("nothing"));
    assert_eq!(v, Value::Text(String::from("NULL")));
}

#[test]
fn shared_store_last_write_wins() {
    let (shared, _) = SharedStore::new();
    shared.put(String::from("k"), Value::Integer(1));
    shared.put(String::from("k"), Value::Integer(2));
    let (v, _) = shared.get(&String::from("k"));
    assert_eq!(v, Value::Integer(2));
}

#[test]
fn decimal_renderings() {
    assert_eq!(u32_to_string(0), "0");
    assert_eq!(u32_to_string(10), "10");
    assert_eq!(u32_to_string(4294967295), "4294967295");
    assert_eq!(i32_to_string(0), "0");
    assert_eq!(i32_to_string(5), "5");
    assert_eq!(i32_to_string(-7), "-7");
    assert_eq!(i32_to_string(2147483647), "2147483647");
    assert_eq!(i32_to_string(-2147483648), "-2147483648");
}

#[test]
fn value_renderings() {
    assert_eq!(render_value(&Value::Integer(5)), "Integer(5)");
    assert_eq!(render_value(&Value::Integer(-12)), "Integer(-12)");
    assert_eq!(render_value(&Value::Double(String::from("5.5"))), "Double(5.5)");
    assert_eq!(render_value(&Value::Text(String::from("x"))), "String(\"x\")");
    assert_eq!(render_value(&Value::Text(String::from("NULL"))), "String(\"NULL\")");
}

#[test]
fn text_rendering_escapes_like_debug() {
    assert_eq!(
        render_value(&Value::Text(String::from("a\"b\\c"))),
        format!("String({:?})", "a\"b\\c"),
    );
}
