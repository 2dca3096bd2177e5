use std::collections::HashMap;
use std::sync::Mutex;

use aries_vcx::api_lib::utils::callback::{get_cb, set_cb};

#[test]
fn test_get_cb() {
    let mutex_map: Mutex<HashMap<u32, Box<dyn FnMut(u32) + Send>>> = Default::default();
    assert!(get_cb(2123, &mut mutex_map.lock().unwrap()).is_none());

    let closure: Box<dyn FnMut(u32) + Send> = Box::new(move |_| {});

    mutex_map.lock().unwrap().insert(2123, closure);
    let cb = get_cb(2123, &mut mutex_map.lock().unwrap());
    assert!(cb.is_some());
}

#[test]
fn callback_is_taken_only_once() {
    let mut map: HashMap<u32, u32> = HashMap::new();
    set_cb(7, 70, &mut map);
    set_cb(8, 80, &mut map);
    assert_eq!(get_cb(7, &mut map), Some(70));
    assert_eq!(get_cb(7, &mut map), None);
    assert_eq!(map.len(), 1);
    assert_eq!(get_cb(8, &mut map), Some(80));
    assert!(map.is_empty());
}

#[test]
fn later_callback_replaces_earlier_one() {
    let mut map: HashMap<i32, &str> = HashMap::new();
    set_cb(-1, "first", &mut map);
    set_cb(-1, "second", &mut map);
    assert_eq!(get_cb(-1, &mut map), Some("second"));
}
