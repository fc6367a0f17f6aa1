use rnl::callbacks::{register_callback, CallbackRegistry};

#[test]
fn test_register_returns_unique_ids() {
    let mut registry: CallbackRegistry<u32> = CallbackRegistry::new();
    let id1 = register_callback(&mut registry, 1, "onClick");
    let id2 = register_callback(&mut registry, 2, "onClick");
    assert_ne!(id1, id2);
}

use rnl::callbacks::{
    get_callback, lookup_callback, remove_callback, remove_callbacks_for_widget,
    store_callback_function,
};

#[test]
fn ids_start_at_one_and_count_up() {
    let mut registry: CallbackRegistry<&str> = CallbackRegistry::new();
    assert_eq!(register_callback(&mut registry, 5, "onClick"), 1);
    assert_eq!(register_callback(&mut registry, 5, "onPress"), 2);
    assert_eq!(register_callback(&mut registry, 6, "onClick"), 3);
}

#[test]
fn stored_callbacks_are_found_and_removed() {
    let mut registry: CallbackRegistry<&str> = CallbackRegistry::new();
    let a = register_callback(&mut registry, 5, "onClick");
    let b = register_callback(&mut registry, 6, "onClick");
    let c = register_callback(&mut registry, 5, "onPress");
    store_callback_function(&mut registry, a, 5, "onClick", "fa");
    store_callback_function(&mut registry, b, 6, "onClick", "fb");
    store_callback_function(&mut registry, c, 5, "onPress", "fc");
    assert_eq!(get_callback(&registry, a), Some((5, "onClick".to_string())));
    assert_eq!(lookup_callback(&registry, b), Ok(&"fb"));
    remove_callback(&mut registry, b);
    assert_eq!(get_callback(&registry, b), None);
    assert_eq!(lookup_callback(&registry, b), Err("Unknown callback ID: 2".to_string()));
    remove_callbacks_for_widget(&mut registry, 5);
    assert_eq!(get_callback(&registry, a), None);
    assert_eq!(get_callback(&registry, c), None);
    assert_eq!(lookup_callback(&registry, 12345), Err("Unknown callback ID: 12345".to_string()));
}

#[test]
fn storing_again_replaces() {
    let mut registry: CallbackRegistry<u8> = CallbackRegistry::new();
    store_callback_function(&mut registry, 4, 1, "onClick", 1);
    store_callback_function(&mut registry, 4, 2, "onPress", 2);
    assert_eq!(get_callback(&registry, 4), Some((2, "onPress".to_string())));
    assert_eq!(lookup_callback(&registry, 4), Ok(&2));
}
