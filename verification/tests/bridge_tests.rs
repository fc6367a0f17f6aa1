use rnl::bridge::{create_text, get_root_handle, NativeBridge};

#[test]
fn test_create_text() {
    let mut bridge = NativeBridge::new();
    let id = create_text(&mut bridge, "Hello, World!");
    assert!(id > 0);
}

#[test]
fn test_get_root_handle_default() {
    let bridge = NativeBridge::new();
    let handle = get_root_handle(&bridge);
    assert!(handle >= 0);
}

use rnl::bridge::{
    append_child, create_node, insert_before, remove_child, set_attribute, set_callback,
    set_callback_with_id, set_text, CreateNodeError, NativeCall,
};
use rnl::registry::{ElementFactory, FactoryOps, Registry};

fn all_ops() -> FactoryOps {
    FactoryOps {
        create: true,
        set_attribute: true,
        set_callback: true,
        append_child: true,
        insert_before: true,
        remove_child: true,
        destroy: true,
    }
}

/// A registry whose factory handles are numbers: box = 10, button = 20,
/// label = 30 (no `create`), text = 40 (no `insert_before`).
fn registry() -> Registry<u32> {
    let mut r = Registry::new();
    r.register("box".to_string(), ElementFactory { ops: all_ops(), native: 10 });
    r.register("button".to_string(), ElementFactory { ops: all_ops(), native: 20 });
    let mut no_create = all_ops();
    no_create.create = false;
    r.register("label".to_string(), ElementFactory { ops: no_create, native: 30 });
    let mut no_insert = all_ops();
    no_insert.insert_before = false;
    r.register("text".to_string(), ElementFactory { ops: no_insert, native: 40 });
    r
}

#[test]
fn create_node_hands_out_successive_handles() {
    let reg = registry();
    let mut b = NativeBridge::new();
    let a = create_node(&mut b, &reg, "box", |f: u32| f as usize * 100);
    let c = create_node(&mut b, &reg, "button", |f: u32| f as usize * 100);
    assert_eq!((a, c), (1, 2));
    assert_eq!(b.widget_type(a).as_deref(), Some("box"));
    assert_eq!(b.widget_type(c).as_deref(), Some("button"));
    assert_eq!(b.widget_type(3), None);
}

#[test]
fn create_node_failures_give_handle_zero() {
    let reg = registry();
    let mut b = NativeBridge::new();
    assert_eq!(create_node(&mut b, &reg, "slider", |_f: u32| 5), 0);
    assert_eq!(create_node(&mut b, &reg, "label", |_f: u32| 5), 0);
    assert_eq!(create_node(&mut b, &reg, "box", |_f: u32| 0), 0);
    assert_eq!(create_node(&mut b, &reg, "box", |_f: u32| 5), 1);
}

#[test]
fn create_node_errors_say_why() {
    let reg = registry();
    let mut b = NativeBridge::new();
    match b.create_node(&reg, "slider", |_f: u32| 5) {
        Err(e @ CreateNodeError::UnknownType(_)) => {
            assert_eq!(e.message(), "Unknown element type: slider")
        }
        _ => panic!("expected an unknown type"),
    }
    match b.create_node(&reg, "label", |_f: u32| 5) {
        Err(e @ CreateNodeError::NoCreateFunction(_)) => {
            assert_eq!(e.message(), "Element 'label' has no create function")
        }
        _ => panic!("expected a missing create function"),
    }
    match b.create_node(&reg, "box", |_f: u32| 0) {
        Err(e @ CreateNodeError::CreateFailed(_)) => {
            assert_eq!(e.message(), "Failed to create element 'box'")
        }
        _ => panic!("expected a failed creation"),
    }
}

#[test]
fn the_factory_receives_the_registered_handle() {
    let reg = registry();
    let mut b = NativeBridge::new();
    let mut seen = 0u32;
    let h = create_node(&mut b, &reg, "button", |f: u32| {
        seen = f;
        7
    });
    assert_eq!(seen, 20);
    match set_attribute(&b, &reg, h, "label", "+") {
        NativeCall::SetAttribute { factory, widget, name, value } => {
            assert_eq!((factory, widget, name.as_str(), value.as_str()), (20, 7, "label", "+"))
        }
        _ => panic!("expected a set_attribute call"),
    }
}

#[test]
fn attributes_of_text_nodes_and_unknown_handles_do_nothing() {
    let reg = registry();
    let mut b = NativeBridge::new();
    let t = create_text(&mut b, "hi");
    assert!(matches!(set_attribute(&b, &reg, t, "x", "y"), NativeCall::Nothing));
    assert!(matches!(set_attribute(&b, &reg, 99, "x", "y"), NativeCall::Nothing));
    assert!(matches!(set_attribute(&b, &reg, 0, "x", "y"), NativeCall::Nothing));
}

#[test]
fn appending_text_sets_children_attribute() {
    let reg = registry();
    let mut b = NativeBridge::new();
    let label = create_node(&mut b, &reg, "text", |_f: u32| 300);
    let t = create_text(&mut b, "Welcome!");
    match append_child(&b, &reg, label, t) {
        NativeCall::SetAttribute { factory, widget, name, value } => {
            assert_eq!(
                (factory, widget, name.as_str(), value.as_str()),
                (40, 300, "children", "Welcome!")
            )
        }
        _ => panic!("expected the children attribute"),
    }
}

#[test]
fn children_of_the_root_are_appended_by_the_box_factory() {
    let reg = registry();
    let mut b = NativeBridge::new();
    b.set_root(500);
    let root = get_root_handle(&b);
    assert_eq!(root, 1);
    assert_eq!(b.widget_type(root).as_deref(), Some("__root__"));
    let button = create_node(&mut b, &reg, "button", |_f: u32| 600);
    match append_child(&b, &reg, root, button) {
        NativeCall::AppendChild { factory, parent, child } => {
            assert_eq!((factory, parent, child), (10, 500, 600))
        }
        _ => panic!("expected an append"),
    }
    assert!(matches!(append_child(&b, &reg, 42, button), NativeCall::Nothing));
    let other = create_node(&mut b, &reg, "button", |_f: u32| 700);
    match insert_before(&b, &reg, root, other, button) {
        NativeCall::InsertBefore { factory, parent, child, before } => {
            assert_eq!((factory, parent, child, before), (10, 500, 700, 600))
        }
        _ => panic!("expected an insert through the box factory"),
    }
    match remove_child(&b, &reg, root, button) {
        NativeCall::RemoveChild { factory, parent, child } => {
            assert_eq!((factory, parent, child), (10, 500, 600))
        }
        _ => panic!("expected a removal through the box factory"),
    }
}

#[test]
fn insert_and_remove_calls() {
    let reg = registry();
    let mut b = NativeBridge::new();
    let bx = create_node(&mut b, &reg, "box", |_f: u32| 1000);
    let x = create_node(&mut b, &reg, "button", |_f: u32| 2000);
    let y = create_node(&mut b, &reg, "button", |_f: u32| 3000);
    let label = create_node(&mut b, &reg, "text", |_f: u32| 4000);
    match insert_before(&b, &reg, bx, x, y) {
        NativeCall::InsertBefore { factory, parent, child, before } => {
            assert_eq!((factory, parent, child, before), (10, 1000, 2000, 3000))
        }
        _ => panic!("expected an insert"),
    }
    assert!(matches!(insert_before(&b, &reg, label, x, y), NativeCall::Nothing));
    assert!(matches!(insert_before(&b, &reg, bx, x, 77), NativeCall::Nothing));
    match remove_child(&b, &reg, bx, y) {
        NativeCall::RemoveChild { factory, parent, child } => {
            assert_eq!((factory, parent, child), (10, 1000, 3000))
        }
        _ => panic!("expected a removal"),
    }
    assert!(matches!(remove_child(&b, &reg, bx, 77), NativeCall::Nothing));
}

#[test]
fn callbacks_are_bound_on_widgets_with_factories() {
    let reg = registry();
    let mut b = NativeBridge::new();
    let button = create_node(&mut b, &reg, "button", |_f: u32| 700);
    match set_callback_with_id(&mut b, &reg, button, "onClick", 9) {
        NativeCall::SetCallback { factory, widget, name, callback } => {
            assert_eq!((factory, widget, name.as_str(), callback), (20, 700, "onClick", 9))
        }
        _ => panic!("expected a callback"),
    }
    let t = create_text(&mut b, "x");
    assert!(matches!(set_callback_with_id(&mut b, &reg, t, "onClick", 10), NativeCall::Nothing));
    b.set_root(1);
    let root = get_root_handle(&b);
    assert!(matches!(
        set_callback_with_id(&mut b, &reg, root, "onClick", 11),
        NativeCall::Nothing
    ));
    set_callback(button, "onClick");
}

#[test]
fn set_text_changes_only_text_nodes() {
    let reg = registry();
    let mut b = NativeBridge::new();
    let t = create_text(&mut b, "Count: 0");
    let bx = create_node(&mut b, &reg, "box", |_f: u32| 9);
    set_text(&mut b, t, "Count: 1");
    set_text(&mut b, bx, "ignored");
    set_text(&mut b, 99, "ignored");
    assert_eq!(b.widget_text(t).as_deref(), Some("Count: 1"));
    assert_eq!(b.widget_text(bx), None);
    assert_eq!(b.widget_text(99), None);
}
