use rnl::bridge::{
    append_child, create_node, create_text, get_root_handle, insert_before, remove_child,
    set_attribute, set_callback_with_id, NativeBridge, NativeCall,
};
use rnl::callbacks::{lookup_callback, register_callback, store_callback_function, CallbackRegistry};
use rnl::config::Config;
use rnl::elements::ButtonCallbacks;
use rnl::headless::HeadlessTree;
use rnl::registry::{ElementFactory, FactoryOps, Registry};
use rnl::templates::ProjectData;
use rnl::strings::{i64_to_decimal, parse_i32};

#[test]
fn a_click_reaches_the_bound_javascript_function() {
    let mut reg: Registry<&str> = Registry::new();
    let ops = FactoryOps {
        create: true,
        set_attribute: true,
        set_callback: true,
        append_child: true,
        insert_before: false,
        remove_child: true,
        destroy: true,
    };
    reg.register("button".to_string(), ElementFactory { ops, native: "button" });
    let mut bridge = NativeBridge::new();
    let mut callbacks: CallbackRegistry<&str> = CallbackRegistry::new();
    let mut buttons = ButtonCallbacks::new();

    let handle = create_node(&mut bridge, &reg, "button", |_f: &str| 0xb0);
    let id = register_callback(&mut callbacks, handle, "onClick");
    store_callback_function(&mut callbacks, id, handle, "onClick", "increment");
    match set_callback_with_id(&mut bridge, &reg, handle, "onClick", id) {
        NativeCall::SetCallback { factory, widget, name, callback } => {
            assert_eq!(factory, "button");
            assert!(buttons.set_callback(widget, &name, callback as usize));
        }
        _ => panic!("expected the callback to reach the button"),
    }
    let clicked = buttons.clicked(0xb0).unwrap();
    assert_eq!(lookup_callback(&callbacks, clicked as u64), Ok(&"increment"));
}

#[test]
fn handles_are_positive_and_never_reused() {
    let mut bridge = NativeBridge::new();
    let mut seen = Vec::new();
    for i in 0..50 {
        let h = create_text(&mut bridge, &i.to_string());
        assert!(h > 0);
        assert!(!seen.contains(&h));
        seen.push(h);
    }
    bridge.set_root(9);
    let root = get_root_handle(&bridge);
    assert!(root > 0 && !seen.contains(&root));
}

#[test]
fn handle_zero_asks_nothing_of_the_platform() {
    let reg: Registry<u8> = Registry::new();
    let mut bridge = NativeBridge::new();
    let t = create_text(&mut bridge, "t");
    assert!(matches!(set_attribute(&bridge, &reg, 0, "a", "b"), NativeCall::Nothing));
    assert!(matches!(append_child(&bridge, &reg, 0, t), NativeCall::Nothing));
    assert!(matches!(append_child(&bridge, &reg, t, 0), NativeCall::Nothing));
    assert!(matches!(insert_before(&bridge, &reg, 0, t, t), NativeCall::Nothing));
    assert!(matches!(remove_child(&bridge, &reg, t, 0), NativeCall::Nothing));
    assert!(matches!(set_callback_with_id(&mut bridge, &reg, 0, "onClick", 1), NativeCall::Nothing));
}

#[test]
fn removing_what_was_inserted_restores_the_children() {
    let mut t = HeadlessTree::new();
    let parent = t.create_node("box");
    let a = t.create_node("text");
    let b = t.create_node("button");
    t.append_child(parent, a);
    t.append_child(parent, b);
    let before = t.print_tree(parent, 0);
    let c = t.create_node("box");
    t.insert_before(parent, c, b);
    assert_ne!(t.print_tree(parent, 0), before);
    t.remove_child(parent, c);
    assert_eq!(t.print_tree(parent, 0), before);
    t.append_child(parent, c);
    t.remove_child(parent, c);
    assert_eq!(t.print_tree(parent, 0), before);
}

#[test]
fn template_data_agrees_with_the_configuration() {
    let platforms = ["macos", "beos"];
    let c = Config::default_for_project("shop", &platforms);
    let d = ProjectData::new("shop", &platforms);
    assert_eq!(d.name, c.project.name);
    assert_eq!(d.version, c.project.version);
    assert_eq!(d.description, c.project.description);
    assert_eq!(d.title, c.window.title);
    assert_eq!((d.width, d.height), (c.window.width, c.window.height));
    assert_eq!(d.platforms.linux, c.platforms.linux.is_some());
    assert_eq!(d.platforms.macos, c.platforms.macos.is_some());
    assert_eq!(d.platforms.windows, c.platforms.windows.is_some());
    assert_eq!(c.enabled_platforms(), vec!["macos"]);
}

#[test]
fn decimals_parse_back() {
    for n in [0, 1, -1, 9, 10, -10, 12345, i32::MAX, i32::MIN, i32::MIN + 1] {
        assert_eq!(parse_i32(&i64_to_decimal(n as i64)), Some(n));
    }
}

#[test]
fn a_destroyed_button_invokes_nothing() {
    let mut buttons = ButtonCallbacks::new();
    buttons.set_callback(7, "onClick", 3);
    assert_eq!(buttons.clicked(7), Some(3));
    buttons.remove(7);
    assert_eq!(buttons.clicked(7), None);
}

#[test]
fn a_chain_as_deep_as_the_tree_prints_every_level() {
    let mut t = HeadlessTree::new();
    let mut handles = Vec::new();
    for _ in 0..6 {
        handles.push(t.create_node("box"));
    }
    for w in handles.windows(2) {
        t.append_child(w[0], w[1]);
    }
    assert!(t.prints_completely(handles[0]));
    let lines = t.print_tree(handles[0], 0);
    assert_eq!(lines.len(), 6);
    assert_eq!(lines[5], "          <box> (handle=6)");
}
