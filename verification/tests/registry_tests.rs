use rnl::registry::{ElementFactory, FactoryOps, Registry};

fn test_create() -> usize {
    42
}

#[test]
fn test_registry_register_and_get() {
    let mut registry: Registry<fn() -> usize> = Registry::new();
    let factory = ElementFactory {
        ops: FactoryOps {
            create: true,
            set_attribute: false,
            set_callback: false,
            append_child: false,
            insert_before: false,
            remove_child: false,
            destroy: true,
        },
        native: test_create as fn() -> usize,
    };
    registry.register("test-widget".to_string(), factory);

    let factory = registry.get("test-widget");
    assert!(factory.is_some());

    let f = factory.unwrap();
    assert!(f.ops.create);

    let widget = (f.native)();
    assert!(widget != 0);
}

#[test]
#[allow(unused_comparisons)]
fn test_registry_count() {
    let registry: Registry<u32> = Registry::new();
    let count = registry.count();
    assert!(count >= 0);
}

fn ops(create: bool) -> FactoryOps {
    FactoryOps {
        create,
        set_attribute: true,
        set_callback: false,
        append_child: true,
        insert_before: false,
        remove_child: true,
        destroy: true,
    }
}

#[test]
fn registering_again_replaces_the_factory() {
    let mut registry: Registry<u32> = Registry::new();
    assert!(!registry.register("box".to_string(), ElementFactory { ops: ops(true), native: 1 }));
    assert!(!registry.register("text".to_string(), ElementFactory { ops: ops(true), native: 2 }));
    assert_eq!(registry.count(), 2);
    assert!(registry.register("box".to_string(), ElementFactory { ops: ops(false), native: 3 }));
    assert_eq!(registry.count(), 2);
    let f = registry.get("box").unwrap();
    assert_eq!(f.native, 3);
    assert!(!f.ops.create);
    assert!(registry.get("button").is_none());
    let mut names = registry.list();
    names.sort();
    assert_eq!(names, vec!["box", "text"]);
}
