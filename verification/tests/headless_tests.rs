use rnl::headless::HeadlessTree;

/// The tree of the counter example: a vertical box with a text and a button.
fn counter_tree() -> (HeadlessTree, i64, i64, i64, i64) {
    let mut t = HeadlessTree::new();
    let root = t.create_root();
    let bx = t.create_node("box");
    t.set_attribute(bx, "orientation", "vertical");
    t.append_child(root, bx);
    let label = t.create_node("text");
    let text = t.create_text("Welcome!");
    t.append_child(label, text);
    t.append_child(bx, label);
    let button = t.create_node("button");
    t.set_attribute(button, "label", "+");
    t.append_child(bx, button);
    (t, root, bx, label, button)
}

#[test]
fn prints_the_tree_depth_first() {
    let (t, root, _, _, _) = counter_tree();
    assert_eq!(t.get_root_handle(), root);
    assert_eq!(
        t.print_tree(root, 0),
        vec![
            "ROOT (handle=1)",
            "  <box> [orientation=\"vertical\"] (handle=2)",
            "    <text> (handle=3)",
            "      TEXT: \"Welcome!\"",
            "    <button> [label=\"+\"] (handle=5)",
        ]
    );
    assert_eq!(t.node_count(), 5);
}

#[test]
fn attributes_print_in_the_order_first_set_and_values_are_escaped() {
    let mut t = HeadlessTree::new();
    let b = t.create_node("button");
    t.set_attribute(b, "label", "say \"hi\"");
    t.set_attribute(b, "disabled", "false");
    t.set_attribute(b, "label", "ok");
    assert_eq!(t.print_tree(b, 1), vec!["  <button> [label=\"ok\", disabled=\"false\"] (handle=1)"]);
    assert!(t.print_tree(42, 0).is_empty());
}

#[test]
fn insert_before_and_remove_child_edit_children() {
    let (mut t, _, bx, label, button) = counter_tree();
    let extra = t.create_text("x");
    t.insert_before(bx, extra, button);
    t.insert_before(bx, extra, 999);
    let lines = t.print_tree(bx, 0);
    assert_eq!(lines.len(), 6);
    assert_eq!(lines[3], "  TEXT: \"x\"");
    assert_eq!(lines[5], "  TEXT: \"x\"");
    t.remove_child(bx, extra);
    t.remove_child(bx, label);
    assert_eq!(
        t.print_tree(bx, 0),
        vec!["<box> [orientation=\"vertical\"] (handle=2)", "  <button> [label=\"+\"] (handle=5)"]
    );
}

#[test]
fn set_text_and_unknown_handles() {
    let mut t = HeadlessTree::new();
    let text = t.create_text("Count: 0");
    t.set_text(text, "Count: 1");
    t.set_text(99, "ignored");
    t.set_attribute(99, "a", "b");
    t.append_child(99, text);
    assert_eq!(t.print_tree(text, 0), vec!["TEXT: \"Count: 1\""]);
    assert_eq!(t.node_count(), 1);
    assert_eq!(t.get_root_handle(), 0);
}

#[test]
fn a_cycle_does_not_print_completely() {
    let mut t = HeadlessTree::new();
    let a = t.create_node("box");
    let b = t.create_node("box");
    t.append_child(a, b);
    assert!(t.prints_completely(a));
    t.append_child(b, a);
    assert!(!t.prints_completely(a));
    assert!(!t.prints_completely(b));
    let c = t.create_node("text");
    t.append_child(c, c);
    assert!(!t.prints_completely(c));
}

#[test]
fn trees_and_shared_children_print_completely() {
    let (mut t, root, bx, _, button) = counter_tree();
    assert!(t.prints_completely(root));
    assert!(t.prints_completely(42));
    t.append_child(root, button);
    assert!(t.prints_completely(root));
    let lines = t.print_tree(root, 0);
    assert_eq!(lines.len(), 6);
    assert_eq!(lines[5], "  <button> [label=\"+\"] (handle=5)");
    t.remove_child(root, bx);
    assert_eq!(t.print_tree(root, 0), vec!["ROOT (handle=1)", "  <button> [label=\"+\"] (handle=5)"]);
}
