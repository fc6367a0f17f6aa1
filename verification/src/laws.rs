//! Properties of the library that relate several operations, stated over the
//! abstract models that the operations' own contracts use.
use vstd::prelude::*;
use crate::bridge::{
    append_call, attribute_call, bindings_of, box_type, callback_call, callback_recorded,
    children_attribute, handles_valid, insert_call, remove_call, root_handle, root_type,
    text_type, with_new_widget, BridgeModel, CallModel, WidgetModel,
};
use crate::callbacks::{next_callback_id, CallbackModel};
use crate::registry::ElementFactory;
use crate::headless::{
    acyclic_from, children_after_insert, children_after_remove, first_position,
    lemma_acyclic_iff_settled, lemma_lines_stable, other_than, tree_lines, update_node,
    with_new_node, NodeModel, TreeModel,
};
use crate::config::{enabled_platform_names, is_default_for_project, selected_platforms, Config};
use crate::templates::{is_project_data, ProjectData};
use crate::commands::build_plan::{esbuild_args_spec, target_platforms_spec};
use crate::commands::add::{
    element_file_spec, linux_element_text, snake_case_seq, LINUX_ELEMENT_0, LINUX_ELEMENT_1,
    LINUX_ELEMENT_10, LINUX_ELEMENT_11, LINUX_ELEMENT_12, LINUX_ELEMENT_13, LINUX_ELEMENT_14,
    LINUX_ELEMENT_15, LINUX_ELEMENT_16, LINUX_ELEMENT_17, LINUX_ELEMENT_2, LINUX_ELEMENT_3,
    LINUX_ELEMENT_4, LINUX_ELEMENT_5, LINUX_ELEMENT_6, LINUX_ELEMENT_7, LINUX_ELEMENT_8,
    LINUX_ELEMENT_9, has_platform_section, platform_kind_spec, platform_name, with_platform_enabled, PlatformKind,
};
use crate::strings::{
    all_ascii_digits, decimal, digit_char, digits_value, parse_i32_spec, signed_decimal,
    strings_view,
};
use crate::elements::{
    box_setting_spec, click_target, is_click_callback, text_setting_spec, Ellipsis, Orientation,
    SettingModel,
};

verus! {

// ---------------------------------------------------------------------------
// The bridge
// ---------------------------------------------------------------------------

/// A new bridge (no widgets, no root, no callbacks, first handle 1) has
/// valid handles.
pub proof fn new_bridge_valid(b: BridgeModel)
    requires
        b.widgets == Map::<i64, WidgetModel>::empty(),
        b.next_id == 1,
        b.root == None::<i64>,
        b.callbacks == Map::<i64, Map<Seq<char>, u64>>::empty(),
    ensures
        handles_valid(b),
        root_handle(b) == 0,
{
}

/// Creating a widget (`create_node`, `create_text`) hands out a positive
/// handle that named no widget before, under which the new widget is found
/// afterwards; every other widget is kept, and the handles stay valid.  (The
/// one input where this fails is a bridge whose counter is at `i64::MAX`,
/// where the counter wraps around.)
pub proof fn new_widget_handle_fresh(b: BridgeModel, w: WidgetModel)
    requires
        handles_valid(b),
        b.next_id < i64::MAX,
    ensures
        b.next_id > 0,
        !b.widgets.contains_key(b.next_id),
        with_new_widget(b, w).widgets.contains_key(b.next_id),
        with_new_widget(b, w).widgets[b.next_id] == w,
        with_new_widget(b, w).next_id == b.next_id + 1,
        forall|h: i64|
            #[trigger] b.widgets.contains_key(h) ==> with_new_widget(b, w).widgets.contains_key(h)
                && with_new_widget(b, w).widgets[h] == b.widgets[h],
        handles_valid(with_new_widget(b, w)),
{
    let n = with_new_widget(b, w);
    assert forall|h: i64| #[trigger] n.widgets.contains_key(h) implies 1 <= h < n.next_id by {
        if h != b.next_id {
            assert(b.widgets.contains_key(h));
        }
    }
}

/// Two widgets created one after the other get different handles.
pub proof fn successive_widgets_distinct(b: BridgeModel, w1: WidgetModel, w2: WidgetModel)
    requires
        handles_valid(b),
        b.next_id < i64::MAX - 1,
    ensures
        with_new_widget(b, w1).next_id != b.next_id,
        with_new_widget(with_new_widget(b, w1), w2).widgets[b.next_id] == w1,
        with_new_widget(with_new_widget(b, w1), w2).widgets[with_new_widget(b, w1).next_id]
            == w2,
{
    new_widget_handle_fresh(b, w1);
    new_widget_handle_fresh(with_new_widget(b, w1), w2);
}

/// After the platform sets the root container, `get_root_handle` reports a
/// positive handle that names a `__root__` widget at the given address, and
/// the handles stay valid.
pub proof fn root_after_set_root(b: BridgeModel, ptr: usize)
    requires
        handles_valid(b),
        b.next_id < i64::MAX,
    ensures
        ({
            let after = BridgeModel {
                root: Some(b.next_id),
                ..with_new_widget(b, WidgetModel { element_type: root_type(), ptr, text: None })
            };
            &&& root_handle(after) == b.next_id
            &&& root_handle(after) > 0
            &&& after.widgets[root_handle(after)] == WidgetModel {
                element_type: root_type(),
                ptr,
                text: None,
            }
            &&& handles_valid(after)
        }),
{
    new_widget_handle_fresh(b, WidgetModel { element_type: root_type(), ptr, text: None });
}

/// Handle 0 never names a widget, so every request about it asks nothing of
/// the platform and records nothing.
pub proof fn handle_zero_is_inert<F>(
    b: BridgeModel,
    reg: Map<Seq<char>, ElementFactory<F>>,
    other: i64,
    name: Seq<char>,
    value: Seq<char>,
    id: u64,
)
    requires
        handles_valid(b),
    ensures
        !b.widgets.contains_key(0),
        attribute_call(b, reg, 0, name, value) == CallModel::<F>::Nothing,
        !callback_recorded(b, reg, 0),
        callback_call(b, reg, 0, name, id) == CallModel::<F>::Nothing,
        append_call(b, reg, 0, other) == CallModel::<F>::Nothing,
        append_call(b, reg, other, 0) == CallModel::<F>::Nothing,
        insert_call(b, reg, 0, other, other) == CallModel::<F>::Nothing,
        insert_call(b, reg, other, 0, other) == CallModel::<F>::Nothing,
        remove_call(b, reg, 0, other) == CallModel::<F>::Nothing,
        remove_call(b, reg, other, 0) == CallModel::<F>::Nothing,
{
}

/// Appending a text node to a widget sets the text as the widget's
/// `children` attribute, through the widget's factory.
pub proof fn text_child_becomes_children_attribute<F>(
    b: BridgeModel,
    reg: Map<Seq<char>, ElementFactory<F>>,
    parent: i64,
    child: i64,
    text: Seq<char>,
)
    requires
        b.widgets.contains_key(child),
        b.widgets[child].element_type == text_type(),
        b.widgets[child].text == Some(text),
        b.widgets.contains_key(parent),
        b.widgets[parent].element_type != text_type(),
        reg.contains_key(b.widgets[parent].element_type),
        reg[b.widgets[parent].element_type].ops.set_attribute,
    ensures
        append_call(b, reg, parent, child) == (CallModel::SetAttribute {
            factory: reg[b.widgets[parent].element_type].native,
            widget: b.widgets[parent].ptr,
            name: children_attribute(),
            value: text,
        }),
{
}

/// The root container is a box: children are appended to it, inserted
/// into it and removed from it by the `box` factory's entry points.
pub proof fn root_children_go_through_box<F>(
    b: BridgeModel,
    reg: Map<Seq<char>, ElementFactory<F>>,
    child: i64,
    before: i64,
)
    requires
        (b.root is Some),
        b.widgets.contains_key(root_handle(b)),
        b.widgets[root_handle(b)].element_type == root_type(),
        b.widgets.contains_key(child),
        reg.contains_key(box_type()),
    ensures
        b.widgets[child].element_type != text_type() && reg[box_type()].ops.append_child
            ==> append_call(b, reg, root_handle(b), child) == (CallModel::AppendChild {
            factory: reg[box_type()].native,
            parent: b.widgets[root_handle(b)].ptr,
            child: b.widgets[child].ptr,
        }),
        b.widgets.contains_key(before) && reg[box_type()].ops.insert_before ==> insert_call(
            b,
            reg,
            root_handle(b),
            child,
            before,
        ) == (CallModel::InsertBefore {
            factory: reg[box_type()].native,
            parent: b.widgets[root_handle(b)].ptr,
            child: b.widgets[child].ptr,
            before: b.widgets[before].ptr,
        }),
        reg[box_type()].ops.remove_child ==> remove_call(b, reg, root_handle(b), child) == (
        CallModel::RemoveChild {
            factory: reg[box_type()].native,
            parent: b.widgets[root_handle(b)].ptr,
            child: b.widgets[child].ptr,
        }),
{
}

/// Below a parent that is not the root, children are appended, inserted and
/// removed by the factory registered under the parent's own element type,
/// whatever the child's type: the call names the parent's factory and the
/// widgets' native pointers.  A parent type with no factory asks nothing.
pub proof fn children_go_through_parent_factory<F>(
    b: BridgeModel,
    reg: Map<Seq<char>, ElementFactory<F>>,
    parent: i64,
    child: i64,
    before: i64,
)
    requires
        b.widgets.contains_key(parent),
        b.widgets.contains_key(child),
        b.widgets[parent].element_type != "__root__"@,
    ensures
        b.widgets[child].element_type != "__text__"@ && reg.contains_key(
            b.widgets[parent].element_type,
        ) && reg[b.widgets[parent].element_type].ops.append_child ==> append_call(
            b,
            reg,
            parent,
            child,
        ) == (CallModel::AppendChild {
            factory: reg[b.widgets[parent].element_type].native,
            parent: b.widgets[parent].ptr,
            child: b.widgets[child].ptr,
        }),
        b.widgets[child].element_type != "__text__"@ && !reg.contains_key(
            b.widgets[parent].element_type,
        ) ==> append_call(b, reg, parent, child) == CallModel::<F>::Nothing,
        b.widgets.contains_key(before) && reg.contains_key(b.widgets[parent].element_type)
            && reg[b.widgets[parent].element_type].ops.insert_before ==> insert_call(
            b,
            reg,
            parent,
            child,
            before,
        ) == (CallModel::InsertBefore {
            factory: reg[b.widgets[parent].element_type].native,
            parent: b.widgets[parent].ptr,
            child: b.widgets[child].ptr,
            before: b.widgets[before].ptr,
        }),
        reg.contains_key(b.widgets[parent].element_type)
            && reg[b.widgets[parent].element_type].ops.remove_child ==> remove_call(
            b,
            reg,
            parent,
            child,
        ) == (CallModel::RemoveChild {
            factory: reg[b.widgets[parent].element_type].native,
            parent: b.widgets[parent].ptr,
            child: b.widgets[child].ptr,
        }),
{
}

/// After `set_callback_with_id(handle, name, id)` on a widget that records
/// bindings, `id` is bound to `name` of `handle`; the other bindings of the
/// handle and those of other handles are kept, and the handles stay valid.
pub proof fn callback_binding_recorded<F>(
    b: BridgeModel,
    reg: Map<Seq<char>, ElementFactory<F>>,
    handle: i64,
    name: Seq<char>,
    id: u64,
)
    requires
        callback_recorded(b, reg, handle),
    ensures
        ({
            let cb = b.callbacks.insert(handle, bindings_of(b.callbacks, handle).insert(name, id));
            &&& bindings_of(cb, handle).contains_key(name)
            &&& bindings_of(cb, handle)[name] == id
            &&& forall|n: Seq<char>|
                n != name && #[trigger] bindings_of(b.callbacks, handle).contains_key(n)
                    ==> bindings_of(cb, handle).contains_key(n) && bindings_of(cb, handle)[n]
                    == bindings_of(b.callbacks, handle)[n]
            &&& forall|h: i64| h != handle ==> #[trigger] bindings_of(cb, h) == bindings_of(b.callbacks, h)
            &&& handles_valid(b) ==> handles_valid(BridgeModel { callbacks: cb, ..b })
        }),
{
}

/// `set_text` on a text node replaces its text and nothing else; the
/// handles stay valid.
pub proof fn set_text_replaces_text(b: BridgeModel, handle: i64, text: Seq<char>)
    requires
        handles_valid(b),
        b.widgets.contains_key(handle),
        b.widgets[handle].element_type == text_type(),
    ensures
        ({
            let w = b.widgets.insert(handle, WidgetModel { text: Some(text), ..b.widgets[handle] });
            &&& w[handle].text == Some(text)
            &&& w[handle].element_type == text_type()
            &&& w.dom() == b.widgets.dom()
            &&& handles_valid(BridgeModel { widgets: w, ..b })
        }),
{
    let w = b.widgets.insert(handle, WidgetModel { text: Some(text), ..b.widgets[handle] });
    assert(w.dom() =~= b.widgets.dom());
}

/// A button's click reaches the JavaScript callback that was bound to it:
/// binding callback `id` to a click event of a button hands the id to the
/// button's factory; once the platform stored it for the button, a click on
/// the button yields that id, under which the callback registry finds the
/// stored function.
pub proof fn click_invokes_bound_callback<F, J>(
    b: BridgeModel,
    reg: Map<Seq<char>, ElementFactory<F>>,
    handle: i64,
    name: Seq<char>,
    id: u64,
    buttons: Map<usize, usize>,
    stored: Map<u64, CallbackModel<J>>,
)
    requires
        callback_recorded(b, reg, handle),
        reg[b.widgets[handle].element_type].ops.set_callback,
        is_click_callback(name),
        0 < id <= usize::MAX,
        stored.contains_key(id),
    ensures
        callback_call(b, reg, handle, name, id) == (CallModel::SetCallback {
            factory: reg[b.widgets[handle].element_type].native,
            widget: b.widgets[handle].ptr,
            name,
            callback: id,
        }),
        click_target(buttons.insert(b.widgets[handle].ptr, id as usize), b.widgets[handle].ptr)
            == Some(id as usize),
        stored.contains_key((id as usize) as u64),
        stored[(id as usize) as u64] == stored[id],
{
}

/// A button keeps the click callback stored last; a click invokes it unless
/// it is null, and once the button is destroyed nothing is invoked.
pub proof fn button_click_callback_stored(m: Map<usize, usize>, widget: usize, callback: usize)
    ensures
        m.insert(widget, callback)[widget] == callback,
        click_target(m.insert(widget, callback), widget) == (if callback != 0 {
            Some(callback)
        } else {
            None
        }),
        click_target(m.insert(widget, callback).remove(widget), widget) is None,
{
}

// ---------------------------------------------------------------------------
// Callbacks
// ---------------------------------------------------------------------------

/// Two registrations in a row hand out different callback ids.
pub proof fn successive_callback_ids_differ(id: u64)
    ensures
        next_callback_id(id) != id,
{
}

/// A stored callback is found under its id until it is replaced or removed;
/// storing under one id leaves every other id as it was.
pub proof fn stored_callback_found<F>(
    m: Map<u64, CallbackModel<F>>,
    id: u64,
    cb: CallbackModel<F>,
    other: u64,
)
    ensures
        m.insert(id, cb).contains_key(id),
        m.insert(id, cb)[id] == cb,
        other != id ==> (m.insert(id, cb).contains_key(other) == m.contains_key(other)),
        other != id && m.contains_key(other) ==> m.insert(id, cb)[other] == m[other],
        !m.insert(id, cb).remove(id).contains_key(id),
{
}

/// After removing the callbacks of a widget none of them is left, and every
/// callback of another widget is still stored, unchanged.
pub proof fn widget_callbacks_removed<F>(m: Map<u64, CallbackModel<F>>, widget: i64)
    ensures
        ({
            let rest = m.remove_keys(
                Set::new(|id: u64| m.contains_key(id) && m[id].widget_handle == widget),
            );
            &&& forall|id: u64| #[trigger] rest.contains_key(id) ==> rest[id].widget_handle != widget
            &&& forall|id: u64|
                #[trigger] m.contains_key(id) && m[id].widget_handle != widget
                    ==> rest.contains_key(id) && rest[id] == m[id]
        }),
{
}

// ---------------------------------------------------------------------------
// The element registry
// ---------------------------------------------------------------------------

/// A registered factory is what `get` returns for its name; registering
/// under one name leaves the others as they were, and the count grows by one
/// exactly when the name is new.
pub proof fn registered_factory_found<F>(
    m: Map<Seq<char>, ElementFactory<F>>,
    name: Seq<char>,
    f: ElementFactory<F>,
    other: Seq<char>,
)
    requires
        m.dom().finite(),
    ensures
        m.insert(name, f).contains_key(name),
        m.insert(name, f)[name] == f,
        other != name ==> m.insert(name, f).contains_key(other) == m.contains_key(other),
        other != name && m.contains_key(other) ==> m.insert(name, f)[other] == m[other],
        m.insert(name, f).len() == if m.contains_key(name) {
            m.len()
        } else {
            m.len() + 1
        },
{
    if m.contains_key(name) {
        assert(m.insert(name, f).dom() =~= m.dom());
    } else {
        assert(m.insert(name, f).dom() =~= m.dom().insert(name));
    }
}

// ---------------------------------------------------------------------------
// The headless tree
// ---------------------------------------------------------------------------

/// A tree whose node handles all lie in `1..next_id`.
pub open spec fn node_handles_valid(t: TreeModel) -> bool {
    &&& 1 <= t.next_id
    &&& forall|h: i64| #[trigger] t.nodes.contains_key(h) ==> 1 <= h < t.next_id
}

/// A new tree (no nodes, first handle 1) has valid handles.
pub proof fn new_tree_valid(t: TreeModel)
    requires
        t.nodes == Map::<i64, NodeModel>::empty(),
        t.next_id == 1,
    ensures
        node_handles_valid(t),
{
}

/// A new node gets a positive handle that named no node before, and the
/// handles stay valid (unless the counter is at `i64::MAX`, where it wraps).
pub proof fn new_node_handle_fresh(t: TreeModel, n: NodeModel)
    requires
        node_handles_valid(t),
        t.next_id < i64::MAX,
    ensures
        t.next_id > 0,
        !t.nodes.contains_key(t.next_id),
        with_new_node(t, n).nodes[t.next_id] == n,
        with_new_node(t, n).next_id == t.next_id + 1,
        node_handles_valid(with_new_node(t, n)),
{
    let u = with_new_node(t, n);
    assert forall|h: i64| #[trigger] u.nodes.contains_key(h) implies 1 <= h < u.next_id by {
        if h != t.next_id {
            assert(t.nodes.contains_key(h));
        }
    }
}

/// Editing a node (attributes, children, text) keeps the set of handles, so
/// the handles stay valid.
pub proof fn node_edit_keeps_handles(t: TreeModel, handle: i64, n: NodeModel)
    requires
        t.nodes.contains_key(handle),
    ensures
        update_node(t, handle, n).nodes.dom() == t.nodes.dom(),
        node_handles_valid(update_node(t, handle, n)) == node_handles_valid(t),
{
    assert(update_node(t, handle, n).nodes.dom() =~= t.nodes.dom());
}

/// Printing a subtree that no path revisits needs no more levels than there
/// are nodes: any deeper bound prints the same lines, so the headless
/// runner's bound of one level per node prints such a tree completely.
pub proof fn acyclic_subtree_prints_completely(t: TreeModel, h: i64, indent: nat, more: nat)
    requires
        t.nodes.dom().finite(),
        acyclic_from(t, h),
    ensures
        tree_lines(t, h, indent, t.nodes.len()) == tree_lines(t, h, indent, t.nodes.len() + more),
{
    lemma_acyclic_iff_settled(t, h);
    lemma_lines_stable(t, h, indent, t.nodes.len(), t.nodes.len() + more);
}

/// `insert_before` puts the child right before the first occurrence of
/// `before`, keeping the other children in order; when `before` is not a
/// child, the child goes last.
pub proof fn insert_places_child_before(children: Seq<i64>, child: i64, before: i64)
    ensures
        children.contains(before) ==> ({
            let p = first_position(children, before);
            let r = children_after_insert(children, child, before);
            &&& 0 <= p < children.len()
            &&& r.len() == children.len() + 1
            &&& r[p] == child
            &&& r[p + 1] == before
            &&& r.remove(p) == children
        }),
        !children.contains(before) ==> children_after_insert(children, child, before)
            == children.push(child),
{
    if children.contains(before) {
        let k = lemma_first_occurrence(children, before);
        assert(forall|j: int| 0 <= j < k ==> children[j] != before);
        let p = first_position(children, before);
        assert(0 <= p < children.len() && children[p] == before);
        let r = children_after_insert(children, child, before);
        assert(r.remove(p) =~= children);
    }
}

/// After `remove_child(parent, child)` no occurrence of `child` is left, and
/// every other child is kept.
pub proof fn remove_drops_child(children: Seq<i64>, child: i64)
    ensures
        !children_after_remove(children, child).contains(child),
        forall|c: i64|
            c != child ==> (#[trigger] children_after_remove(children, child).contains(c)
                <==> children.contains(c)),
        children_after_remove(children, child).len() <= children.len(),
{
    broadcast use vstd::seq_lib::group_filter_ensures;

    let r = children_after_remove(children, child);
    if r.contains(child) {
        let i = choose|i: int| 0 <= i < r.len() && r[i] == child;
        assert(other_than(child)(r[i]));
    }
    assert forall|c: i64| c != child implies (#[trigger] r.contains(c) <==> children.contains(c)) by {
        if children.contains(c) {
            let i = choose|i: int| 0 <= i < children.len() && children[i] == c;
            assert(other_than(child)(children[i]));
        }
        if r.contains(c) {
            children.lemma_filter_contains_rev(other_than(child), c);
        }
    }
}

/// Removing a child that was just appended, or just inserted, restores the
/// children (when it was not a child before).
pub proof fn remove_undoes_insert(children: Seq<i64>, child: i64, before: i64)
    requires
        !children.contains(child),
    ensures
        children_after_remove(children.push(child), child) == children,
        children_after_remove(children_after_insert(children, child, before), child) == children,
{
    lemma_remove_after_push(children, child);
    if children.contains(before) {
        insert_places_child_before(children, child, before);
        lemma_remove_after_insert_at(children, child, first_position(children, before));
    }
}

/// Removing `x` from `s` with `x` inserted at `p` gives `s` back, when `x`
/// was not in `s`.
proof fn lemma_remove_after_insert_at(s: Seq<i64>, x: i64, p: int)
    requires
        !s.contains(x),
        0 <= p <= s.len(),
    ensures
        children_after_remove(s.insert(p, x), x) == s,
{
    let front = s.take(p);
    let back = s.skip(p);
    assert(s.insert(p, x) =~= front.push(x) + back);
    assert(!front.contains(x)) by {
        if front.contains(x) {
            let i = choose|i: int| 0 <= i < front.len() && front[i] == x;
            assert(s[i] == x);
        }
    }
    assert(!back.contains(x)) by {
        if back.contains(x) {
            let i = choose|i: int| 0 <= i < back.len() && back[i] == x;
            assert(s[p + i] == x);
        }
    }
    lemma_remove_after_push(front, x);
    lemma_filter_absent(back, x);
    Seq::filter_distributes_over_add(front.push(x), back, other_than(x));
    assert(front + back =~= s);
}

/// Removing `x` from `s` with `x` pushed on gives `s` back, when `x` was not in `s`.
proof fn lemma_remove_after_push(s: Seq<i64>, x: i64)
    requires
        !s.contains(x),
    ensures
        children_after_remove(s.push(x), x) == s,
{
    s.lemma_filter_push(x, other_than(x));
    lemma_filter_absent(s, x);
}

/// The first position at which `x` occurs in `s`.
proof fn lemma_first_occurrence(s: Seq<i64>, x: i64) -> (i: int)
    requires
        s.contains(x),
    ensures
        0 <= i < s.len(),
        s[i] == x,
        forall|j: int| 0 <= j < i ==> s[j] != x,
    decreases s.len(),
{
    if s.drop_last().contains(x) {
        let i = lemma_first_occurrence(s.drop_last(), x);
        assert(s[i] == s.drop_last()[i]);
        assert forall|j: int| 0 <= j < i implies s[j] != x by {
            assert(s[j] == s.drop_last()[j]);
        }
        i
    } else {
        let k = choose|k: int| 0 <= k < s.len() && s[k] == x;
        if k < s.len() - 1 {
            assert(s.drop_last()[k] == x);
        }
        assert forall|j: int| 0 <= j < s.len() - 1 implies s[j] != x by {
            if s[j] == x {
                assert(s.drop_last()[j] == x);
            }
        }
        s.len() - 1
    }
}

/// Filtering out a value that does not occur leaves a sequence as it is.
proof fn lemma_filter_absent(s: Seq<i64>, x: i64)
    requires
        !s.contains(x),
    ensures
        s.filter(other_than(x)) == s,
    decreases s.len(),
{
    reveal(Seq::filter);
    if s.len() > 0 {
        assert(!s.drop_last().contains(x)) by {
            if s.drop_last().contains(x) {
                let i = choose|i: int| 0 <= i < s.drop_last().len() && s.drop_last()[i] == x;
                assert(s[i] == x);
            }
        }
        lemma_filter_absent(s.drop_last(), x);
        assert(s.last() != x);
        assert(s.drop_last().push(s.last()) =~= s);
    } else {
        assert(s.filter(other_than(x)) =~= s);
    }
}

// ---------------------------------------------------------------------------
// Project configuration
// ---------------------------------------------------------------------------

/// The configuration that `rnl init` writes enables exactly the known
/// platforms among those requested, in the order linux, macos, windows.
pub proof fn new_project_enables_requested(c: Config, name: Seq<char>, platforms: Seq<Seq<char>>)
    requires
        is_default_for_project(c, name, platforms),
    ensures
        enabled_platform_names(c.platforms) == selected_platforms(platforms),
{
}

/// The template data and the configuration of a new project agree on its
/// name, version, description, window and platforms.
pub proof fn project_data_matches_config(
    c: Config,
    d: ProjectData,
    name: Seq<char>,
    platforms: Seq<Seq<char>>,
)
    requires
        is_default_for_project(c, name, platforms),
        is_project_data(d, name, platforms),
    ensures
        d.name@ == c.project.name@,
        d.version@ == c.project.version@,
        d.description@ == c.project.description@,
        d.title@ == c.window.title@,
        d.width == c.window.width,
        d.height == c.window.height,
        d.platforms.linux == (c.platforms.linux is Some),
        d.platforms.macos == (c.platforms.macos is Some),
        d.platforms.windows == (c.platforms.windows is Some),
{
}

/// The enabled platforms are distinct, and each is a platform that RNL
/// builds for; so every platform that a build targets (all of them, or the
/// requested ones once each is known to be enabled) has a build step.
pub proof fn build_targets_are_known(c: Config, option: Seq<char>)
    ensures
        enabled_platform_names(c.platforms).no_duplicates(),
        forall|i: int|
            0 <= i < enabled_platform_names(c.platforms).len() ==> platform_kind_spec(
                #[trigger] enabled_platform_names(c.platforms)[i],
            ) is Some,
        option == "all"@ ==> target_platforms_spec(option, c) == enabled_platform_names(
            c.platforms,
        ),
{
    lemma_platform_name_known(PlatformKind::Linux);
    lemma_platform_name_known(PlatformKind::MacOS);
    lemma_platform_name_known(PlatformKind::Windows);
    let names = enabled_platform_names(c.platforms);
    let a = if c.platforms.linux matches Some(l) && l.enabled {
        seq!["linux"@]
    } else {
        Seq::<Seq<char>>::empty()
    };
    let b = if c.platforms.macos matches Some(m) && m.enabled {
        seq!["macos"@]
    } else {
        Seq::<Seq<char>>::empty()
    };
    let w = if c.platforms.windows matches Some(x) && x.enabled {
        seq!["windows"@]
    } else {
        Seq::<Seq<char>>::empty()
    };
    assert(names == a + b + w);
    assert forall|i: int| 0 <= i < names.len() implies platform_kind_spec(#[trigger] names[i]) is Some by {
        if i < a.len() {
            assert(names[i] == a[i]);
        } else if i < a.len() + b.len() {
            assert(names[i] == b[i - a.len()]);
        } else {
            assert(names[i] == w[i - a.len() - b.len()]);
        }
    }
    assert forall|i: int, j: int| 0 <= i < j < names.len() implies names[i] != names[j] by {
        let ki = platform_kind_spec(names[i]);
        let kj = platform_kind_spec(names[j]);
        if i < a.len() {
            assert(names[i] == a[i]);
        } else if i < a.len() + b.len() {
            assert(names[i] == b[i - a.len()]);
        } else {
            assert(names[i] == w[i - a.len() - b.len()]);
        }
        if j < a.len() {
            assert(names[j] == a[j]);
        } else if j < a.len() + b.len() {
            assert(names[j] == b[j - a.len()]);
        } else {
            assert(names[j] == w[j - a.len() - b.len()]);
        }
        assert(ki != kj);
    }
}

// ---------------------------------------------------------------------------
// rnl add
// ---------------------------------------------------------------------------

/// Once `rnl add element name` has recorded the element, adding it again is
/// refused (the name is among the project's custom elements).
pub proof fn added_element_is_known(before: Config, after: Config, name: Seq<char>)
    requires
        strings_view(after.elements.custom@) == strings_view(before.elements.custom@).push(name),
    ensures
        strings_view(after.elements.custom@).contains(name),
{
    assert(strings_view(after.elements.custom@)[strings_view(before.elements.custom@).len() as int]
        == name);
}

/// After `rnl add platform` enables a platform, the platform is among the
/// enabled platforms, and adding it again is refused (its section is present).
pub proof fn added_platform_is_enabled(before: Config, after: Config, kind: PlatformKind)
    requires
        with_platform_enabled(before, after, kind),
    ensures
        has_platform_section(after, kind),
        enabled_platform_names(after.platforms).contains(platform_name(kind)),
        platform_kind_spec(platform_name(kind)) == Some(kind),
{
    lemma_platform_name_known(kind);
    let names = enabled_platform_names(after.platforms);
    match kind {
        PlatformKind::Linux => {
            assert(names[0] == platform_name(kind));
        },
        PlatformKind::MacOS => {
            let a = if after.platforms.linux matches Some(c) && c.enabled {
                seq!["linux"@]
            } else {
                Seq::<Seq<char>>::empty()
            };
            assert(names[a.len() as int] == platform_name(kind));
        },
        PlatformKind::Windows => {
            assert(names[names.len() - 1] == platform_name(kind));
        },
    }
}

// ---------------------------------------------------------------------------
// Numbers
// ---------------------------------------------------------------------------

/// Parsing the decimal form of an `i32` (as `to_string` writes it) gives the
/// number back.
pub proof fn decimal_parses_back(n: i32)
    ensures
        parse_i32_spec(signed_decimal(n as int)) == Some(n),
{
    if n < 0 {
        let m = (-(n as int)) as nat;
        lemma_decimal_digits(m);
        let s = signed_decimal(n as int);
        assert(s == seq!['-'] + decimal(m));
        assert(s[0] == '-');
        assert(s.drop_first() =~= decimal(m));
    } else {
        lemma_decimal_digits(n as nat);
        let s = signed_decimal(n as int);
        assert(s == decimal(n as nat));
        assert('0' <= s[0] && s[0] <= '9');
    }
}

/// The value of a decimal digit character.
proof fn lemma_digit_value(d: nat)
    requires
        d < 10,
    ensures
        '0' <= digit_char(d) && digit_char(d) <= '9',
        (digit_char(d) as int) - ('0' as int) == d,
{
}

/// The decimal form of `n` is a non-empty run of ASCII digits worth `n`.
proof fn lemma_decimal_digits(n: nat)
    ensures
        decimal(n).len() >= 1,
        all_ascii_digits(decimal(n)),
        digits_value(decimal(n)) == n,
    decreases n,
{
    if n < 10 {
        lemma_digit_value(n);
        let s = decimal(n);
        assert(s.drop_last() =~= Seq::<char>::empty());
        assert(digits_value(s) == digits_value(s.drop_last()) * 10 + ((s.last() as int) - (
        '0' as int)) as nat);
    } else {
        lemma_decimal_digits(n / 10);
        lemma_digit_value(n % 10);
        let s = decimal(n);
        assert(s.drop_last() =~= decimal(n / 10));
        assert(s.last() == digit_char(n % 10));
        assert(digits_value(s) == digits_value(s.drop_last()) * 10 + ((s.last() as int) - (
        '0' as int)) as nat);
        assert(digits_value(s) == (n / 10) * 10 + n % 10);
        assert((n / 10) * 10 + n % 10 == n);
        assert forall|i: int| 0 <= i < s.len() implies '0' <= #[trigger] s[i] && s[i] <= '9' by {
            if i < s.len() - 1 {
                assert(s[i] == decimal(n / 10)[i]);
            }
        }
    }
}

/// Each platform's name is recognised as that platform.
proof fn lemma_platform_name_known(kind: PlatformKind)
    ensures
        platform_kind_spec(platform_name(kind)) == Some(kind),
{
    reveal_strlit("linux");
    reveal_strlit("macos");
    reveal_strlit("windows");
    match kind {
        PlatformKind::Linux => {},
        PlatformKind::MacOS => {
            assert("macos"@[0] != "linux"@[0]);
        },
        PlatformKind::Windows => {
            assert("windows"@[0] != "linux"@[0]);
            assert("windows"@[0] != "macos"@[0]);
        },
    }
}

// ---------------------------------------------------------------------------
// The Linux elements
// ---------------------------------------------------------------------------

/// A box's `orientation` attribute always sets the orientation, and it is
/// horizontal exactly for the values `horizontal` and `row`; every other
/// value lays the box out vertically.
pub proof fn box_orientation_values(value: Seq<char>)
    ensures
        box_setting_spec("orientation"@, value) is Orientation,
        box_setting_spec("orientation"@, value) == SettingModel::Orientation(Orientation::Horizontal)
            <==> (value == "horizontal"@ || value == "row"@),
        box_setting_spec("orientation"@, value) == SettingModel::Orientation(Orientation::Vertical)
            <==> !(value == "horizontal"@ || value == "row"@),
{
}

/// A label's `ellipsize` attribute names the mode of the same name:
/// `start`, `middle` and `end` shorten the text there, and any other value
/// turns ellipsizing off.
pub proof fn ellipsize_values(value: Seq<char>)
    ensures
        text_setting_spec("ellipsize"@, value) == SettingModel::Ellipsize(Ellipsis::Start) <==> value
            == "start"@,
        text_setting_spec("ellipsize"@, value) == SettingModel::Ellipsize(Ellipsis::Middle)
            <==> value == "middle"@,
        text_setting_spec("ellipsize"@, value) == SettingModel::Ellipsize(Ellipsis::End) <==> value
            == "end"@,
        text_setting_spec("ellipsize"@, value) == SettingModel::Ellipsize(Ellipsis::Off) <==> !(
        value == "start"@ || value == "middle"@ || value == "end"@),
{
    reveal_strlit("start");
    reveal_strlit("middle");
    reveal_strlit("end");
    reveal_strlit("ellipsize");
    reveal_strlit("children");
    reveal_strlit("text");
    reveal_strlit("label");
    reveal_strlit("selectable");
    reveal_strlit("wrap");
    reveal_strlit("lines");
    reveal_strlit("max-lines");
    assert("ellipsize"@[0] != "max-lines"@[0]);
    assert("ellipsize"@ != "max-lines"@);
    assert("ellipsize"@ != "children"@ && "ellipsize"@ != "text"@ && "ellipsize"@ != "label"@);
    assert("ellipsize"@ != "selectable"@ && "ellipsize"@ != "wrap"@ && "ellipsize"@ != "lines"@);
    assert("start"@.len() == 5 && "middle"@.len() == 6 && "end"@.len() == 3);
}

// ---------------------------------------------------------------------------
// The build
// ---------------------------------------------------------------------------

/// Debug and release builds run esbuild with the same arguments but the
/// last: both bundle `src/index.tsx` into `target/bundle.js`, and only a
/// release build minifies, where a debug build writes a source map.
pub proof fn esbuild_always_bundles(release: bool)
    ensures
        esbuild_args_spec(release).len() == 8,
        esbuild_args_spec(release)[0] == "src/index.tsx"@,
        esbuild_args_spec(release).contains("--bundle"@),
        esbuild_args_spec(release).contains("--outfile=target/bundle.js"@),
        esbuild_args_spec(false).take(7) == esbuild_args_spec(true).take(7),
        esbuild_args_spec(release).last() == (if release {
            "--minify"@
        } else {
            "--sourcemap"@
        }),
{
    assert(esbuild_args_spec(release)[1] == "--bundle"@);
    assert(esbuild_args_spec(release)[2] == "--outfile=target/bundle.js"@);
    assert(esbuild_args_spec(false).take(7) =~= esbuild_args_spec(true).take(7));
}

// ---------------------------------------------------------------------------
// Custom elements
// ---------------------------------------------------------------------------

/// The Linux source of a custom element is written to
/// `platforms/linux/src/elements/<name>.cpp`, and its factory registers the
/// element under the name the user gave, as written (the snake_case form
/// only names the C functions).
pub proof fn linux_element_registered_under_its_name(name: Seq<char>)
    ensures
        element_file_spec("linux"@, name) is Some,
        element_file_spec("linux"@, name).unwrap().0 == "platforms/linux/src/elements/"@ + name
            + ".cpp"@,
        exists|before: Seq<char>, after: Seq<char>|
            element_file_spec("linux"@, name).unwrap().1 == before + (LINUX_ELEMENT_8@ + name
                + LINUX_ELEMENT_9@) + after,
{
    let snake = snake_case_seq(name);
    let before = LINUX_ELEMENT_0@ + name + LINUX_ELEMENT_1@ + snake + LINUX_ELEMENT_2@ + snake
        + LINUX_ELEMENT_3@ + snake + LINUX_ELEMENT_4@ + snake + LINUX_ELEMENT_5@ + snake
        + LINUX_ELEMENT_6@ + snake + LINUX_ELEMENT_7@ + snake;
    let after = snake + LINUX_ELEMENT_10@ + snake + LINUX_ELEMENT_11@ + snake + LINUX_ELEMENT_12@
        + snake + LINUX_ELEMENT_13@ + snake + LINUX_ELEMENT_14@ + snake + LINUX_ELEMENT_15@ + snake
        + LINUX_ELEMENT_16@ + snake + LINUX_ELEMENT_17@;
    assert(linux_element_text(name, snake) =~= before + (LINUX_ELEMENT_8@ + name
        + LINUX_ELEMENT_9@) + after);
}

} // verus!
