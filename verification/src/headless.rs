//! The headless runner's UI tree.
//!
//! Without a GUI, the native module calls of a JS bundle build a tree of
//! nodes instead of widgets: each node has a type, attributes, child handles
//! and, for text nodes, a text.  The tree is printed as indented lines.
use vstd::prelude::*;
use std::collections::HashMap;
use crate::names::NameMap;
use crate::strings::{
    debug_quoted, debug_str, i64_to_decimal, join, join_seq, signed_decimal, str_eq,
    strings_view,
};

verus! {

broadcast use vstd::std_specs::hash::group_hash_axioms;

/// A node of the headless tree.
pub struct HeadlessNode {
    node_type: String,
    attributes: NameMap<String>,
    children: Vec<i64>,
    text: Option<String>,
}

/// The abstract form of a node.
#[verifier::ext_equal]
pub struct NodeModel {
    pub node_type: Seq<char>,
    /// Value of each attribute
    pub attributes: Map<Seq<char>, Seq<char>>,
    /// Attribute names in the order they were first set
    pub attribute_names: Seq<Seq<char>>,
    pub children: Seq<i64>,
    pub text: Option<Seq<char>>,
}

/// The abstract form of the tree.
pub struct TreeModel {
    pub nodes: Map<i64, NodeModel>,
    /// The handle that the next node gets
    pub next_id: i64,
    /// The root's handle (0 until a root is created)
    pub root: i64,
}

impl HeadlessNode {
    pub closed spec fn model(&self) -> NodeModel {
        NodeModel {
            node_type: self.node_type@,
            attributes: self.attributes@.map_values(|v: String| v@),
            attribute_names: self.attributes.keys_seq(),
            children: self.children@,
            text: match self.text {
                Some(t) => Some(t@),
                None => None,
            },
        }
    }
}

/// The handle that follows `id` (wrapping at `i64::MAX`).
pub open spec fn next_node_id(id: i64) -> i64 {
    if id == i64::MAX {
        i64::MIN
    } else {
        (id + 1) as i64
    }
}

/// A fresh node of type `t`, with no attributes, children or text.
pub open spec fn empty_node(t: Seq<char>, text: Option<Seq<char>>) -> NodeModel {
    NodeModel {
        node_type: t,
        attributes: Map::empty(),
        attribute_names: Seq::empty(),
        children: Seq::empty(),
        text,
    }
}

/// The tree after a new node `n` got the next handle.
pub open spec fn with_new_node(t: TreeModel, n: NodeModel) -> TreeModel {
    TreeModel { nodes: t.nodes.insert(t.next_id, n), next_id: next_node_id(t.next_id), root: t.root }
}

/// The first position of `x` in `s`.
pub open spec fn first_position(s: Seq<i64>, x: i64) -> int {
    choose|i: int| 0 <= i < s.len() && s[i] == x && forall|j: int| 0 <= j < i ==> s[j] != x
}

/// The children after inserting `child` before the first `before`, or at the
/// end when `before` is not a child.
pub open spec fn children_after_insert(children: Seq<i64>, child: i64, before: i64) -> Seq<i64> {
    if children.contains(before) {
        children.insert(first_position(children, before), child)
    } else {
        children.push(child)
    }
}

/// Whether a child handle differs from `child`.
pub open spec fn other_than(child: i64) -> spec_fn(i64) -> bool {
    |c: i64| c != child
}

/// The children after removing every occurrence of `child`.
pub open spec fn children_after_remove(children: Seq<i64>, child: i64) -> Seq<i64> {
    children.filter(other_than(child))
}

/// The tree with node `handle` replaced by `f(node)`, when `handle` names a node.
pub open spec fn update_node(t: TreeModel, handle: i64, n: NodeModel) -> TreeModel {
    TreeModel { nodes: t.nodes.insert(handle, n), ..t }
}

// ---------------------------------------------------------------------------
// Printing
// ---------------------------------------------------------------------------

/// Two spaces per level of indentation.
pub open spec fn indent_prefix(n: nat) -> Seq<char>
    decreases n,
{
    if n == 0 {
        Seq::<char>::empty()
    } else {
        indent_prefix((n - 1) as nat) + "  "@
    }
}

/// `name=value` for each attribute, in the order the names were first set.
pub open spec fn attribute_items(n: NodeModel) -> Seq<Seq<char>> {
    n.attribute_names.map_values(|k: Seq<char>| k + "="@ + debug_str(n.attributes[k]))
}

/// The attribute part of an element's line: empty, or ` [a=.., b=..]`.
pub open spec fn attributes_part(n: NodeModel) -> Seq<char> {
    if n.attribute_names.len() == 0 {
        Seq::<char>::empty()
    } else {
        " ["@ + join_seq(attribute_items(n), ", "@) + "]"@
    }
}

/// The line that describes node `n` (handle `handle`) at depth `indent`.
pub open spec fn node_line(n: NodeModel, handle: i64, indent: nat) -> Seq<char> {
    let prefix = indent_prefix(indent);
    if n.node_type == "__text__"@ {
        prefix + "TEXT: "@ + debug_str(
            match n.text {
                Some(t) => t,
                None => Seq::<char>::empty(),
            },
        )
    } else if n.node_type == "__root__"@ {
        prefix + "ROOT (handle="@ + signed_decimal(handle as int) + ")"@
    } else {
        prefix + "<"@ + n.node_type + ">"@ + attributes_part(n) + " (handle="@ + signed_decimal(
            handle as int,
        ) + ")"@
    }
}

/// The lines of the subtree at `handle`, depth first, descending at most
/// `fuel` levels; a handle that names no node prints nothing.
pub open spec fn tree_lines(t: TreeModel, handle: i64, indent: nat, fuel: nat) -> Seq<Seq<char>>
    decreases fuel, 0nat,
{
    if fuel == 0 || !t.nodes.contains_key(handle) {
        Seq::<Seq<char>>::empty()
    } else {
        seq![node_line(t.nodes[handle], handle, indent)] + children_lines(
            t,
            t.nodes[handle].children,
            indent + 1,
            (fuel - 1) as nat,
        )
    }
}

/// The lines of the subtrees at `children`, one after another.
pub open spec fn children_lines(t: TreeModel, children: Seq<i64>, indent: nat, fuel: nat) -> Seq<
    Seq<char>,
>
    decreases fuel, children.len() + 1,
{
    if children.len() == 0 {
        Seq::<Seq<char>>::empty()
    } else {
        children_lines(t, children.drop_last(), indent, fuel) + tree_lines(
            t,
            children.last(),
            indent,
            fuel,
        )
    }
}

/// Whether `p` is a path down the tree: every entry is a node, and each
/// one after the first is a child of the one before.
pub open spec fn is_path(t: TreeModel, p: Seq<i64>) -> bool {
    &&& forall|i: int| 0 <= i < p.len() ==> t.nodes.contains_key(#[trigger] p[i])
    &&& forall|i: int|
        0 <= i < p.len() - 1 ==> t.nodes[#[trigger] p[i]].children.contains(p[i + 1])
}

/// Whether no path down from `h` meets a node twice, so that printing the
/// subtree at `h` comes to an end.
pub open spec fn acyclic_from(t: TreeModel, h: i64) -> bool {
    forall|p: Seq<i64>| #[trigger] is_path(t, p) && p.len() > 0 && p[0] == h ==> p.no_duplicates()
}

/// Whether printing the subtree at `h` ends within `fuel` levels.
pub open spec fn settled(t: TreeModel, h: i64, fuel: nat) -> bool
    decreases fuel,
{
    !t.nodes.contains_key(h) || (fuel > 0 && forall|c: i64|
        #[trigger] t.nodes[h].children.contains(c) ==> settled(t, c, (fuel - 1) as nat))
}

/// Printing with more fuel than a subtree needs prints the same lines.
pub(crate) proof fn lemma_lines_stable(t: TreeModel, h: i64, indent: nat, f: nat, g: nat)
    requires
        settled(t, h, f),
        f <= g,
    ensures
        tree_lines(t, h, indent, f) == tree_lines(t, h, indent, g),
    decreases f, 0nat,
{
    if t.nodes.contains_key(h) {
        let cs = t.nodes[h].children;
        assert forall|i: int| 0 <= i < cs.len() implies settled(t, #[trigger] cs[i], (f - 1) as nat) by {
            assert(cs.contains(cs[i]));
        }
        lemma_children_stable(t, cs, indent + 1, (f - 1) as nat, (g - 1) as nat);
    }
}

/// The same for a sequence of subtrees.
proof fn lemma_children_stable(t: TreeModel, cs: Seq<i64>, indent: nat, f: nat, g: nat)
    requires
        forall|i: int| 0 <= i < cs.len() ==> settled(t, #[trigger] cs[i], f),
        f <= g,
    ensures
        children_lines(t, cs, indent, f) == children_lines(t, cs, indent, g),
    decreases f, cs.len() + 1,
{
    if cs.len() > 0 {
        assert forall|i: int| 0 <= i < cs.drop_last().len() implies settled(
            t,
            #[trigger] cs.drop_last()[i],
            f,
        ) by {
            assert(cs.drop_last()[i] == cs[i]);
        }
        lemma_children_stable(t, cs.drop_last(), indent, f, g);
        lemma_lines_stable(t, cs.last(), indent, f, g);
    }
}

/// A subtree that does not end within `f` levels has a path of `f + 1` nodes.
proof fn lemma_unsettled_path(t: TreeModel, h: i64, f: nat) -> (p: Seq<i64>)
    requires
        !settled(t, h, f),
    ensures
        p.len() == f + 1,
        p[0] == h,
        is_path(t, p),
    decreases f,
{
    if f == 0 {
        seq![h]
    } else {
        let c = choose|c: i64|
            #[trigger] t.nodes[h].children.contains(c) && !settled(t, c, (f - 1) as nat);
        let q = lemma_unsettled_path(t, c, (f - 1) as nat);
        let p = seq![h] + q;
        assert forall|i: int| 0 <= i < p.len() implies t.nodes.contains_key(#[trigger] p[i]) by {
            if i > 0 {
                assert(p[i] == q[i - 1]);
            }
        }
        assert forall|i: int| 0 <= i < p.len() - 1 implies t.nodes[#[trigger] p[i]].children.contains(
            p[i + 1],
        ) by {
            if i > 0 {
                assert(p[i] == q[i - 1]);
                assert(p[i + 1] == q[i]);
            }
        }
        p
    }
}

/// A path of more than `f` nodes keeps its first node from settling within
/// `f` levels.
proof fn lemma_long_path_unsettled(t: TreeModel, p: Seq<i64>, f: nat)
    requires
        is_path(t, p),
        p.len() > f,
    ensures
        !settled(t, p[0], f),
    decreases f,
{
    assert(t.nodes.contains_key(p[0]));
    if f > 0 {
        let q = p.drop_first();
        assert forall|i: int| 0 <= i < q.len() implies t.nodes.contains_key(#[trigger] q[i]) by {
            assert(q[i] == p[i + 1]);
        }
        assert forall|i: int| 0 <= i < q.len() - 1 implies t.nodes[#[trigger] q[i]].children.contains(
            q[i + 1],
        ) by {
            assert(q[i] == p[i + 1]);
            assert(q[i + 1] == p[i + 2]);
        }
        lemma_long_path_unsettled(t, q, (f - 1) as nat);
        assert(t.nodes[p[0]].children.contains(p[1]));
    }
}

/// A path that meets a node twice, at `i` and at `j`, goes round the loop
/// between them as often as needed to reach `len` nodes.
proof fn lemma_pumped_path(t: TreeModel, p: Seq<i64>, i: int, j: int, len: nat) -> (q: Seq<i64>)
    requires
        is_path(t, p),
        0 <= i < j < p.len(),
        p[i] == p[j],
    ensures
        is_path(t, q),
        q.len() >= len,
        q[0] == p[0],
    decreases len - p.len(),
{
    if p.len() >= len {
        p
    } else {
        let q = p.take(j) + p.subrange(i, p.len() as int);
        assert forall|k: int| 0 <= k < q.len() implies t.nodes.contains_key(#[trigger] q[k]) by {
            if k < j {
                assert(q[k] == p[k]);
            } else {
                assert(q[k] == p[i + k - j]);
            }
        }
        assert forall|k: int| 0 <= k < q.len() - 1 implies t.nodes[#[trigger] q[k]].children.contains(
            q[k + 1],
        ) by {
            if k + 1 < j {
                assert(q[k] == p[k] && q[k + 1] == p[k + 1]);
            } else if k + 1 == j {
                assert(q[k] == p[k] && q[k + 1] == p[i]);
            } else {
                assert(q[k] == p[i + k - j] && q[k + 1] == p[i + k + 1 - j]);
            }
        }
        assert(q[i] == p[i] && q[j] == p[i]);
        if q.len() >= len {
            q
        } else {
            lemma_pumped_path(t, q, i, j, len)
        }
    }
}

/// With finitely many nodes, a subtree that no path revisits settles within
/// as many levels as there are nodes, and one that does never settles.
pub(crate) proof fn lemma_acyclic_iff_settled(t: TreeModel, h: i64)
    requires
        t.nodes.dom().finite(),
    ensures
        acyclic_from(t, h) <==> settled(t, h, t.nodes.len()),
{
    let n = t.nodes.len();
    if acyclic_from(t, h) && !settled(t, h, n) {
        let p = lemma_unsettled_path(t, h, n);
        assert(is_path(t, p) && p.len() > 0 && p[0] == h);
        assert(p.no_duplicates());
        p.unique_seq_to_set();
        assert(p.to_set().subset_of(t.nodes.dom())) by {
            assert forall|x: i64| #[trigger] p.to_set().contains(x) implies t.nodes.dom().contains(x) by {
                let i = choose|i: int| 0 <= i < p.len() && p[i] == x;
                assert(t.nodes.contains_key(p[i]));
            }
        }
        vstd::set_lib::lemma_len_subset(p.to_set(), t.nodes.dom());
    }
    if !acyclic_from(t, h) {
        let p = choose|p: Seq<i64>| #[trigger] is_path(t, p) && p.len() > 0 && p[0] == h
            && !p.no_duplicates();
        let (i, j) = choose|i: int, j: int| 0 <= i < p.len() && 0 <= j < p.len() && i != j
            && p[i] == p[j];
        let q = if i < j {
            lemma_pumped_path(t, p, i, j, n + 1)
        } else {
            lemma_pumped_path(t, p, j, i, n + 1)
        };
        lemma_long_path_unsettled(t, q, n);
    }
}

// ---------------------------------------------------------------------------
// The tree
// ---------------------------------------------------------------------------

/// Nodes by handle, with the handle counter and the root.
pub struct HeadlessTree {
    nodes: HashMap<i64, HeadlessNode>,
    next_id: i64,
    root: i64,
}

impl HeadlessTree {
    pub closed spec fn view(&self) -> TreeModel {
        TreeModel {
            nodes: self.nodes@.map_values(|n: HeadlessNode| n.model()),
            next_id: self.next_id,
            root: self.root,
        }
    }

    /// No nodes; the first handle is 1 and the root handle is 0.
    pub fn new() -> (t: Self)
        ensures
            t@ == (TreeModel { nodes: Map::empty(), next_id: 1, root: 0 }),
    {
        let t = HeadlessTree { nodes: HashMap::new(), next_id: 1, root: 0 };
        assert(t@.nodes =~= Map::<i64, NodeModel>::empty());
        t
    }

    fn add_node(&mut self, n: HeadlessNode) -> (id: i64)
        ensures
            id == old(self)@.next_id,
            final(self)@ == with_new_node(old(self)@, n.model()),
    {
        let id = self.next_id;
        self.next_id = if id == i64::MAX {
            i64::MIN
        } else {
            id + 1
        };
        let ghost nm = n.model();
        let ghost before = self.nodes@;
        self.nodes.insert(id, n);
        proof {
            assert(self.nodes@ == before.insert(id, n));
            assert(self@.nodes =~= old(self)@.nodes.insert(id, nm));
        }
        id
    }

    /// Takes node `handle` out of the map, to be put back by `put_node`.
    fn take_node(&mut self, handle: i64) -> (r: Option<HeadlessNode>)
        ensures
            r is Some ==> old(self)@.nodes.contains_key(handle),
            r is Some ==> r->0.model() == old(self)@.nodes[handle],
            r is Some ==> final(self).nodes@ == old(self).nodes@.remove(handle),
            r is None ==> !old(self)@.nodes.contains_key(handle),
            r is None ==> final(self).nodes@ == old(self).nodes@,
            final(self).next_id == old(self).next_id,
            final(self).root == old(self).root,
    {
        let ghost before = self.nodes@;
        let r = self.nodes.remove(&handle);
        proof {
            match &r {
                Some(n) => {
                    assert(before.contains_key(handle) && before[handle] == *n);
                    assert(old(self)@.nodes.contains_key(handle));
                    assert(old(self)@.nodes[handle] == before[handle].model());
                    assert(self.nodes@ == before.remove(handle));
                },
                None => {
                    assert(!before.contains_key(handle));
                    assert(self.nodes@ == before.remove(handle));
                    assert(self.nodes@ =~= before);
                },
            }
        }
        r
    }

    /// Creates a node of type `node_type` and returns its handle.
    pub fn create_node(&mut self, node_type: &str) -> (id: i64)
        ensures
            id == old(self)@.next_id,
            final(self)@ == with_new_node(old(self)@, empty_node(node_type@, None)),
    {
        let n = HeadlessNode {
            node_type: String::from_str(node_type),
            attributes: NameMap::new(),
            children: Vec::new(),
            text: None,
        };
        assert(n.model() =~= empty_node(node_type@, None));
        self.add_node(n)
    }

    /// Creates a text node holding `text` and returns its handle.
    pub fn create_text(&mut self, text: &str) -> (id: i64)
        ensures
            id == old(self)@.next_id,
            final(self)@ == with_new_node(old(self)@, empty_node("__text__"@, Some(text@))),
    {
        let n = HeadlessNode {
            node_type: String::from_str("__text__"),
            attributes: NameMap::new(),
            children: Vec::new(),
            text: Some(String::from_str(text)),
        };
        assert(n.model() =~= empty_node("__text__"@, Some(text@)));
        self.add_node(n)
    }

    /// Creates the root container node and makes it the root.
    pub fn create_root(&mut self) -> (id: i64)
        ensures
            id == old(self)@.next_id,
            final(self)@ == (TreeModel {
                root: id,
                ..with_new_node(old(self)@, empty_node("__root__"@, None))
            }),
    {
        let n = HeadlessNode {
            node_type: String::from_str("__root__"),
            attributes: NameMap::new(),
            children: Vec::new(),
            text: None,
        };
        assert(n.model() =~= empty_node("__root__"@, None));
        let id = self.add_node(n);
        self.root = id;
        id
    }

    /// The root's handle.
    pub fn get_root_handle(&self) -> (h: i64)
        ensures
            h == self@.root,
    {
        self.root
    }

    /// Sets attribute `name` of node `handle` to `value`; unknown handles are ignored.
    pub fn set_attribute(&mut self, handle: i64, name: &str, value: &str)
        ensures
            final(self)@ == (if old(self)@.nodes.contains_key(handle) {
                update_node(
                    old(self)@,
                    handle,
                    NodeModel {
                        attributes: old(self)@.nodes[handle].attributes.insert(name@, value@),
                        attribute_names: if old(self)@.nodes[handle].attributes.contains_key(
                            name@,
                        ) {
                            old(self)@.nodes[handle].attribute_names
                        } else {
                            old(self)@.nodes[handle].attribute_names.push(name@)
                        },
                        ..old(self)@.nodes[handle]
                    },
                )
            } else {
                old(self)@
            }),
    {
        let ghost before = self@;
        match self.take_node(handle) {
            Some(mut n) => {
                let ghost nm = n.model();
                proof {
                    assert(n.attributes@.dom() =~= nm.attributes.dom());
                }
                n.attributes.insert(String::from_str(name), String::from_str(value));
                let ghost new_nm = n.model();
                proof {
                    assert(new_nm.attributes =~= nm.attributes.insert(name@, value@));
                }
                let ghost raw = self.nodes@;
                self.nodes.insert(handle, n);
                proof {
                    assert(self.nodes@ == raw.insert(handle, n));
                    assert(self@.nodes =~= before.nodes.insert(handle, new_nm));
                }
            },
            None => {},
        }
    }

    /// Appends `child` to the children of `parent`; unknown parents are ignored.
    pub fn append_child(&mut self, parent: i64, child: i64)
        ensures
            final(self)@ == (if old(self)@.nodes.contains_key(parent) {
                update_node(
                    old(self)@,
                    parent,
                    NodeModel {
                        children: old(self)@.nodes[parent].children.push(child),
                        ..old(self)@.nodes[parent]
                    },
                )
            } else {
                old(self)@
            }),
    {
        let ghost before = self@;
        match self.take_node(parent) {
            Some(mut n) => {
                n.children.push(child);
                let ghost new_nm = n.model();
                let ghost raw = self.nodes@;
                self.nodes.insert(parent, n);
                proof {
                    assert(self.nodes@ == raw.insert(parent, n));
                    assert(self@.nodes =~= before.nodes.insert(parent, new_nm));
                }
            },
            None => {},
        }
    }

    /// Inserts `child` into the children of `parent` before the first
    /// occurrence of `before`, or at the end when `before` is not a child;
    /// unknown parents are ignored.
    pub fn insert_before(&mut self, parent: i64, child: i64, before: i64)
        ensures
            final(self)@ == (if old(self)@.nodes.contains_key(parent) {
                update_node(
                    old(self)@,
                    parent,
                    NodeModel {
                        children: children_after_insert(
                            old(self)@.nodes[parent].children,
                            child,
                            before,
                        ),
                        ..old(self)@.nodes[parent]
                    },
                )
            } else {
                old(self)@
            }),
    {
        let ghost start = self@;
        match self.take_node(parent) {
            Some(mut n) => {
                let ghost old_children = n.children@;
                let mut pos: usize = 0;
                while pos < n.children.len() && n.children[pos] != before
                    invariant
                        pos <= n.children@.len(),
                        n.children@ == old_children,
                        forall|j: int| 0 <= j < pos ==> old_children[j] != before,
                    decreases n.children@.len() - pos,
                {
                    pos = pos + 1;
                }
                if pos < n.children.len() {
                    proof {
                        assert(old_children.contains(before));
                        let f = first_position(old_children, before);
                        assert(old_children[pos as int] == before);
                        assert(exists|i: int|
                            0 <= i < old_children.len() && old_children[i] == before && forall|
                                j: int,
                            | 0 <= j < i ==> old_children[j] != before);
                        if f < pos {
                        } else if f > pos {
                            assert(old_children[pos as int] != before);
                        }
                        assert(f == pos);
                    }
                    n.children.insert(pos, child);
                } else {
                    proof {
                        assert(!old_children.contains(before));
                    }
                    n.children.push(child);
                }
                let ghost new_nm = n.model();
                let ghost raw = self.nodes@;
                self.nodes.insert(parent, n);
                proof {
                    assert(new_nm.children == children_after_insert(old_children, child, before));
                    assert(self.nodes@ == raw.insert(parent, n));
                    assert(self@.nodes =~= start.nodes.insert(parent, new_nm));
                }
            },
            None => {},
        }
    }

    /// Removes every occurrence of `child` from the children of `parent`;
    /// unknown parents are ignored.
    pub fn remove_child(&mut self, parent: i64, child: i64)
        ensures
            final(self)@ == (if old(self)@.nodes.contains_key(parent) {
                update_node(
                    old(self)@,
                    parent,
                    NodeModel {
                        children: children_after_remove(old(self)@.nodes[parent].children, child),
                        ..old(self)@.nodes[parent]
                    },
                )
            } else {
                old(self)@
            }),
    {
        let ghost start = self@;
        match self.take_node(parent) {
            Some(mut n) => {
                let ghost old_children = n.children@;
                let ghost keep = other_than(child);
                let mut kept: Vec<i64> = Vec::new();
                let mut i: usize = 0;
                while i < n.children.len()
                    invariant
                        i <= n.children@.len(),
                        n.children@ == old_children,
                        keep == other_than(child),
                        kept@ == old_children.take(i as int).filter(keep),
                    decreases n.children@.len() - i,
                {
                    proof {
                        reveal(Seq::filter);
                        assert(old_children.take(i + 1).drop_last() =~= old_children.take(
                            i as int,
                        ));
                    }
                    if n.children[i] != child {
                        kept.push(n.children[i]);
                    }
                    i = i + 1;
                }
                proof {
                    assert(old_children.take(i as int) =~= old_children);
                }
                n.children = kept;
                let ghost new_nm = n.model();
                let ghost raw = self.nodes@;
                self.nodes.insert(parent, n);
                proof {
                    assert(self.nodes@ == raw.insert(parent, n));
                    assert(self@.nodes =~= start.nodes.insert(parent, new_nm));
                }
            },
            None => {},
        }
    }

    /// Sets the text of node `handle`; unknown handles are ignored.
    pub fn set_text(&mut self, handle: i64, text: &str)
        ensures
            final(self)@ == (if old(self)@.nodes.contains_key(handle) {
                update_node(
                    old(self)@,
                    handle,
                    NodeModel { text: Some(text@), ..old(self)@.nodes[handle] },
                )
            } else {
                old(self)@
            }),
    {
        let ghost start = self@;
        match self.take_node(handle) {
            Some(mut n) => {
                n.text = Some(String::from_str(text));
                let ghost new_nm = n.model();
                let ghost raw = self.nodes@;
                self.nodes.insert(handle, n);
                proof {
                    assert(self.nodes@ == raw.insert(handle, n));
                    assert(self@.nodes =~= start.nodes.insert(handle, new_nm));
                }
            },
            None => {},
        }
    }

    /// The number of nodes.
    pub fn node_count(&self) -> (n: usize)
        ensures
            n == self@.nodes.len(),
    {
        proof {
            assert(self@.nodes.dom() =~= self.nodes@.dom());
        }
        self.nodes.len()
    }
}

/// `n` levels of two-space indentation.
fn indent_string(n: usize) -> (r: String)
    ensures
        r@ == indent_prefix(n as nat),
{
    let mut r = String::new();
    let mut i: usize = 0;
    while i < n
        invariant
            i <= n,
            r@ == indent_prefix(i as nat),
        decreases n - i,
    {
        r.append("  ");
        i = i + 1;
    }
    r
}

/// The depth to which `print_tree` descends: one level per node, as far as
/// the indentation can grow.
pub open spec fn print_depth(t: TreeModel, indent: usize) -> nat {
    if t.nodes.len() <= usize::MAX - indent {
        t.nodes.len()
    } else {
        (usize::MAX - indent) as nat
    }
}

impl HeadlessTree {
    /// The line that describes `node` (handle `handle`) at depth `indent`.
    fn describe(node: &HeadlessNode, handle: i64, indent: usize) -> (r: String)
        ensures
            r@ == node_line(node.model(), handle, indent as nat),
    {
        let mut r = indent_string(indent);
        if str_eq(node.node_type.as_str(), "__text__") {
            r.append("TEXT: ");
            let ghost shown: Seq<char> = match node.model().text {
                Some(t) => t,
                None => Seq::<char>::empty(),
            };
            let q = match &node.text {
                Some(t) => debug_quoted(t.as_str()),
                None => {
                    proof {
                        reveal_strlit("");
                    }
                    assert(""@ =~= Seq::<char>::empty());
                    debug_quoted("")
                },
            };
            assert(q@ == debug_str(shown));
            r.append(q.as_str());
            proof {
                let m = node.model();
                assert(m.node_type == "__text__"@);
                assert(r@ == node_line(m, handle, indent as nat));
            }
        } else if str_eq(node.node_type.as_str(), "__root__") {
            r.append("ROOT (handle=");
            let h = i64_to_decimal(handle);
            r.append(h.as_str());
            r.append(")");
            proof {
                let m = node.model();
                assert(m.node_type == "__root__"@);
                assert(r@ == node_line(m, handle, indent as nat));
            }
        } else {
            r.append("<");
            r.append(node.node_type.as_str());
            r.append(">");
            let ghost m = node.model();
            let n = node.attributes.len();
            if n > 0 {
                let mut items: Vec<String> = Vec::new();
                let mut i: usize = 0;
                while i < n
                    invariant
                        i <= n,
                        n == node.attributes.keys_seq().len(),
                        m == node.model(),
                        strings_view(items@) == attribute_items(m).take(i as int),
                    decreases n - i,
                {
                    let (k, v) = node.attributes.entry(i);
                    let mut item = k.clone();
                    item.append("=");
                    let q = debug_quoted(v.as_str());
                    item.append(q.as_str());
                    proof {
                        assert(m.attributes[k@] == v@);
                        assert(item@ == attribute_items(m)[i as int]);
                    }
                    let ghost old_items = items@;
                    items.push(item);
                    proof {
                        assert(strings_view(items@) =~= strings_view(old_items).push(item@));
                    }
                    i = i + 1;
                    proof {
                        assert(strings_view(items@) =~= attribute_items(m).take(i as int));
                    }
                }
                proof {
                    assert(attribute_items(m).take(i as int) =~= attribute_items(m));
                }
                r.append(" [");
                let joined = join(&items, ", ");
                r.append(joined.as_str());
                r.append("]");
            }
            r.append(" (handle=");
            let h = i64_to_decimal(handle);
            r.append(h.as_str());
            r.append(")");
            proof {
                assert(r@ == node_line(m, handle, indent as nat));
            }
        }
        r
    }

    /// Appends the lines of the subtree at `handle` to `out`.
    fn render_into(&self, handle: i64, indent: usize, fuel: usize, out: &mut Vec<String>)
        requires
            indent + fuel <= usize::MAX,
        ensures
            strings_view(final(out)@) == strings_view(old(out)@) + tree_lines(
                self@,
                handle,
                indent as nat,
                fuel as nat,
            ),
        decreases fuel,
    {
        if fuel == 0 {
            assert(strings_view(out@) =~= strings_view(out@) + Seq::<Seq<char>>::empty());
            return;
        }
        match self.nodes.get(&handle) {
            None => {
                assert(strings_view(out@) =~= strings_view(out@) + Seq::<Seq<char>>::empty());
            },
            Some(node) => {
                let ghost start = strings_view(out@);
                let ghost nm = node.model();
                assert(self@.nodes[handle] == nm);
                let line = Self::describe(node, handle, indent);
                out.push(line);
                let ghost after_line = strings_view(out@);
                assert(after_line =~= start + seq![node_line(nm, handle, indent as nat)]);
                let mut i: usize = 0;
                while i < node.children.len()
                    invariant
                        i <= node.children@.len(),
                        nm == node.model(),
                        indent + fuel <= usize::MAX,
                        fuel > 0,
                        strings_view(out@) == after_line + children_lines(
                            self@,
                            nm.children.take(i as int),
                            (indent + 1) as nat,
                            (fuel - 1) as nat,
                        ),
                    decreases node.children@.len() - i,
                {
                    self.render_into(node.children[i], indent + 1, fuel - 1, out);
                    proof {
                        let taken = nm.children.take(i + 1);
                        assert(taken.drop_last() =~= nm.children.take(i as int));
                        assert(taken.last() == node.children@[i as int]);
                        assert(strings_view(out@) =~= after_line + children_lines(
                            self@,
                            taken,
                            (indent + 1) as nat,
                            (fuel - 1) as nat,
                        ));
                    }
                    i = i + 1;
                }
                proof {
                    assert(nm.children.take(i as int) =~= nm.children);
                    assert(strings_view(out@) =~= start + tree_lines(
                        self@,
                        handle,
                        indent as nat,
                        fuel as nat,
                    ));
                }
            },
        }
    }

    /// Whether the subtree at `handle` settles within `fuel` levels.
    fn subtree_settles(&self, handle: i64, fuel: usize) -> (r: bool)
        ensures
            r == settled(self@, handle, fuel as nat),
        decreases fuel,
    {
        match self.nodes.get(&handle) {
            None => {
                assert(!self@.nodes.contains_key(handle));
                true
            },
            Some(node) => {
                let ghost nm = node.model();
                assert(self@.nodes.contains_key(handle) && self@.nodes[handle] == nm);
                if fuel == 0 {
                    return false;
                }
                let mut i: usize = 0;
                while i < node.children.len()
                    invariant
                        i <= node.children@.len(),
                        nm == node.model(),
                        self@.nodes.contains_key(handle),
                        self@.nodes[handle] == nm,
                        fuel > 0,
                        forall|k: int|
                            0 <= k < i ==> settled(self@, #[trigger] nm.children[k], (fuel - 1) as nat),
                    decreases node.children@.len() - i,
                {
                    if !self.subtree_settles(node.children[i], fuel - 1) {
                        assert(self@.nodes[handle].children.contains(nm.children[i as int]));
                        assert(!settled(self@, handle, fuel as nat));
                        return false;
                    }
                    i = i + 1;
                }
                assert forall|c: i64| #[trigger] nm.children.contains(c) implies settled(
                    self@,
                    c,
                    (fuel - 1) as nat,
                ) by {
                    let k = choose|k: int| 0 <= k < nm.children.len() && nm.children[k] == c;
                    assert(settled(self@, nm.children[k], (fuel - 1) as nat));
                }
                true
            },
        }
    }

    /// Whether printing the subtree at `handle` comes to an end: no path down
    /// from it meets a node twice.
    pub fn prints_completely(&self, handle: i64) -> (r: bool)
        ensures
            r == acyclic_from(self@, handle),
    {
        proof {
            assert(self@.nodes.dom() =~= self.nodes@.dom());
            lemma_acyclic_iff_settled(self@, handle);
        }
        let count = self.node_count();
        self.subtree_settles(handle, count)
    }

    /// The lines that print the subtree at `handle`, starting at depth
    /// `indent`: a node's line, then the lines of its children one level
    /// deeper, down to the leaves.
    pub fn print_tree(&self, handle: i64, indent: usize) -> (lines: Vec<String>)
        requires
            acyclic_from(self@, handle),
        ensures
            strings_view(lines@) == tree_lines(self@, handle, indent as nat, print_depth(self@, indent)),
            self@.nodes.len() <= usize::MAX - indent ==> forall|more: nat|
                strings_view(lines@) == #[trigger] tree_lines(
                    self@,
                    handle,
                    indent as nat,
                    self@.nodes.len() + more,
                ),
    {
        let count = self.node_count();
        let fuel = if count <= usize::MAX - indent {
            count
        } else {
            usize::MAX - indent
        };
        let mut out: Vec<String> = Vec::new();
        self.render_into(handle, indent, fuel, &mut out);
        assert(strings_view(out@) =~= tree_lines(self@, handle, indent as nat, fuel as nat));
        proof {
            assert(self@.nodes.dom() =~= self.nodes@.dom());
            lemma_acyclic_iff_settled(self@, handle);
            assert forall|more: nat| count <= usize::MAX - indent implies strings_view(out@)
                == #[trigger] tree_lines(self@, handle, indent as nat, self@.nodes.len() + more) by {
                lemma_lines_stable(
                    self@,
                    handle,
                    indent as nat,
                    self@.nodes.len(),
                    self@.nodes.len() + more,
                );
            }
        }
        out
    }
}

} // verus!
