//! JS <-> native bridge.
//!
//! The bridge hands out integer handles for the widgets that JavaScript
//! creates, remembers each widget's element type, native pointer (an address)
//! and, for text nodes, its text, and decides which entry point of which
//! element factory each request from JavaScript turns into.  The platform
//! layer performs the native call that the bridge returns (`NativeCall`).
//!
//! Handle 0 never names a widget; handles are handed out from 1 upwards.
use vstd::prelude::*;
use std::collections::HashMap;
use crate::names::NameMap;
use crate::registry::{ElementFactory, Registry};
use crate::strings::str_eq;

verus! {

broadcast use vstd::std_specs::hash::group_hash_axioms;

/// Element type of the text nodes that `create_text` makes.
pub open spec fn text_type() -> Seq<char> {
    "__text__"@
}

/// Element type of the root container that the platform hands over.
pub open spec fn root_type() -> Seq<char> {
    "__root__"@
}

/// Element type whose factory serves the root container.
pub open spec fn box_type() -> Seq<char> {
    "box"@
}

/// Attribute through which a text child sets the text of its parent.
pub open spec fn children_attribute() -> Seq<char> {
    "children"@
}

/// The handle that follows `id`: the counter wraps around at `i64::MAX`,
/// as an atomic counter's `fetch_add` does.
pub open spec fn next_handle(id: i64) -> i64 {
    if id == i64::MAX {
        i64::MIN
    } else {
        (id + 1) as i64
    }
}

/// What the bridge knows of one widget.
pub struct WidgetModel {
    pub element_type: Seq<char>,
    pub ptr: usize,
    pub text: Option<Seq<char>>,
}

/// Abstract state of the bridge.
pub struct BridgeModel {
    /// Widget of each live handle.
    pub widgets: Map<i64, WidgetModel>,
    /// The handle that the next widget gets.
    pub next_id: i64,
    /// Handle of the root container, once the platform has set it.
    pub root: Option<i64>,
    /// Callback id bound to each (handle, callback name).
    pub callbacks: Map<i64, Map<Seq<char>, u64>>,
}

/// Information about a widget instance.
struct WidgetHandle {
    /// Element type name (e.g. "button", "text")
    element_type: String,
    /// Address of the native widget (0 for text nodes)
    ptr: usize,
    /// Text content of text nodes
    text: Option<String>,
}

/// The view of an optional string.
pub open spec fn opt_view(o: Option<String>) -> Option<Seq<char>> {
    match o {
        Some(s) => Some(s@),
        None => None,
    }
}

impl WidgetHandle {
    spec fn model(&self) -> WidgetModel {
        WidgetModel { element_type: self.element_type@, ptr: self.ptr, text: opt_view(self.text) }
    }
}

/// A native call that the platform layer performs on behalf of the bridge.
pub enum NativeCall<F> {
    /// Nothing to do.
    Nothing,
    /// `factory.set_attribute(widget, name, value)`
    SetAttribute { factory: F, widget: usize, name: String, value: String },
    /// `factory.set_callback(widget, name, callback)`; the callback id travels
    /// as the callback pointer.
    SetCallback { factory: F, widget: usize, name: String, callback: u64 },
    /// `factory.append_child(parent, child)`
    AppendChild { factory: F, parent: usize, child: usize },
    /// `factory.insert_before(parent, child, before)`
    InsertBefore { factory: F, parent: usize, child: usize, before: usize },
    /// `factory.remove_child(parent, child)`
    RemoveChild { factory: F, parent: usize, child: usize },
}

/// The abstract form of a `NativeCall`.
pub enum CallModel<F> {
    Nothing,
    SetAttribute { factory: F, widget: usize, name: Seq<char>, value: Seq<char> },
    SetCallback { factory: F, widget: usize, name: Seq<char>, callback: u64 },
    AppendChild { factory: F, parent: usize, child: usize },
    InsertBefore { factory: F, parent: usize, child: usize, before: usize },
    RemoveChild { factory: F, parent: usize, child: usize },
}

impl<F> View for NativeCall<F> {
    type V = CallModel<F>;

    open spec fn view(&self) -> CallModel<F> {
        match self {
            NativeCall::Nothing => CallModel::Nothing,
            NativeCall::SetAttribute { factory, widget, name, value } => CallModel::SetAttribute {
                factory: *factory,
                widget: *widget,
                name: name@,
                value: value@,
            },
            NativeCall::SetCallback { factory, widget, name, callback } => CallModel::SetCallback {
                factory: *factory,
                widget: *widget,
                name: name@,
                callback: *callback,
            },
            NativeCall::AppendChild { factory, parent, child } => CallModel::AppendChild {
                factory: *factory,
                parent: *parent,
                child: *child,
            },
            NativeCall::InsertBefore { factory, parent, child, before } => CallModel::InsertBefore {
                factory: *factory,
                parent: *parent,
                child: *child,
                before: *before,
            },
            NativeCall::RemoveChild { factory, parent, child } => CallModel::RemoveChild {
                factory: *factory,
                parent: *parent,
                child: *child,
            },
        }
    }
}

/// Why `create_node` made no widget.
pub enum CreateNodeError {
    /// No factory is registered for the element type.
    UnknownType(String),
    /// The factory has no `create` entry point.
    NoCreateFunction(String),
    /// The factory's `create` returned a null pointer.
    CreateFailed(String),
}

impl CreateNodeError {
    /// The message logged for this error.
    pub open spec fn message_spec(&self) -> Seq<char> {
        match self {
            CreateNodeError::UnknownType(t) => "Unknown element type: "@ + t@,
            CreateNodeError::NoCreateFunction(t) => "Element '"@ + t@ + "' has no create function"@,
            CreateNodeError::CreateFailed(t) => "Failed to create element '"@ + t@ + "'"@,
        }
    }

    /// The error message.
    pub fn message(&self) -> (m: String)
        ensures
            m@ == self.message_spec(),
    {
        match self {
            CreateNodeError::UnknownType(t) => {
                let mut m = String::from_str("Unknown element type: ");
                m.append(t.as_str());
                m
            },
            CreateNodeError::NoCreateFunction(t) => {
                let mut m = String::from_str("Element '");
                m.append(t.as_str());
                m.append("' has no create function");
                m
            },
            CreateNodeError::CreateFailed(t) => {
                let mut m = String::from_str("Failed to create element '");
                m.append(t.as_str());
                m.append("'");
                m
            },
        }
    }
}

// ---------------------------------------------------------------------------
// The decisions, stated over the abstract state
// ---------------------------------------------------------------------------

/// The factory registered for `t` when it provides the entry point that `has` selects.
pub open spec fn factory_with<F>(
    reg: Map<Seq<char>, ElementFactory<F>>,
    t: Seq<char>,
    has: spec_fn(ElementFactory<F>) -> bool,
) -> Option<F> {
    if reg.contains_key(t) && has(reg[t]) {
        Some(reg[t].native)
    } else {
        None
    }
}

/// What `set_attribute(handle, name, value)` asks of the platform: the
/// widget's factory sets the attribute, unless the handle is unknown, names
/// a text node, or its type has no factory with `set_attribute`.
pub open spec fn attribute_call<F>(
    b: BridgeModel,
    reg: Map<Seq<char>, ElementFactory<F>>,
    handle: i64,
    name: Seq<char>,
    value: Seq<char>,
) -> CallModel<F> {
    if !b.widgets.contains_key(handle) || b.widgets[handle].element_type == text_type() {
        CallModel::Nothing
    } else {
        let w = b.widgets[handle];
        match factory_with(reg, w.element_type, |f: ElementFactory<F>| f.ops.set_attribute) {
            Some(factory) => CallModel::SetAttribute { factory, widget: w.ptr, name, value },
            None => CallModel::Nothing,
        }
    }
}

/// Whether `set_callback(handle, ..)` records the binding: the handle names
/// a widget that is neither a text node nor the root, and whose type has a factory.
pub open spec fn callback_recorded<F>(
    b: BridgeModel,
    reg: Map<Seq<char>, ElementFactory<F>>,
    handle: i64,
) -> bool {
    &&& b.widgets.contains_key(handle)
    &&& b.widgets[handle].element_type != text_type()
    &&& b.widgets[handle].element_type != root_type()
    &&& reg.contains_key(b.widgets[handle].element_type)
}

/// The callback bindings of `handle`.
pub open spec fn bindings_of(cb: Map<i64, Map<Seq<char>, u64>>, handle: i64) -> Map<Seq<char>, u64> {
    if cb.contains_key(handle) {
        cb[handle]
    } else {
        Map::empty()
    }
}

/// What `set_callback(handle, name, id)` asks of the platform.
pub open spec fn callback_call<F>(
    b: BridgeModel,
    reg: Map<Seq<char>, ElementFactory<F>>,
    handle: i64,
    name: Seq<char>,
    id: u64,
) -> CallModel<F> {
    if !callback_recorded(b, reg, handle) {
        CallModel::Nothing
    } else {
        let w = b.widgets[handle];
        if reg[w.element_type].ops.set_callback {
            CallModel::SetCallback { factory: reg[w.element_type].native, widget: w.ptr, name, callback: id }
        } else {
            CallModel::Nothing
        }
    }
}

/// The element type whose factory serves a parent of type `t`: the root
/// container is a box.
pub open spec fn container_type(t: Seq<char>) -> Seq<char> {
    if t == root_type() {
        box_type()
    } else {
        t
    }
}

/// What `append_child(parent, child)` asks of the platform.  A text child
/// becomes the `children` attribute of its parent; any other child is
/// appended by the parent's factory (the box factory for the root).
pub open spec fn append_call<F>(
    b: BridgeModel,
    reg: Map<Seq<char>, ElementFactory<F>>,
    parent: i64,
    child: i64,
) -> CallModel<F> {
    if !b.widgets.contains_key(child) {
        CallModel::Nothing
    } else if b.widgets[child].element_type == text_type() {
        match b.widgets[child].text {
            Some(t) => attribute_call(b, reg, parent, children_attribute(), t),
            None => CallModel::Nothing,
        }
    } else if !b.widgets.contains_key(parent) {
        CallModel::Nothing
    } else {
        let p = b.widgets[parent];
        match factory_with(
            reg,
            container_type(p.element_type),
            |f: ElementFactory<F>| f.ops.append_child,
        ) {
            Some(factory) => CallModel::AppendChild {
                factory,
                parent: p.ptr,
                child: b.widgets[child].ptr,
            },
            None => CallModel::Nothing,
        }
    }
}

/// What `insert_before(parent, child, before)` asks of the platform: all
/// three handles must be known, and the parent's factory (the box factory
/// for the root) must provide `insert_before`.
pub open spec fn insert_call<F>(
    b: BridgeModel,
    reg: Map<Seq<char>, ElementFactory<F>>,
    parent: i64,
    child: i64,
    before: i64,
) -> CallModel<F> {
    if !b.widgets.contains_key(parent) || !b.widgets.contains_key(child) || !b.widgets.contains_key(
        before,
    ) {
        CallModel::Nothing
    } else {
        match factory_with(
            reg,
            container_type(b.widgets[parent].element_type),
            |f: ElementFactory<F>| f.ops.insert_before,
        ) {
            Some(factory) => CallModel::InsertBefore {
                factory,
                parent: b.widgets[parent].ptr,
                child: b.widgets[child].ptr,
                before: b.widgets[before].ptr,
            },
            None => CallModel::Nothing,
        }
    }
}

/// What `remove_child(parent, child)` asks of the platform: both handles
/// must be known, and the parent's factory (the box factory for the root)
/// must provide `remove_child`.
pub open spec fn remove_call<F>(
    b: BridgeModel,
    reg: Map<Seq<char>, ElementFactory<F>>,
    parent: i64,
    child: i64,
) -> CallModel<F> {
    if !b.widgets.contains_key(parent) || !b.widgets.contains_key(child) {
        CallModel::Nothing
    } else {
        match factory_with(
            reg,
            container_type(b.widgets[parent].element_type),
            |f: ElementFactory<F>| f.ops.remove_child,
        ) {
            Some(factory) => CallModel::RemoveChild {
                factory,
                parent: b.widgets[parent].ptr,
                child: b.widgets[child].ptr,
            },
            None => CallModel::Nothing,
        }
    }
}

/// The handle that `get_root_handle` reports: the root's, or 0 before the
/// platform set one.
pub open spec fn root_handle(b: BridgeModel) -> i64 {
    match b.root {
        Some(r) => r,
        None => 0,
    }
}

/// A bridge whose live handles all lie in `1..next_id`, and whose root and
/// callback bindings (when present) belong to live handles.
pub open spec fn handles_valid(b: BridgeModel) -> bool {
    &&& 1 <= b.next_id
    &&& forall|h: i64| #[trigger] b.widgets.contains_key(h) ==> 1 <= h < b.next_id
    &&& (b.root matches Some(r) ==> b.widgets.contains_key(r))
    &&& forall|h: i64| #[trigger] b.callbacks.contains_key(h) ==> b.widgets.contains_key(h)
}

/// The bridge after a new widget `w` got the next handle.
pub open spec fn with_new_widget(b: BridgeModel, w: WidgetModel) -> BridgeModel {
    BridgeModel {
        widgets: b.widgets.insert(b.next_id, w),
        next_id: next_handle(b.next_id),
        ..b
    }
}

// ---------------------------------------------------------------------------
// The bridge
// ---------------------------------------------------------------------------

/// Bridge between JS and native code.
pub struct NativeBridge {
    /// Widget of each handle
    widgets: HashMap<i64, WidgetHandle>,
    /// Next available handle
    next_id: i64,
    /// Root container handle (set by the platform)
    root_handle: Option<i64>,
    /// Callback ids bound per handle and callback name
    callbacks: HashMap<i64, NameMap<u64>>,
}

impl NativeBridge {
    /// The abstract state.
    pub closed spec fn view(&self) -> BridgeModel {
        BridgeModel {
            widgets: self.widgets@.map_values(|w: WidgetHandle| w.model()),
            next_id: self.next_id,
            root: self.root_handle,
            callbacks: self.callbacks@.map_values(|m: NameMap<u64>| m@),
        }
    }

    /// A bridge with no widgets, no root and no callbacks; the first handle is 1.
    pub fn new() -> (b: Self)
        ensures
            b@.widgets == Map::<i64, WidgetModel>::empty(),
            b@.next_id == 1,
            b@.root == None::<i64>,
            b@.callbacks == Map::<i64, Map<Seq<char>, u64>>::empty(),
    {
        let b = NativeBridge {
            widgets: HashMap::new(),
            next_id: 1,
            root_handle: None,
            callbacks: HashMap::new(),
        };
        assert(b@.widgets =~= Map::<i64, WidgetModel>::empty());
        assert(b@.callbacks =~= Map::<i64, Map<Seq<char>, u64>>::empty());
        b
    }

    /// Gives `w` the next handle and returns that handle.
    fn add_widget(&mut self, w: WidgetHandle) -> (id: i64)
        ensures
            id == old(self)@.next_id,
            final(self)@ == with_new_widget(old(self)@, w.model()),
    {
        let id = self.next_id;
        self.next_id = if id == i64::MAX {
            i64::MIN
        } else {
            id + 1
        };
        let ghost wm = w.model();
        let ghost old_widgets = self.widgets@;
        self.widgets.insert(id, w);
        proof {
            assert(self.widgets@ == old_widgets.insert(id, w));
            assert(self@.widgets =~= old(self)@.widgets.insert(id, wm));
        }
        id
    }

    /// The widget of `handle`, if any.
    fn widget(&self, handle: i64) -> (r: Option<&WidgetHandle>)
        ensures
            match r {
                Some(w) => self@.widgets.contains_key(handle) && self@.widgets[handle] == w.model(),
                None => !self@.widgets.contains_key(handle),
            },
    {
        self.widgets.get(&handle)
    }

    /// Looks up the factory for `element_type`: the error says why no widget
    /// can be created.
    pub fn create_node_factory<F: Copy>(registry: &Registry<F>, element_type: &str) -> (r: Result<
        F,
        CreateNodeError,
    >)
        ensures
            match r {
                Ok(f) => registry@.contains_key(element_type@) && registry@[element_type@].ops.create
                    && f == registry@[element_type@].native,
                Err(CreateNodeError::UnknownType(t)) => !registry@.contains_key(element_type@) && t@
                    == element_type@,
                Err(CreateNodeError::NoCreateFunction(t)) => registry@.contains_key(element_type@)
                    && !registry@[element_type@].ops.create && t@ == element_type@,
                Err(CreateNodeError::CreateFailed(_)) => false,
            },
    {
        match registry.get(element_type) {
            None => Err(CreateNodeError::UnknownType(String::from_str(element_type))),
            Some(factory) => {
                if factory.ops.create {
                    Ok(factory.native)
                } else {
                    Err(CreateNodeError::NoCreateFunction(String::from_str(element_type)))
                }
            },
        }
    }

    /// Creates a widget of element type `element_type`: `create_widget` calls the
    /// factory's `create` entry point and returns the new widget's address.
    /// The widget gets the next handle unless the address is 0.
    pub fn create_node<F: Copy, C: FnOnce(F) -> usize>(
        &mut self,
        registry: &Registry<F>,
        element_type: &str,
        create_widget: C,
    ) -> (r: Result<i64, CreateNodeError>)
        requires
            forall|f: F| create_widget.requires((f,)),
        ensures
            match r {
                Ok(id) => {
                    &&& registry@.contains_key(element_type@)
                    &&& registry@[element_type@].ops.create
                    &&& id == old(self)@.next_id
                    &&& exists|ptr: usize|
                        ptr != 0 && create_widget.ensures((registry@[element_type@].native,), ptr)
                            && final(self)@ == with_new_widget(
                            old(self)@,
                            WidgetModel { element_type: element_type@, ptr, text: None },
                        )
                },
                Err(e) => {
                    &&& final(self)@ == old(self)@
                    &&& match e {
                        CreateNodeError::UnknownType(t) => !registry@.contains_key(element_type@)
                            && t@ == element_type@,
                        CreateNodeError::NoCreateFunction(t) => registry@.contains_key(
                            element_type@,
                        ) && !registry@[element_type@].ops.create && t@ == element_type@,
                        CreateNodeError::CreateFailed(t) => registry@.contains_key(element_type@)
                            && registry@[element_type@].ops.create && create_widget.ensures(
                            (registry@[element_type@].native,),
                            0usize,
                        ) && t@ == element_type@,
                    }
                },
            },
    {
        let factory = match Self::create_node_factory(registry, element_type) {
            Ok(f) => f,
            Err(e) => {
                return Err(e);
            },
        };
        let ptr = create_widget(factory);
        if ptr == 0 {
            return Err(CreateNodeError::CreateFailed(String::from_str(element_type)));
        }
        let w = WidgetHandle { element_type: String::from_str(element_type), ptr, text: None };
        let id = self.add_widget(w);
        Ok(id)
    }

    /// Creates a text node holding `text` and returns its handle.  Text nodes
    /// have no native widget; their text reaches the parent when appended.
    pub fn create_text(&mut self, text: &str) -> (id: i64)
        ensures
            id == old(self)@.next_id,
            final(self)@ == with_new_widget(
                old(self)@,
                WidgetModel { element_type: text_type(), ptr: 0, text: Some(text@) },
            ),
    {
        let w = WidgetHandle {
            element_type: String::from_str("__text__"),
            ptr: 0,
            text: Some(String::from_str(text)),
        };
        self.add_widget(w)
    }

    /// The native call that sets attribute `name` to `value` on `handle`.
    pub fn set_attribute<F: Copy>(
        &self,
        registry: &Registry<F>,
        handle: i64,
        name: &str,
        value: &str,
    ) -> (call: NativeCall<F>)
        ensures
            call@ == attribute_call(self@, registry@, handle, name@, value@),
    {
        let widget = match self.widget(handle) {
            Some(w) => w,
            None => {
                return NativeCall::Nothing;
            },
        };
        if str_eq(widget.element_type.as_str(), "__text__") {
            return NativeCall::Nothing;
        }
        match registry.get(widget.element_type.as_str()) {
            Some(factory) => {
                if factory.ops.set_attribute {
                    NativeCall::SetAttribute {
                        factory: factory.native,
                        widget: widget.ptr,
                        name: String::from_str(name),
                        value: String::from_str(value),
                    }
                } else {
                    NativeCall::Nothing
                }
            },
            None => NativeCall::Nothing,
        }
    }

    /// Binds callback `callback_id` to event `name` of `handle`, and returns
    /// the native call that hands the id to the widget.
    pub fn set_callback<F: Copy>(
        &mut self,
        registry: &Registry<F>,
        handle: i64,
        name: &str,
        callback_id: u64,
    ) -> (call: NativeCall<F>)
        ensures
            call@ == callback_call(old(self)@, registry@, handle, name@, callback_id),
            final(self)@.widgets == old(self)@.widgets,
            final(self)@.next_id == old(self)@.next_id,
            final(self)@.root == old(self)@.root,
            final(self)@.callbacks == (if callback_recorded(old(self)@, registry@, handle) {
                old(self)@.callbacks.insert(
                    handle,
                    bindings_of(old(self)@.callbacks, handle).insert(name@, callback_id),
                )
            } else {
                old(self)@.callbacks
            }),
    {
        let (ptr, factory) = {
            let widget = match self.widget(handle) {
                Some(w) => w,
                None => {
                    return NativeCall::Nothing;
                },
            };
            if str_eq(widget.element_type.as_str(), "__text__") || str_eq(
                widget.element_type.as_str(),
                "__root__",
            ) {
                return NativeCall::Nothing;
            }
            match registry.get(widget.element_type.as_str()) {
                Some(f) => (widget.ptr, f),
                None => {
                    return NativeCall::Nothing;
                },
            }
        };
        let ghost old_model = self@;
        let mut bindings = match self.callbacks.remove(&handle) {
            Some(m) => m,
            None => NameMap::new(),
        };
        assert(bindings@ == bindings_of(old_model.callbacks, handle));
        bindings.insert(String::from_str(name), callback_id);
        self.callbacks.insert(handle, bindings);
        proof {
            assert(self@.callbacks =~= old_model.callbacks.insert(
                handle,
                bindings_of(old_model.callbacks, handle).insert(name@, callback_id),
            ));
        }
        if factory.ops.set_callback {
            NativeCall::SetCallback {
                factory: factory.native,
                widget: ptr,
                name: String::from_str(name),
                callback: callback_id,
            }
        } else {
            NativeCall::Nothing
        }
    }

    /// The native call that appends `child` to `parent`.
    pub fn append_child<F: Copy>(&self, registry: &Registry<F>, parent: i64, child: i64) -> (call:
        NativeCall<F>)
        ensures
            call@ == append_call(self@, registry@, parent, child),
    {
        let c = match self.widget(child) {
            Some(w) => w,
            None => {
                return NativeCall::Nothing;
            },
        };
        if str_eq(c.element_type.as_str(), "__text__") {
            return match &c.text {
                Some(t) => self.set_attribute(registry, parent, "children", t.as_str()),
                None => NativeCall::Nothing,
            };
        }
        let p = match self.widget(parent) {
            Some(w) => w,
            None => {
                return NativeCall::Nothing;
            },
        };
        let found = if str_eq(p.element_type.as_str(), "__root__") {
            registry.get("box")
        } else {
            registry.get(p.element_type.as_str())
        };
        match found {
            Some(factory) => {
                if factory.ops.append_child {
                    NativeCall::AppendChild { factory: factory.native, parent: p.ptr, child: c.ptr }
                } else {
                    NativeCall::Nothing
                }
            },
            None => NativeCall::Nothing,
        }
    }

    /// The native call that inserts `child` into `parent` before `before`.
    pub fn insert_before<F: Copy>(
        &self,
        registry: &Registry<F>,
        parent: i64,
        child: i64,
        before: i64,
    ) -> (call: NativeCall<F>)
        ensures
            call@ == insert_call(self@, registry@, parent, child, before),
    {
        let p = match self.widget(parent) {
            Some(w) => w,
            None => {
                return NativeCall::Nothing;
            },
        };
        let c = match self.widget(child) {
            Some(w) => w,
            None => {
                return NativeCall::Nothing;
            },
        };
        let b = match self.widget(before) {
            Some(w) => w,
            None => {
                return NativeCall::Nothing;
            },
        };
        let found = if str_eq(p.element_type.as_str(), "__root__") {
            registry.get("box")
        } else {
            registry.get(p.element_type.as_str())
        };
        match found {
            Some(factory) => {
                if factory.ops.insert_before {
                    NativeCall::InsertBefore {
                        factory: factory.native,
                        parent: p.ptr,
                        child: c.ptr,
                        before: b.ptr,
                    }
                } else {
                    NativeCall::Nothing
                }
            },
            None => NativeCall::Nothing,
        }
    }

    /// The native call that removes `child` from `parent`.
    pub fn remove_child<F: Copy>(&self, registry: &Registry<F>, parent: i64, child: i64) -> (call:
        NativeCall<F>)
        ensures
            call@ == remove_call(self@, registry@, parent, child),
    {
        let p = match self.widget(parent) {
            Some(w) => w,
            None => {
                return NativeCall::Nothing;
            },
        };
        let c = match self.widget(child) {
            Some(w) => w,
            None => {
                return NativeCall::Nothing;
            },
        };
        let found = if str_eq(p.element_type.as_str(), "__root__") {
            registry.get("box")
        } else {
            registry.get(p.element_type.as_str())
        };
        match found {
            Some(factory) => {
                if factory.ops.remove_child {
                    NativeCall::RemoveChild { factory: factory.native, parent: p.ptr, child: c.ptr }
                } else {
                    NativeCall::Nothing
                }
            },
            None => NativeCall::Nothing,
        }
    }

    /// Replaces the text of a text node; any other handle is left alone.
    pub fn set_text(&mut self, handle: i64, text: &str)
        ensures
            final(self)@.next_id == old(self)@.next_id,
            final(self)@.root == old(self)@.root,
            final(self)@.callbacks == old(self)@.callbacks,
            final(self)@.widgets == (if old(self)@.widgets.contains_key(handle)
                && old(self)@.widgets[handle].element_type == text_type() {
                old(self)@.widgets.insert(
                    handle,
                    WidgetModel { text: Some(text@), ..old(self)@.widgets[handle] },
                )
            } else {
                old(self)@.widgets
            }),
    {
        let updated = match self.widget(handle) {
            Some(w) => {
                if str_eq(w.element_type.as_str(), "__text__") {
                    Some(
                        WidgetHandle {
                            element_type: w.element_type.clone(),
                            ptr: w.ptr,
                            text: Some(String::from_str(text)),
                        },
                    )
                } else {
                    None
                }
            },
            None => None,
        };
        match updated {
            Some(w) => {
                let ghost wm = w.model();
                let ghost old_widgets = self.widgets@;
                self.widgets.insert(handle, w);
                proof {
                    assert(self.widgets@ == old_widgets.insert(handle, w));
                    assert(self@.widgets =~= old(self)@.widgets.insert(handle, wm));
                }
            },
            None => {},
        }
    }

    /// The root container's handle, or 0 before the platform set it.
    pub fn get_root_handle(&self) -> (h: i64)
        ensures
            h == root_handle(self@),
    {
        match self.root_handle {
            Some(r) => r,
            None => 0,
        }
    }

    /// Registers the platform's root container (at address `ptr`) under the
    /// next handle, and makes it the root.
    pub fn set_root(&mut self, ptr: usize)
        ensures
            final(self)@ == (BridgeModel {
                root: Some(old(self)@.next_id),
                ..with_new_widget(old(self)@, WidgetModel { element_type: root_type(), ptr, text: None })
            }),
    {
        let w = WidgetHandle { element_type: String::from_str("__root__"), ptr, text: None };
        let id = self.add_widget(w);
        self.root_handle = Some(id);
    }

    /// The element type of `handle`, if it names a widget.
    pub fn widget_type(&self, handle: i64) -> (r: Option<String>)
        ensures
            opt_view(r) == (if self@.widgets.contains_key(handle) {
                Some(self@.widgets[handle].element_type)
            } else {
                None
            }),
    {
        match self.widget(handle) {
            Some(w) => Some(w.element_type.clone()),
            None => None,
        }
    }

    /// The text of `handle`, if it names a widget that holds text.
    pub fn widget_text(&self, handle: i64) -> (r: Option<String>)
        ensures
            opt_view(r) == (if self@.widgets.contains_key(handle) {
                self@.widgets[handle].text
            } else {
                None
            }),
    {
        match self.widget(handle) {
            Some(w) => match &w.text {
                Some(t) => Some(t.clone()),
                None => None,
            },
            None => None,
        }
    }
}

// ---------------------------------------------------------------------------
// The operations that the JS bindings call
// ---------------------------------------------------------------------------

/// Creates a widget of `element_type` and returns its handle, or 0 when no
/// widget was created (unknown type, no `create` entry point, or the entry
/// point returned a null address).
pub fn create_node<F: Copy, C: FnOnce(F) -> usize>(
    bridge: &mut NativeBridge,
    registry: &Registry<F>,
    element_type: &str,
    create_widget: C,
) -> (h: i64)
    requires
        forall|f: F| create_widget.requires((f,)),
    ensures
        ({
            &&& h == old(bridge)@.next_id
            &&& registry@.contains_key(element_type@)
            &&& registry@[element_type@].ops.create
            &&& exists|ptr: usize|
                ptr != 0 && create_widget.ensures((registry@[element_type@].native,), ptr)
                    && final(bridge)@ == with_new_widget(
                    old(bridge)@,
                    WidgetModel { element_type: element_type@, ptr, text: None },
                )
        }) || ({
            &&& h == 0
            &&& final(bridge)@ == old(bridge)@
            &&& (!registry@.contains_key(element_type@) || !registry@[element_type@].ops.create
                || create_widget.ensures((registry@[element_type@].native,), 0usize))
        }),
{
    match bridge.create_node(registry, element_type, create_widget) {
        Ok(id) => id,
        Err(_) => 0,
    }
}

/// Creates a text node holding `text` and returns its handle.
pub fn create_text(bridge: &mut NativeBridge, text: &str) -> (h: i64)
    ensures
        h == old(bridge)@.next_id,
        final(bridge)@ == with_new_widget(
            old(bridge)@,
            WidgetModel { element_type: text_type(), ptr: 0, text: Some(text@) },
        ),
{
    bridge.create_text(text)
}

/// The native call that sets attribute `name` to `value` on `handle`.
pub fn set_attribute<F: Copy>(
    bridge: &NativeBridge,
    registry: &Registry<F>,
    handle: i64,
    name: &str,
    value: &str,
) -> (call: NativeCall<F>)
    ensures
        call@ == attribute_call(bridge@, registry@, handle, name@, value@),
{
    bridge.set_attribute(registry, handle, name, value)
}

/// The form of `setCallback` without a callback id: it binds nothing.
pub fn set_callback(handle: i64, name: &str) {
}

/// Binds callback `callback_id` to event `name` of `handle`; returns the
/// native call that hands the id to the widget.
pub fn set_callback_with_id<F: Copy>(
    bridge: &mut NativeBridge,
    registry: &Registry<F>,
    handle: i64,
    name: &str,
    callback_id: u64,
) -> (call: NativeCall<F>)
    ensures
        call@ == callback_call(old(bridge)@, registry@, handle, name@, callback_id),
        final(bridge)@ == (BridgeModel {
            callbacks: if callback_recorded(old(bridge)@, registry@, handle) {
                old(bridge)@.callbacks.insert(
                    handle,
                    bindings_of(old(bridge)@.callbacks, handle).insert(name@, callback_id),
                )
            } else {
                old(bridge)@.callbacks
            },
            ..old(bridge)@
        }),
{
    bridge.set_callback(registry, handle, name, callback_id)
}

/// The native call that appends `child` to `parent`.
pub fn append_child<F: Copy>(
    bridge: &NativeBridge,
    registry: &Registry<F>,
    parent: i64,
    child: i64,
) -> (call: NativeCall<F>)
    ensures
        call@ == append_call(bridge@, registry@, parent, child),
{
    bridge.append_child(registry, parent, child)
}

/// The native call that inserts `child` into `parent` before `before`.
pub fn insert_before<F: Copy>(
    bridge: &NativeBridge,
    registry: &Registry<F>,
    parent: i64,
    child: i64,
    before: i64,
) -> (call: NativeCall<F>)
    ensures
        call@ == insert_call(bridge@, registry@, parent, child, before),
{
    bridge.insert_before(registry, parent, child, before)
}

/// The native call that removes `child` from `parent`.
pub fn remove_child<F: Copy>(
    bridge: &NativeBridge,
    registry: &Registry<F>,
    parent: i64,
    child: i64,
) -> (call: NativeCall<F>)
    ensures
        call@ == remove_call(bridge@, registry@, parent, child),
{
    bridge.remove_child(registry, parent, child)
}

/// Replaces the text of a text node; any other handle is left alone.
pub fn set_text(bridge: &mut NativeBridge, handle: i64, text: &str)
    ensures
        final(bridge)@ == (BridgeModel {
            widgets: if old(bridge)@.widgets.contains_key(handle)
                && old(bridge)@.widgets[handle].element_type == text_type() {
                old(bridge)@.widgets.insert(
                    handle,
                    WidgetModel { text: Some(text@), ..old(bridge)@.widgets[handle] },
                )
            } else {
                old(bridge)@.widgets
            },
            ..old(bridge)@
        }),
{
    bridge.set_text(handle, text)
}

/// The root container's handle, or 0 before the platform set one.
pub fn get_root_handle(bridge: &NativeBridge) -> (h: i64)
    ensures
        h == root_handle(bridge@),
{
    bridge.get_root_handle()
}

} // verus!
