//! Element registry: the element factories that a platform registers at
//! startup, by element name ("button", "box", "text", ...).
//!
//! A factory is the platform's vtable of entry points.  The registry keeps,
//! for each name, which entry points the factory provides (`FactoryOps`) and
//! the platform's own handle to it (`F`), through which the platform layer
//! performs the calls that the bridge decides on.
use vstd::prelude::*;
use crate::names::NameMap;
use crate::strings::strings_view;

verus! {

/// Which entry points of an element factory are present (the optional
/// function pointers of the C vtable).
#[derive(Clone, Copy)]
pub struct FactoryOps {
    pub create: bool,
    pub set_attribute: bool,
    pub set_callback: bool,
    pub append_child: bool,
    pub insert_before: bool,
    pub remove_child: bool,
    pub destroy: bool,
}

/// A registered element factory: the entry points it provides and the
/// platform's handle to it.
#[derive(Clone, Copy)]
pub struct ElementFactory<F> {
    pub ops: FactoryOps,
    pub native: F,
}

/// Registered element factories, by element name.
pub struct Registry<F> {
    factories: NameMap<ElementFactory<F>>,
}

impl<F: Copy> Registry<F> {
    /// The factory registered under each name.
    pub closed spec fn view(&self) -> Map<Seq<char>, ElementFactory<F>> {
        self.factories@
    }

    /// An empty registry.
    pub fn new() -> (r: Self)
        ensures
            r@ == Map::<Seq<char>, ElementFactory<F>>::empty(),
    {
        Registry { factories: NameMap::new() }
    }

    /// Registers `factory` under `name`; a factory already registered under
    /// that name is replaced.  Returns whether one was replaced.
    pub fn register(&mut self, name: String, factory: ElementFactory<F>) -> (replaced: bool)
        ensures
            final(self)@ == old(self)@.insert(name@, factory),
            replaced == old(self)@.contains_key(name@),
    {
        self.factories.insert(name, factory)
    }

    /// The factory registered under `name`, if any.
    pub fn get(&self, name: &str) -> (r: Option<ElementFactory<F>>)
        ensures
            r == (if self@.contains_key(name@) {
                Some(self@[name@])
            } else {
                None
            }),
    {
        match self.factories.get(name) {
            Some(f) => Some(*f),
            None => None,
        }
    }

    /// The number of registered element names.
    pub fn count(&self) -> (n: usize)
        ensures
            n == self@.len(),
            self@.dom().finite(),
    {
        self.factories.len()
    }

    /// The registered element names, each once.
    pub fn list(&self) -> (names: Vec<String>)
        ensures
            strings_view(names@).no_duplicates(),
            strings_view(names@).to_set() == self@.dom(),
            names@.len() == self@.len(),
    {
        self.factories.keys()
    }
}

} // verus!
