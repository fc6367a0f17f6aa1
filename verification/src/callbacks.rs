//! Callback management.
//!
//! JavaScript callbacks that native code can invoke later are stored by a
//! numeric id, together with the widget and event they belong to.  The stored
//! function is of the JS engine's type `F`; this module only keeps it and
//! hands it back.
use vstd::prelude::*;
use std::collections::HashMap;
use crate::strings::{signed_decimal, decimal, u64_to_decimal};

verus! {

broadcast use vstd::std_specs::hash::group_hash_axioms;

/// A stored JavaScript callback.
pub struct StoredCallback<F> {
    /// Widget handle this callback is associated with
    pub widget_handle: i64,
    /// Callback name (e.g. "onClick")
    pub callback_name: String,
    /// The JS function
    pub function: F,
}

/// The abstract form of a stored callback.
pub struct CallbackModel<F> {
    pub widget_handle: i64,
    pub callback_name: Seq<char>,
    pub function: F,
}

impl<F> StoredCallback<F> {
    pub open spec fn model(&self) -> CallbackModel<F> {
        CallbackModel {
            widget_handle: self.widget_handle,
            callback_name: self.callback_name@,
            function: self.function,
        }
    }
}

/// The id that follows `id`: the counter wraps around at `u64::MAX`, as an
/// atomic counter's `fetch_add` does.
pub open spec fn next_callback_id(id: u64) -> u64 {
    if id == u64::MAX {
        0
    } else {
        (id + 1) as u64
    }
}

/// The message of the error for an unknown callback id.
pub open spec fn unknown_callback_message(id: u64) -> Seq<char> {
    "Unknown callback ID: "@ + decimal(id as nat)
}

/// Registry of callbacks, by id.
pub struct CallbackRegistry<F> {
    /// Map of callback id to stored callback
    callbacks: HashMap<u64, StoredCallback<F>>,
    /// Next callback id
    next_id: u64,
}

impl<F> CallbackRegistry<F> {
    /// The stored callbacks, by id.
    pub closed spec fn stored(&self) -> Map<u64, CallbackModel<F>> {
        self.callbacks@.map_values(|c: StoredCallback<F>| c.model())
    }

    /// The id that `register_callback` hands out next.
    pub closed spec fn next_id(&self) -> u64 {
        self.next_id
    }

    /// No callbacks; the first id is 1.
    pub fn new() -> (r: Self)
        ensures
            r.stored() == Map::<u64, CallbackModel<F>>::empty(),
            r.next_id() == 1,
    {
        let r = CallbackRegistry { callbacks: HashMap::new(), next_id: 1 };
        assert(r.stored() =~= Map::<u64, CallbackModel<F>>::empty());
        r
    }
}

/// Allocates a callback id for `widget_handle`'s event `callback_name`
/// (metadata only: nothing is stored until `store_callback_function`).
pub fn register_callback<F>(
    registry: &mut CallbackRegistry<F>,
    widget_handle: i64, callback_name: &str) -> (id: u64)
    ensures
        id == old(registry).next_id(),
        final(registry).next_id() == next_callback_id(old(registry).next_id()),
        final(registry).stored() == old(registry).stored(),
{
    let id = registry.next_id;
    registry.next_id = if id == u64::MAX {
        0
    } else {
        id + 1
    };
    id
}

/// Stores `function` under `id`, replacing what was stored there.
pub fn store_callback_function<F>(
    registry: &mut CallbackRegistry<F>,
    id: u64,
    widget_handle: i64,
    callback_name: &str,
    function: F,
)
    ensures
        final(registry).stored() == old(registry).stored().insert(
            id,
            CallbackModel { widget_handle, callback_name: callback_name@, function },
        ),
        final(registry).next_id() == old(registry).next_id(),
{
    let c = StoredCallback {
        widget_handle,
        callback_name: String::from_str(callback_name),
        function,
    };
    let ghost cm = c.model();
    let ghost old_map = registry.callbacks@;
    registry.callbacks.insert(id, c);
    proof {
        assert(registry.callbacks@ == old_map.insert(id, c));
        assert(registry.stored() =~= old(registry).stored().insert(id, cm));
    }
}

/// The function stored under `id`, or the error that invoking an unknown
/// id reports.
pub fn lookup_callback<F>(registry: &CallbackRegistry<F>, id: u64) -> (r: Result<&F, String>)
    ensures
        match r {
            Ok(f) => registry.stored().contains_key(id) && *f == registry.stored()[id].function,
            Err(m) => !registry.stored().contains_key(id) && m@ == unknown_callback_message(id),
        },
{
    match registry.callbacks.get(&id) {
        Some(c) => Ok(&c.function),
        None => {
            let mut m = String::from_str("Unknown callback ID: ");
            let digits = u64_to_decimal(id);
            m.append(digits.as_str());
            Err(m)
        },
    }
}

/// The widget handle and callback name stored under `id`.
pub fn get_callback<F>(registry: &CallbackRegistry<F>, id: u64) -> (r: Option<(i64, String)>)
    ensures
        match r {
            Some((w, n)) => registry.stored().contains_key(id) && w == registry.stored()[id].widget_handle
                && n@ == registry.stored()[id].callback_name,
            None => !registry.stored().contains_key(id),
        },
{
    match registry.callbacks.get(&id) {
        Some(c) => Some((c.widget_handle, c.callback_name.clone())),
        None => None,
    }
}

/// Removes the callback stored under `id`, if any.
pub fn remove_callback<F>(registry: &mut CallbackRegistry<F>, id: u64)
    ensures
        final(registry).stored() == old(registry).stored().remove(id),
        final(registry).next_id() == old(registry).next_id(),
{
    let ghost old_map = registry.callbacks@;
    let _ = registry.callbacks.remove(&id);
    proof {
        assert(registry.callbacks@ == old_map.remove(id));
        assert(registry.stored() =~= old(registry).stored().remove(id));
    }
}

/// Removes every callback of `widget_handle`.
pub fn remove_callbacks_for_widget<F>(registry: &mut CallbackRegistry<F>, widget_handle: i64)
    ensures
        final(registry).stored() == old(registry).stored().remove_keys(
            Set::new(
                |id: u64|
                    old(registry).stored().contains_key(id) && old(registry).stored()[id].widget_handle
                        == widget_handle,
            ),
        ),
        final(registry).next_id() == old(registry).next_id(),
{
    let ghost doomed_set = Set::new(
        |id: u64|
            old(registry).stored().contains_key(id) && old(registry).stored()[id].widget_handle
                == widget_handle,
    );
    let mut doomed: Vec<u64> = Vec::new();
    let ghost m = registry.callbacks@;
    for entry in it: registry.callbacks.iter()
        invariant
            registry.callbacks@ == m,
            m == old(registry).callbacks@,
            registry.next_id == old(registry).next_id,
            forall|k: u64|
                #[trigger] doomed_set.contains(k) <==> (old(registry).stored().contains_key(k)
                    && old(registry).stored()[k].widget_handle == widget_handle),
            forall|j: int|
                0 <= j < doomed@.len() ==> m.contains_key(#[trigger] doomed@[j])
                    && m[doomed@[j]].widget_handle == widget_handle,
            forall|k: u64|
                #[trigger] doomed_set.contains(k) ==> doomed@.contains(k) || exists|j: int|
                    it.index() <= j < it.seq().len() && #[trigger] it.seq()[j] == (&k, &m[k]),
            forall|j: int|
                0 <= j < it.seq().len() ==> m.contains_key(*(#[trigger] it.seq()[j]).0) && m[*it.seq()[j].0]
                    == *it.seq()[j].1,
    {
        let (id, c) = entry;
        let ghost before = doomed@;
        let ghost idx = it.index();
        assert(entry == it.seq()[idx]);
        if c.widget_handle == widget_handle {
            doomed.push(*id);
        }
        proof {
            assert forall|k: u64| #[trigger] doomed_set.contains(k) implies doomed@.contains(k)
                || exists|j: int|
                idx + 1 <= j < it.seq().len() && #[trigger] it.seq()[j] == (&k, &m[k]) by {
                if before.contains(k) {
                    let p = choose|p: int| 0 <= p < before.len() && before[p] == k;
                    assert(doomed@[p] == k);
                } else {
                    let j = choose|j: int|
                        idx <= j < it.seq().len() && #[trigger] it.seq()[j] == (&k, &m[k]);
                    if j == idx {
                        assert(old(registry).stored()[k] == m[k].model());
                        assert(*c == m[k]);
                        assert(*id == k);
                        assert(old(registry).stored()[k].widget_handle == widget_handle);
                        assert(c.widget_handle == widget_handle);
                        assert(doomed@ == before.push(k));
                        assert(doomed@[before.len() as int] == k);
                    }
                }
            }
        }
    }
    assert(forall|k: u64| #[trigger] doomed_set.contains(k) ==> doomed@.contains(k));
    let mut i: usize = 0;
    while i < doomed.len()
        invariant
            i <= doomed@.len(),
            registry.next_id == old(registry).next_id,
            registry.callbacks@ == m.remove_keys(doomed@.take(i as int).to_set()),
            forall|j: int|
                0 <= j < doomed@.len() ==> m.contains_key(#[trigger] doomed@[j])
                    && m[doomed@[j]].widget_handle == widget_handle,
        decreases doomed@.len() - i,
    {
        let ghost before = registry.callbacks@;
        let _ = registry.callbacks.remove(&doomed[i]);
        proof {
            assert(registry.callbacks@ == before.remove(doomed@[i as int]));
            assert(doomed@.take(i + 1) =~= doomed@.take(i as int).push(doomed@[i as int]));
            doomed@.take(i as int).lemma_push_to_set_commute(doomed@[i as int]);
            assert(registry.callbacks@ =~= m.remove_keys(doomed@.take(i + 1).to_set()));
        }
        i = i + 1;
    }
    proof {
        assert(doomed@.take(doomed@.len() as int) =~= doomed@);
        assert forall|k: u64| #[trigger] registry.stored().contains_key(k) == old(registry).stored().remove_keys(doomed_set).contains_key(k) by {
            if doomed@.to_set().contains(k) {
                let j = choose|j: int| 0 <= j < doomed@.len() && doomed@[j] == k;
                assert(m.contains_key(doomed@[j]));
            }
        }
        assert(registry.stored() =~= old(registry).stored().remove_keys(doomed_set));
    }
}

} // verus!
