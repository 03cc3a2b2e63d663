//! The callback registry: closures that the host may trigger, each under an
//! id that the registry made. One counter feeds both shapes of closure, so no
//! id is ever handed out twice.
//!
//! While a closure runs, the registry is borrowed: a closure cannot register
//! or trigger another one from within itself.

use crate::js_val_impl::{is_single_val, single_val};
use crate::JsValue;
use std::collections::HashMap;
use vstd::prelude::*;

verus! {

/// A closure of one of the two shapes that the registry keeps.
pub enum Callback<F, G> {
    /// Takes nothing.
    NoArg(F),
    /// Takes the one value that the host sends along.
    OneArg(G),
}

/// The registry as contracts speak of it.
pub struct RegistryView<F, G> {
    /// The id that the next registration hands out.
    pub next_id: u32,
    /// The closures that take nothing, by id.
    pub callbacks: Map<u32, F>,
    /// The closures that take one value, by id.
    pub callbacks_arg: Map<u32, G>,
}

impl<F, G> RegistryView<F, G> {
    /// The registry before anything was registered: the first id is 1.
    pub open spec fn empty() -> Self {
        RegistryView { next_id: 1, callbacks: Map::empty(), callbacks_arg: Map::empty() }
    }

    /// Every id in use was handed out before, and by one shape only.
    pub open spec fn wf(self) -> bool {
        &&& 1 <= self.next_id
        &&& forall|k: u32| #[trigger] self.callbacks.dom().contains(k) ==> 1 <= k < self.next_id
        &&& forall|k: u32| #[trigger]
            self.callbacks_arg.dom().contains(k) ==> 1 <= k < self.next_id
        &&& self.callbacks.dom().disjoint(self.callbacks_arg.dom())
    }

    /// Whether an id is left to hand out.
    pub open spec fn has_room(self) -> bool {
        self.next_id < u32::MAX
    }

    /// The registry after the next id was taken and nothing stored under it.
    pub open spec fn skip_id(self) -> Self {
        RegistryView { next_id: (self.next_id + 1) as u32, ..self }
    }

    /// The registry after `callback` was stored under the next id.
    pub open spec fn register(self, callback: Callback<F, G>) -> Self {
        match callback {
            Callback::NoArg(f) => RegistryView {
                next_id: (self.next_id + 1) as u32,
                callbacks: self.callbacks.insert(self.next_id, f),
                callbacks_arg: self.callbacks_arg,
            },
            Callback::OneArg(g) => RegistryView {
                next_id: (self.next_id + 1) as u32,
                callbacks: self.callbacks,
                callbacks_arg: self.callbacks_arg.insert(self.next_id, g),
            },
        }
    }

    /// The registry after each of `callbacks` was registered, in order.
    pub open spec fn register_all(self, callbacks: Seq<Callback<F, G>>) -> Self
        decreases callbacks.len(),
    {
        if callbacks.len() == 0 {
            self
        } else {
            self.register_all(callbacks.drop_last()).register(callbacks.last())
        }
    }

    /// The ids that registering each of `callbacks`, in order, hands out.
    pub open spec fn issued_ids(self, callbacks: Seq<Callback<F, G>>) -> Seq<u32>
        decreases callbacks.len(),
    {
        if callbacks.len() == 0 {
            Seq::empty()
        } else {
            self.issued_ids(callbacks.drop_last()).push(
                self.register_all(callbacks.drop_last()).next_id,
            )
        }
    }

    /// Whether `id` stands for a closure, of either shape.
    pub open spec fn is_registered(self, id: u32) -> bool {
        self.callbacks.dom().contains(id) || self.callbacks_arg.dom().contains(id)
    }
}

/// Registering callbacks one after the other counts up from the next id: the
/// ids handed out are `next_id`, `next_id + 1`, and so on, whatever the
/// shapes of the callbacks, and none of them stood for a closure before.
pub proof fn lemma_issued_ids_count_up<F, G>(
    start: RegistryView<F, G>,
    callbacks: Seq<Callback<F, G>>,
)
    requires
        start.wf(),
        start.next_id + callbacks.len() <= u32::MAX,
    ensures
        start.register_all(callbacks).wf(),
        start.register_all(callbacks).next_id == start.next_id + callbacks.len(),
        start.issued_ids(callbacks).len() == callbacks.len(),
        forall|i: int|
            0 <= i < callbacks.len() ==> #[trigger] start.issued_ids(callbacks)[i] == start.next_id
                + i,
        forall|i: int|
            0 <= i < callbacks.len() ==> !start.is_registered(
                #[trigger] start.issued_ids(callbacks)[i],
            ),
    decreases callbacks.len(),
{
    if callbacks.len() > 0 {
        lemma_issued_ids_count_up(start, callbacks.drop_last());
    }
}

/// Registering any number of callbacks of any shapes on a fresh registry
/// hands out as many ids: the first is 1, each is greater than the one
/// before, and no two are the same.
pub proof fn lemma_ids_monotonic<F, G>(callbacks: Seq<Callback<F, G>>)
    requires
        callbacks.len() < u32::MAX,
    ensures
        ({
            let ids = RegistryView::<F, G>::empty().issued_ids(callbacks);
            &&& ids.len() == callbacks.len()
            &&& callbacks.len() > 0 ==> ids[0] == 1
            &&& forall|i: int, j: int| 0 <= i < j < ids.len() ==> ids[i] < ids[j]
            &&& ids.no_duplicates()
        }),
{
    lemma_issued_ids_count_up(RegistryView::<F, G>::empty(), callbacks);
}

/// Closures under ids of the registry's own making.
pub struct CallbackRegistry<F, G> {
    callbacks: HashMap<u32, F>,
    callbacks_arg: HashMap<u32, G>,
    last_callback_id: u32,
}

impl<F, G> View for CallbackRegistry<F, G> {
    type V = RegistryView<F, G>;

    closed spec fn view(&self) -> RegistryView<F, G> {
        RegistryView {
            next_id: self.last_callback_id,
            callbacks: self.callbacks@,
            callbacks_arg: self.callbacks_arg@,
        }
    }
}

impl<F: Fn(), G: Fn(JsValue)> CallbackRegistry<F, G> {
    /// Every closure in the registry may be called: one that takes nothing
    /// at any time, one that takes a value with any well-formed value.
    pub open spec fn callable(&self) -> bool {
        &&& forall|k: u32| #[trigger]
            self@.callbacks.dom().contains(k) ==> call_requires(self@.callbacks[k], ())
        &&& forall|k: u32, value: JsValue|
            self@.callbacks_arg.dom().contains(k) && value.wf() ==> #[trigger] call_requires(
                self@.callbacks_arg[k],
                (value,),
            )
    }

    /// The registry's invariant.
    pub open spec fn wf(&self) -> bool {
        self@.wf() && self.callable()
    }

    /// A registry that holds nothing and will hand out 1 first.
    pub fn new() -> (registry: Self)
        ensures
            registry@ == RegistryView::<F, G>::empty(),
            registry.wf(),
    {
        let registry = CallbackRegistry {
            callbacks: HashMap::new(),
            callbacks_arg: HashMap::new(),
            last_callback_id: 1,
        };
        assert(registry@.callbacks =~= Map::empty());
        assert(registry@.callbacks_arg =~= Map::empty());
        registry
    }

    /// Whether an id is left to hand out.
    pub fn has_room(&self) -> (room: bool)
        ensures
            room == self@.has_room(),
    {
        self.last_callback_id < u32::MAX
    }

    /// Takes the next id from the counter.
    pub fn get_next_callback_id(&mut self) -> (id: u32)
        requires
            old(self).wf(),
            old(self)@.has_room(),
        ensures
            id == old(self)@.next_id,
            final(self)@ == old(self)@.skip_id(),
            final(self).wf(),
    {
        let id: u32 = self.last_callback_id;
        self.last_callback_id = id + 1;
        id
    }

    /// Stores a closure that takes nothing, and returns the id under which
    /// the host may trigger it.
    pub fn register_callback(&mut self, callback: F) -> (id: u32)
        requires
            old(self).wf(),
            old(self)@.has_room(),
            call_requires(callback, ()),
        ensures
            id == old(self)@.next_id,
            final(self)@ == old(self)@.register(Callback::NoArg(callback)),
            final(self).wf(),
    {
        let id: u32 = self.get_next_callback_id();
        self.callbacks.insert(id, callback);
        id
    }

    /// Stores a closure that takes one value, and returns the id under which
    /// the host may trigger it.
    pub fn register_callback_arg(&mut self, callback: G) -> (id: u32)
        requires
            old(self).wf(),
            old(self)@.has_room(),
            forall|value: JsValue| value.wf() ==> call_requires(callback, (value,)),
        ensures
            id == old(self)@.next_id,
            final(self)@ == old(self)@.register(Callback::OneArg(callback)),
            final(self).wf(),
    {
        let id: u32 = self.get_next_callback_id();
        self.callbacks_arg.insert(id, callback);
        id
    }

    /// Whether `key` stands for a closure that takes nothing.
    pub fn has_callback(&self, key: u32) -> (found: bool)
        ensures
            found == self@.callbacks.dom().contains(key),
    {
        self.callbacks.contains_key(&key)
    }

    /// Whether `key` stands for a closure that takes one value.
    pub fn has_callback_arg(&self, key: u32) -> (found: bool)
        ensures
            found == self@.callbacks_arg.dom().contains(key),
    {
        self.callbacks_arg.contains_key(&key)
    }

    /// Forgets the closure that stands under `key`, and says whether there
    /// was one. The id is not handed out again.
    pub fn unregister_callback(&mut self, key: u32) -> (removed: bool)
        requires
            old(self).wf(),
        ensures
            removed == old(self)@.is_registered(key),
            final(self)@.next_id == old(self)@.next_id,
            final(self)@.callbacks == old(self)@.callbacks.remove(key),
            final(self)@.callbacks_arg == old(self)@.callbacks_arg.remove(key),
            final(self).wf(),
    {
        let no_arg = self.callbacks.remove(&key);
        let one_arg = self.callbacks_arg.remove(&key);
        no_arg.is_some() || one_arg.is_some()
    }

    /// Runs the closure that stands under `key` and takes nothing.
    pub fn call_registered_callback(&self, key: u32)
        requires
            self.wf(),
            self@.callbacks.dom().contains(key),
        ensures
            call_ensures(self@.callbacks[key], (), ()),
    {
        match self.callbacks.get(&key) {
            Some(callback) => callback(),
            None => {},
        }
    }

    /// Decodes the reply buffer `vec` and runs the closure that stands under
    /// `key` on the value that it holds.
    pub fn call_registered_callback_arg(&self, key: u32, vec: Vec<u8>)
        requires
            self.wf(),
            self@.callbacks_arg.dom().contains(key),
            is_single_val(vec@),
        ensures
            exists|value: JsValue|
                value@ == single_val(vec@) && #[trigger] call_ensures(
                    self@.callbacks_arg[key],
                    (value,),
                    (),
                ),
    {
        let val = JsValue::get_single_val(vec);
        match self.callbacks_arg.get(&key) {
            Some(callback) => callback(val),
            None => {},
        }
    }
}

} // verus!
