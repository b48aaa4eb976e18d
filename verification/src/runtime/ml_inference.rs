//! The loaded models of the inference runtime, keyed by model id.
use vstd::prelude::*;
use crate::keyed::{find_key, lemma_find_key_push, lemma_find_key_remove, lemma_find_key_scan, lemma_find_key_set};
use crate::runtime::swarm::agent_coordinator::unique_keys;
use crate::text::eq_str;

verus! {

/// A loaded model: its id, its type and when it was loaded (RFC 3339).
#[derive(Debug, Clone)]
pub struct ModelHandle {
    pub model_id: String,
    pub model_type: String,
    pub loaded_at: String,
}

/// The texts of a handle: id, type, load time.
pub type HandleView = (Seq<char>, Seq<char>, Seq<char>);

/// The texts of `h`.
pub open spec fn handle_view(h: ModelHandle) -> HandleView {
    (h.model_id@, h.model_type@, h.loaded_at@)
}

/// Handles keyed by model id.
pub open spec fn handles_kv(s: Seq<ModelHandle>) -> Seq<(Seq<char>, HandleView)> {
    s.map_values(|h: ModelHandle| (h.model_id@, handle_view(h)))
}

fn copy_handle(h: &ModelHandle) -> (c: ModelHandle)
    ensures
        handle_view(c) == handle_view(*h),
{
    ModelHandle { model_id: h.model_id.clone(), model_type: h.model_type.clone(), loaded_at: h.loaded_at.clone() }
}

/// The models loaded, one per id.
pub struct ModelRegistry {
    models: Vec<ModelHandle>,
}

impl ModelRegistry {
    /// The loaded models by id, in loading order.
    pub closed spec fn model_map(&self) -> Seq<(Seq<char>, HandleView)> {
        handles_kv(self.models@)
    }

    /// The model loaded as `id`.
    pub open spec fn model(&self, id: Seq<char>) -> Option<HandleView> {
        find_key(self.model_map(), id)
    }

    /// No two loaded models share an id, as in a map.
    pub closed spec fn wf(&self) -> bool {
        unique_keys(self.model_map())
    }

    /// A registry with no model loaded.
    pub fn new() -> (r: Self)
        ensures
            r.wf(),
            r.model_map().len() == 0,
    {
        let r = ModelRegistry { models: Vec::new() };
        assert(r.model_map() =~= Seq::empty());
        r
    }

    fn index_of(&self, id: &str) -> (r: Option<usize>)
        requires
            self.wf(),
        ensures
            match r {
                Some(i) => i < self.model_map().len() && self.model_map()[i as int].0 == id@ && self.model(id@)
                    == Some(self.model_map()[i as int].1),
                None => self.model(id@) is None && forall|j: int|
                    0 <= j < self.model_map().len() ==> self.model_map()[j].0 != id@,
            },
    {
        let ghost m = self.model_map();
        let mut i: usize = 0;
        while i < self.models.len()
            invariant
                i <= self.models.len(),
                m == self.model_map(),
                forall|j: int| 0 <= j < i ==> m[j].0 != id@,
            decreases self.models.len() - i,
        {
            if eq_str(self.models[i].model_id.as_str(), id) {
                proof {
                    lemma_find_key_scan(m, id@, i as int);
                }
                return Some(i);
            }
            i = i + 1;
        }
        proof {
            lemma_find_key_scan(m, id@, m.len() as int);
        }
        None
    }

    /// Loads `model_id` of type `model_type` now, replacing a model loaded under
    /// that id; returns its handle. Its load time is the clock's reading, of which
    /// nothing is promised.
    pub fn load_model(&mut self, model_id: &str, model_type: &str) -> (h: ModelHandle)
        requires
            old(self).wf(),
        ensures
            final(self).wf(),
            h.model_id@ == model_id@,
            h.model_type@ == model_type@,
            final(self).model(model_id@) == Some(handle_view(h)),
            forall|id: Seq<char>| id != model_id@ ==> #[trigger] final(self).model(id) == old(self).model(id),
            final(self).model_map().len() == old(self).model_map().len() + if old(self).model(model_id@) is Some {
                0int
            } else {
                1int
            },
    {
        let handle = ModelHandle {
            model_id: model_id.to_owned(),
            model_type: model_type.to_owned(),
            loaded_at: crate::clock::now_rfc3339(),
        };
        let ghost m = self.model_map();
        let ghost key = model_id@;
        let ghost v = handle_view(handle);
        match self.index_of(model_id) {
            Some(i) => {
                self.models.set(i, copy_handle(&handle));
                proof {
                    assert(self.model_map() =~= m.update(i as int, (key, v)));
                    assert forall|q: Seq<char>| #[trigger] find_key(self.model_map(), q) == (if q == key {
                        Some(v)
                    } else {
                        find_key(m, q)
                    }) by {
                        lemma_find_key_set(m, i as int, key, v, q);
                    }
                    assert forall|a: int, b: int| 0 <= a < b < self.model_map().len() implies #[trigger] self.model_map()[a].0
                        != #[trigger] self.model_map()[b].0 by {
                        assert(self.model_map()[a].0 == m[a].0 && self.model_map()[b].0 == m[b].0);
                    }
                }
            },
            None => {
                self.models.push(copy_handle(&handle));
                proof {
                    assert(self.model_map() =~= m.push((key, v)));
                    assert forall|q: Seq<char>| #[trigger] find_key(self.model_map(), q) == (if q == key {
                        Some(v)
                    } else {
                        find_key(m, q)
                    }) by {
                        lemma_find_key_push(m, key, v, q);
                    }
                    assert forall|a: int, b: int| 0 <= a < b < self.model_map().len() implies #[trigger] self.model_map()[a].0
                        != #[trigger] self.model_map()[b].0 by {
                        if b == m.len() {
                            assert(m[a].0 != key);
                        } else {
                            assert(self.model_map()[a].0 == m[a].0 && self.model_map()[b].0 == m[b].0);
                        }
                    }
                }
            },
        }
        handle
    }

    /// The model loaded as `model_id`.
    pub fn get(&self, model_id: &str) -> (r: Option<ModelHandle>)
        requires
            self.wf(),
        ensures
            match r {
                Some(h) => self.model(model_id@) == Some(handle_view(h)),
                None => self.model(model_id@) is None,
            },
    {
        match self.index_of(model_id) {
            Some(i) => Some(copy_handle(&self.models[i])),
            None => None,
        }
    }

    /// Unloads `model_id`; tells whether it was loaded.
    pub fn unload_model(&mut self, model_id: &str) -> (removed: bool)
        requires
            old(self).wf(),
        ensures
            final(self).wf(),
            removed == old(self).model(model_id@) is Some,
            final(self).model(model_id@) is None,
            forall|other: Seq<char>| other != model_id@ ==> #[trigger] final(self).model(other) == old(self).model(other),
            final(self).model_map().len() == old(self).model_map().len() - if removed {
                1int
            } else {
                0int
            },
    {
        let ghost m = self.model_map();
        match self.index_of(model_id) {
            Some(i) => {
                self.models.remove(i);
                proof {
                    assert(self.model_map() =~= m.remove(i as int));
                    assert forall|q: Seq<char>| #[trigger] find_key(self.model_map(), q) == (if q == m[i as int].0 {
                        None
                    } else {
                        find_key(m, q)
                    }) by {
                        lemma_find_key_remove(m, i as int, q);
                    }
                    assert forall|a: int, b: int| 0 <= a < b < self.model_map().len() implies #[trigger] self.model_map()[a].0
                        != #[trigger] self.model_map()[b].0 by {
                        let (a2, b2) = (if a < i { a } else { a + 1 }, if b < i { b } else { b + 1 });
                        assert(self.model_map()[a].0 == m[a2].0 && self.model_map()[b].0 == m[b2].0);
                    }
                }
                true
            },
            None => false,
        }
    }

    /// The ids of the loaded models, in loading order.
    pub fn loaded_models(&self) -> (ids: Vec<String>)
        ensures
            ids@.map_values(|x: String| x@) == self.model_map().map_values(|e: (Seq<char>, HandleView)| e.0),
    {
        let ghost m = self.model_map();
        let mut ids: Vec<String> = Vec::new();
        let mut i: usize = 0;
        while i < self.models.len()
            invariant
                i <= self.models.len(),
                m == self.model_map(),
                ids@.map_values(|x: String| x@) == m.map_values(|e: (Seq<char>, HandleView)| e.0).take(i as int),
            decreases self.models.len() - i,
        {
            let ghost before = ids@.map_values(|x: String| x@);
            ids.push(self.models[i].model_id.clone());
            assert(ids@.map_values(|x: String| x@) =~= before.push(m[i as int].0));
            assert(m.map_values(|e: (Seq<char>, HandleView)| e.0).take(i + 1) =~= before.push(m[i as int].0));
            i = i + 1;
        }
        assert(m.map_values(|e: (Seq<char>, HandleView)| e.0).take(self.models.len() as int) =~= m.map_values(
            |e: (Seq<char>, HandleView)| e.0,
        ));
        ids
    }

    /// How many models are loaded.
    pub fn count(&self) -> (n: usize)
        ensures
            n == self.model_map().len(),
    {
        self.models.len()
    }
}

} // verus!
