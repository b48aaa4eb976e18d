//! Task graphs (dependency graphs) and their execution in dependency order.
use vstd::prelude::*;

verus! {

/// Unique identifier for a graph node.
#[derive(Debug, Clone)]
pub struct NodeId(pub String);

impl View for NodeId {
    type V = Seq<char>;

    open spec fn view(&self) -> Seq<char> {
        self.0@
    }
}

/// The characters of each id in `ids`.
pub open spec fn ids_view(ids: Seq<NodeId>) -> Seq<Seq<char>> {
    ids.map_values(|n: NodeId| n@)
}

impl NodeId {
    /// A copy of this id.
    pub fn duplicate(&self) -> (r: NodeId)
        ensures
            r@ == self@,
    {
        NodeId(self.0.clone())
    }

    /// Whether two ids name the same node.
    pub fn same(&self, other: &NodeId) -> (b: bool)
        ensures
            b == (self@ == other@),
    {
        self.0 == other.0
    }
}

/// Index of the first id in `v` equal to `id`, if any.
pub fn position(v: &Vec<NodeId>, id: &NodeId) -> (r: Option<usize>)
    ensures
        match r {
            Some(i) => i < v.len() && v@[i as int]@ == id@ && ids_view(v@).contains(id@)
                && forall|j: int| 0 <= j < i ==> v@[j]@ != id@,
            None => !ids_view(v@).contains(id@),
        },
{
    let mut i: usize = 0;
    while i < v.len()
        invariant
            i <= v.len(),
            forall|j: int| 0 <= j < i ==> v@[j]@ != id@,
        decreases v.len() - i,
    {
        if v[i].same(id) {
            assert(ids_view(v@)[i as int] == id@);
            return Some(i);
        }
        i = i + 1;
    }
    proof {
        if ids_view(v@).contains(id@) {
            let j = choose|j: int| 0 <= j < ids_view(v@).len() && ids_view(v@)[j] == id@;
            assert(v@[j]@ == id@);
        }
    }
    None
}

/// In a sequence without duplicates, the index of the `i`-th element is `i`.
pub proof fn lemma_index_of_unique<A>(s: Seq<A>, i: int)
    requires
        s.no_duplicates(),
        0 <= i < s.len(),
    ensures
        s.contains(s[i]),
        s.index_of(s[i]) == i,
{
    assert(s.contains(s[i]));
    let j = s.index_of(s[i]);
    assert(0 <= j < s.len() && s[j] == s[i]);
}

/// Errors that can occur during graph execution.
#[derive(Debug)]
pub enum GraphExecutorError {
    CycleDetected,
    NodeNotFound(String),
    ExecutionFailed { node: String, details: String },
    DependencyNotSatisfied(String),
}

/// A dependency graph: each node maps to the nodes it depends on.
#[derive(Debug, Clone)]
pub struct TaskGraph {
    pub name: String,
    keys: Vec<NodeId>,
    deps: Vec<Vec<NodeId>>,
    data_keys: Vec<NodeId>,
    data_values: Vec<String>,
}

impl TaskGraph {
    /// The graph's name.
    pub closed spec fn name_view(&self) -> Seq<char> {
        self.name@
    }

    /// Node ids that own a dependency list, in the order they were first added.
    pub closed spec fn key_seq(&self) -> Seq<Seq<char>> {
        ids_view(self.keys@)
    }

    /// Dependency list of the `i`-th node.
    pub closed spec fn dep_seq(&self, i: int) -> Seq<Seq<char>> {
        ids_view(self.deps@[i]@)
    }

    /// Internal consistency of the representation.
    pub closed spec fn wf(&self) -> bool {
        &&& self.keys@.len() == self.deps@.len()
        &&& self.key_seq().no_duplicates()
        &&& self.data_keys@.len() == self.data_values@.len()
        &&& ids_view(self.data_keys@).no_duplicates()
    }

    /// The graph as a map from each node to its dependency list.
    pub closed spec fn nodes(&self) -> Map<Seq<char>, Seq<Seq<char>>> {
        Map::new(
            |k: Seq<char>| self.key_seq().contains(k),
            |k: Seq<char>| self.dep_seq(self.key_seq().index_of(k)),
        )
    }

    /// The description attached to each described node.
    pub closed spec fn descriptions(&self) -> Map<Seq<char>, Seq<char>> {
        Map::new(
            |k: Seq<char>| ids_view(self.data_keys@).contains(k),
            |k: Seq<char>| self.data_values@[ids_view(self.data_keys@).index_of(k)]@,
        )
    }

    /// `order` lists every node exactly once, each after those of its dependencies
    /// that are nodes (a dependency on an id that is no node constrains nothing).
    pub open spec fn is_dependency_order(&self, order: Seq<Seq<char>>) -> bool {
        &&& order.no_duplicates()
        &&& order.to_set() == self.nodes().dom()
        &&& forall|i: int, j: int|
            #![trigger order[i], order[j]]
            0 <= i < order.len() && 0 <= j < order.len() && self.nodes().dom().contains(order[j])
                && self.nodes()[order[j]].contains(order[i]) ==> i < j
    }

    pub fn new(name: &str) -> (g: Self)
        ensures
            g.wf(),
            g.name_view() == name@,
            g.nodes() == Map::<Seq<char>, Seq<Seq<char>>>::empty(),
            g.nodes().dom().finite(),
            g.descriptions() == Map::<Seq<char>, Seq<char>>::empty(),
    {
        let g = TaskGraph {
            name: name.to_owned(),
            keys: Vec::new(),
            deps: Vec::new(),
            data_keys: Vec::new(),
            data_values: Vec::new(),
        };
        assert(g.nodes() =~= Map::<Seq<char>, Seq<Seq<char>>>::empty());
        assert(g.descriptions() =~= Map::<Seq<char>, Seq<char>>::empty());
        g
    }
}


impl TaskGraph {
    /// The nodes of a well-formed graph are finitely many.
    proof fn lemma_nodes_finite(&self)
        requires
            self.wf(),
        ensures
            self.nodes().dom().finite(),
            self.nodes().dom().len() == self.key_seq().len(),
    {
        assert(self.nodes().dom() =~= self.key_seq().to_set());
        self.key_seq().unique_seq_to_set();
    }

    /// The `i`-th node with a dependency list maps to that list.
    proof fn lemma_node_at(&self, i: int)
        requires
            self.wf(),
            0 <= i < self.keys@.len(),
        ensures
            self.nodes().dom().contains(self.key_seq()[i]),
            self.nodes()[self.key_seq()[i]] == self.dep_seq(i),
    {
        assert(self.key_seq().contains(self.key_seq()[i]));
        let j = self.key_seq().index_of(self.key_seq()[i]);
        assert(self.key_seq()[j] == self.key_seq()[i]);
    }

    /// Adds (or keeps) a node and sets its description.
    pub fn add_node(&mut self, id: NodeId, description: &str)
        requires
            old(self).wf(),
        ensures
            final(self).wf(),
            final(self).name_view() == old(self).name_view(),
            final(self).nodes() == (if old(self).nodes().dom().contains(id@) {
                old(self).nodes()
            } else {
                old(self).nodes().insert(id@, Seq::<Seq<char>>::empty())
            }),
            final(self).descriptions() == old(self).descriptions().insert(id@, description@),
            final(self).nodes().dom().finite(),
            final(self).nodes().dom().len() == old(self).nodes().dom().len() + if old(self).nodes().dom().contains(
                id@,
            ) {
                0int
            } else {
                1int
            },
    {
        proof {
            self.lemma_nodes_finite();
        }
        let ghost old_keys = self.key_seq();
        let ghost old_nodes = self.nodes();
        let ghost old_descs = self.descriptions();
        if position(&self.keys, &id).is_none() {
            let ghost old_deps = self.deps@;
            self.keys.push(id.duplicate());
            self.deps.push(Vec::new());
            proof {
                assert(self.key_seq() =~= old_keys.push(id@));
                assert forall|k: Seq<char>| #[trigger] old_nodes.dom().contains(k) implies self.nodes()[k]
                    == old_nodes[k] by {
                    let j = old_keys.index_of(k);
                    assert(self.key_seq()[j] == k);
                    lemma_index_of_unique(self.key_seq(), j);
                    assert(self.deps@[j] == old_deps[j]);
                }
                assert forall|k: Seq<char>| self.nodes().dom().contains(k) <==> (old_nodes.dom().contains(k)
                    || k == id@) by {
                    if self.key_seq().contains(k) {
                        let j = choose|j: int| 0 <= j < self.key_seq().len() && self.key_seq()[j] == k;
                        if j < old_keys.len() {
                            assert(old_keys[j] == k);
                        }
                    }
                    if old_keys.contains(k) {
                        let j = choose|j: int| 0 <= j < old_keys.len() && old_keys[j] == k;
                        assert(self.key_seq()[j] == k);
                    }
                    if k == id@ {
                        assert(self.key_seq()[old_keys.len() as int] == k);
                    }
                }
                assert(self.key_seq()[old_keys.len() as int] == id@);
                lemma_index_of_unique(self.key_seq(), old_keys.len() as int);
                assert(self.dep_seq(old_keys.len() as int) =~= Seq::<Seq<char>>::empty());
                assert(self.nodes() =~= old_nodes.insert(id@, Seq::<Seq<char>>::empty()));
            }
        } else {
            assert(self.nodes() =~= old_nodes);
        }
        let ghost old_dkeys = ids_view(self.data_keys@);
        match position(&self.data_keys, &id) {
            Some(i) => {
                self.data_values.set(i, description.to_owned());
                proof {
                    assert(ids_view(self.data_keys@) =~= old_dkeys);
                    assert(old_dkeys[i as int] == id@);
                    lemma_index_of_unique(old_dkeys, i as int);
                    assert forall|k: Seq<char>| #[trigger] old_descs.dom().contains(k) && k != id@ implies
                        self.descriptions()[k] == old_descs[k] by {
                        let j = old_dkeys.index_of(k);
                        assert(old_dkeys[j] == k);
                    }
                    assert(self.descriptions().dom() =~= old_descs.dom());
                    assert(self.descriptions() =~= old_descs.insert(id@, description@));
                }
            },
            None => {
                self.data_keys.push(id);
                self.data_values.push(description.to_owned());
                proof {
                    let nk = ids_view(self.data_keys@);
                    assert(nk =~= old_dkeys.push(id@));
                    assert(nk[old_dkeys.len() as int] == id@);
                    lemma_index_of_unique(nk, old_dkeys.len() as int);
                    assert forall|k: Seq<char>| #[trigger] old_descs.dom().contains(k) implies
                        self.descriptions()[k] == old_descs[k] by {
                        let j = old_dkeys.index_of(k);
                        assert(nk[j] == k);
                        lemma_index_of_unique(nk, j);
                    }
                    assert forall|k: Seq<char>| nk.contains(k) <==> (old_dkeys.contains(k) || k == id@) by {
                        if nk.contains(k) {
                            let j = choose|j: int| 0 <= j < nk.len() && nk[j] == k;
                            if j < old_dkeys.len() {
                                assert(old_dkeys[j] == k);
                            }
                        }
                        if old_dkeys.contains(k) {
                            let j = choose|j: int| 0 <= j < old_dkeys.len() && old_dkeys[j] == k;
                            assert(nk[j] == k);
                        }
                    }
                    assert(self.descriptions() =~= old_descs.insert(id@, description@));
                }
            },
        }
    }

    /// Records that `from` depends on `to`; a node may not depend on itself.
    pub fn add_dependency(&mut self, from: NodeId, to: NodeId) -> (r: Result<(), GraphExecutorError>)
        requires
            old(self).wf(),
        ensures
            final(self).wf(),
            final(self).name_view() == old(self).name_view(),
            final(self).descriptions() == old(self).descriptions(),
            from@ == to@ ==> (r matches Err(GraphExecutorError::CycleDetected)) && final(self).nodes()
                == old(self).nodes(),
            from@ != to@ ==> r is Ok && final(self).nodes() == old(self).nodes().insert(
                from@,
                (if old(self).nodes().dom().contains(from@) {
                    old(self).nodes()[from@]
                } else {
                    Seq::<Seq<char>>::empty()
                }).push(to@),
            ),
            final(self).nodes().dom().finite(),
            final(self).nodes().dom().len() == old(self).nodes().dom().len() + if from@ == to@
                || old(self).nodes().dom().contains(from@) {
                0int
            } else {
                1int
            },
    {
        proof {
            self.lemma_nodes_finite();
        }
        if from.same(&to) {
            return Err(GraphExecutorError::CycleDetected);
        }
        let ghost old_keys = self.key_seq();
        let ghost old_nodes = self.nodes();
        match position(&self.keys, &from) {
            None => {
                let ghost old_deps = self.deps@;
                self.keys.push(from);
                let mut d: Vec<NodeId> = Vec::new();
                d.push(to);
                self.deps.push(d);
                proof {
                    assert(self.key_seq() =~= old_keys.push(from@));
                    assert forall|k: Seq<char>| #[trigger] old_nodes.dom().contains(k) implies self.nodes()[k]
                        == old_nodes[k] by {
                        let j = old_keys.index_of(k);
                        assert(self.key_seq()[j] == k);
                        lemma_index_of_unique(self.key_seq(), j);
                        assert(self.deps@[j] == old_deps[j]);
                    }
                    assert forall|k: Seq<char>| self.nodes().dom().contains(k) <==> (old_nodes.dom().contains(k)
                        || k == from@) by {
                        if self.key_seq().contains(k) {
                            let j = choose|j: int| 0 <= j < self.key_seq().len() && self.key_seq()[j] == k;
                            if j < old_keys.len() {
                                assert(old_keys[j] == k);
                            }
                        }
                        if old_keys.contains(k) {
                            let j = choose|j: int| 0 <= j < old_keys.len() && old_keys[j] == k;
                            assert(self.key_seq()[j] == k);
                        }
                        if k == from@ {
                            assert(self.key_seq()[old_keys.len() as int] == k);
                        }
                    }
                    assert(self.key_seq()[old_keys.len() as int] == from@);
                    lemma_index_of_unique(self.key_seq(), old_keys.len() as int);
                    assert(self.dep_seq(old_keys.len() as int) =~= Seq::<Seq<char>>::empty().push(to@));
                    assert(self.nodes() =~= old_nodes.insert(from@, Seq::<Seq<char>>::empty().push(to@)));
                }
            },
            Some(i) => {
                let ghost old_deps = self.deps@;
                let mut d = self.deps.remove(i);
                d.push(to);
                self.deps.insert(i, d);
                proof {
                    assert(self.key_seq() =~= old_keys);
                    assert(old_keys[i as int] == from@);
                    lemma_index_of_unique(old_keys, i as int);
                    self.lemma_node_at(i as int);
                    assert forall|k: Seq<char>| #[trigger] old_nodes.dom().contains(k) && k != from@ implies
                        self.nodes()[k] == old_nodes[k] by {
                        let j = old_keys.index_of(k);
                        assert(old_keys[j] == k);
                        assert(j != i);
                        assert(self.deps@[j] == old_deps[j]);
                    }
                    assert(self.dep_seq(i as int) =~= ids_view(old_deps[i as int]@).push(to@));
                    assert(self.nodes() =~= old_nodes.insert(from@, old_nodes[from@].push(to@)));
                }
            },
        }
        Ok(())
    }

    /// Number of nodes that own a dependency list.
    pub fn node_count(&self) -> (n: usize)
        requires
            self.wf(),
        ensures
            n == self.nodes().dom().len(),
            self.nodes().dom().finite(),
    {
        proof {
            assert(self.nodes().dom() =~= self.key_seq().to_set());
            self.key_seq().unique_seq_to_set();
        }
        self.keys.len()
    }

    /// The description of `id`, if one was set.
    pub fn get_description(&self, id: &NodeId) -> (r: Option<&str>)
        requires
            self.wf(),
        ensures
            match r {
                Some(d) => self.descriptions().dom().contains(id@) && d@ == self.descriptions()[id@],
                None => !self.descriptions().dom().contains(id@),
            },
    {
        match position(&self.data_keys, id) {
            Some(i) => {
                proof {
                    let dk = ids_view(self.data_keys@);
                    assert(dk[i as int] == id@);
                    assert(dk.index_of(id@) == i);
                }
                Some(self.data_values[i].as_str())
            },
            None => None,
        }
    }
}


/// A duplicate-free sequence whose elements all occur in another duplicate-free
/// sequence is no longer than it.
pub proof fn lemma_sub_len<A>(a: Seq<A>, b: Seq<A>)
    requires
        a.no_duplicates(),
        b.no_duplicates(),
        forall|x: A| a.contains(x) ==> b.contains(x),
    ensures
        a.len() <= b.len(),
{
    a.unique_seq_to_set();
    b.unique_seq_to_set();
    assert(a.to_set().subset_of(b.to_set()));
    vstd::set_lib::lemma_len_subset(a.to_set(), b.to_set());
}

/// The first index at or after `j` whose element is outside `out`.
proof fn first_outside<A>(o: Seq<A>, out: Seq<A>, j: int) -> (k: int)
    requires
        0 <= j <= o.len(),
        exists|idx: int| j <= idx < o.len() && !out.contains(o[idx]),
        forall|m: int| 0 <= m < j ==> out.contains(o[m]),
    ensures
        j <= k < o.len(),
        !out.contains(o[k]),
        forall|m: int| 0 <= m < k ==> out.contains(o[m]),
    decreases o.len() - j,
{
    if !out.contains(o[j]) {
        j
    } else {
        first_outside(o, out, j + 1)
    }
}

impl TaskGraph {
    /// The nodes, in the order they were first added.
    fn key_list(&self) -> (verts: Vec<NodeId>)
        requires
            self.wf(),
        ensures
            verts.len() == self.keys.len(),
            forall|i: int| 0 <= i < self.keys.len() ==> #[trigger] verts@[i]@ == self.key_seq()[i],
            ids_view(verts@) == self.key_seq(),
    {
        let mut verts: Vec<NodeId> = Vec::new();
        let mut i: usize = 0;
        while i < self.keys.len()
            invariant
                self.wf(),
                i <= self.keys.len(),
                ids_view(verts@) =~= self.key_seq().take(i as int),
            decreases self.keys.len() - i,
        {
            let ghost before = ids_view(verts@);
            verts.push(self.keys[i].duplicate());
            assert(ids_view(verts@) =~= before.push(self.key_seq()[i as int]));
            assert(self.key_seq().take(i + 1) =~= self.key_seq().take(i as int).push(self.key_seq()[i as int]));
            i = i + 1;
        }
        assert(ids_view(verts@) =~= self.key_seq());
        assert forall|i: int| 0 <= i < self.keys.len() implies #[trigger] verts@[i]@ == self.key_seq()[i] by {
            assert(ids_view(verts@)[i] == verts@[i]@);
        }
        verts
    }

    /// The dependency list of the `m`-th node holds a node outside `out`.
    closed spec fn waits(&self, m: int, out: Seq<Seq<char>>) -> bool {
        exists|j: int|
            0 <= j < self.dep_seq(m).len() && !out.contains(self.dep_seq(m)[j]) && self.key_seq().contains(
                self.dep_seq(m)[j],
            )
    }

    /// Every node outside `out` waits for a node outside `out`.
    closed spec fn stuck(&self, out: Seq<Seq<char>>) -> bool {
        forall|m: int|
            #![trigger self.key_seq()[m]]
            0 <= m < self.key_seq().len() ==> out.contains(self.key_seq()[m]) || self.waits(m, out)
    }

    /// If every node left out waits for another left out, no dependency order exists.
    proof fn lemma_stuck_has_no_order(&self, out: Seq<Seq<char>>, w: int, o: Seq<Seq<char>>)
        requires
            self.wf(),
            self.stuck(out),
            0 <= w < self.key_seq().len(),
            !out.contains(self.key_seq()[w]),
        ensures
            !self.is_dependency_order(o),
    {
        if !self.is_dependency_order(o) {
            return;
        }
        let kw = self.key_seq()[w];
        self.lemma_node_at(w);
        assert(o.to_set().contains(kw));
        let k = first_outside(o, out, 0);
        let v = o[k];
        assert(o.to_set().contains(v));
        assert(self.nodes().dom().contains(v));
        let m = self.key_seq().index_of(v);
        assert(self.key_seq()[m] == v);
        assert(!out.contains(self.key_seq()[m]));
        assert(self.waits(m, out));
        let j = choose|j: int|
            0 <= j < self.dep_seq(m).len() && !out.contains(self.dep_seq(m)[j]) && self.key_seq().contains(
                self.dep_seq(m)[j],
            );
        let d = self.dep_seq(m)[j];
        self.lemma_node_at(m);
        assert(self.nodes()[v].contains(d));
        let md = self.key_seq().index_of(d);
        self.lemma_node_at(md);
        assert(self.nodes().dom().contains(d));
        assert(o.to_set().contains(d));
        let q = choose|q: int| 0 <= q < o.len() && o[q] == d;
        assert(q < k);
        assert(out.contains(o[q]));
    }

    /// Whether every dependency of the `i`-th node that is a node is in `out`.
    fn deps_done(&self, i: usize, out: &Vec<NodeId>, verts: &Vec<NodeId>) -> (b: bool)
        requires
            self.wf(),
            i < self.keys.len(),
            ids_view(verts@) == self.key_seq(),
        ensures
            b == !self.waits(i as int, ids_view(out@)),
    {
        let mut j: usize = 0;
        while j < self.deps[i].len()
            invariant
                self.wf(),
                i < self.keys.len(),
                ids_view(verts@) == self.key_seq(),
                j <= self.deps@[i as int].len(),
                forall|x: int|
                    0 <= x < j ==> ids_view(out@).contains(#[trigger] self.dep_seq(i as int)[x])
                        || !self.key_seq().contains(self.dep_seq(i as int)[x]),
            decreases self.deps@[i as int].len() - j,
        {
            assert(self.deps@[i as int]@[j as int]@ == self.dep_seq(i as int)[j as int]);
            if position(out, &self.deps[i][j]).is_none() && position(verts, &self.deps[i][j]).is_some() {
                return false;
            }
            j = j + 1;
        }
        true
    }

    /// Index of a node outside `out` that waits for no node outside `out`.
    fn find_ready(&self, verts: &Vec<NodeId>, out: &Vec<NodeId>) -> (r: Option<usize>)
        requires
            self.wf(),
            verts.len() == self.keys.len(),
            ids_view(verts@) == self.key_seq(),
        ensures
            match r {
                Some(i) => i < self.keys.len() && !ids_view(out@).contains(self.key_seq()[i as int])
                    && !self.waits(i as int, ids_view(out@)),
                None => self.stuck(ids_view(out@)),
            },
    {
        let mut i: usize = 0;
        while i < verts.len()
            invariant
                self.wf(),
                i <= verts.len(),
                verts.len() == self.keys.len(),
                ids_view(verts@) == self.key_seq(),
                forall|m: int|
                    #![trigger self.key_seq()[m]]
                    0 <= m < i ==> ids_view(out@).contains(self.key_seq()[m]) || self.waits(m, ids_view(out@)),
            decreases verts.len() - i,
        {
            assert(ids_view(verts@)[i as int] == verts@[i as int]@);
            if position(out, &verts[i]).is_none() && self.deps_done(i, out, verts) {
                return Some(i);
            }
            i = i + 1;
        }
        None
    }

    /// Orders the nodes so that every node comes after those of its dependencies
    /// that are nodes; fails with `CycleDetected` exactly when no such order exists.
    pub fn topological_sort(&self) -> (r: Result<Vec<NodeId>, GraphExecutorError>)
        requires
            self.wf(),
        ensures
            match r {
                Ok(order) => self.is_dependency_order(ids_view(order@)),
                Err(e) => (e matches GraphExecutorError::CycleDetected) && forall|o: Seq<Seq<char>>|
                    !self.is_dependency_order(o),
            },
    {
        let verts = self.key_list();
        let mut out: Vec<NodeId> = Vec::new();
        loop
            invariant
                self.wf(),
                verts.len() == self.keys.len(),
                ids_view(verts@) == self.key_seq(),
                ids_view(out@).no_duplicates(),
                forall|v: Seq<char>| #[trigger] ids_view(out@).contains(v) ==> self.key_seq().contains(v),
                out.len() <= verts.len(),
                forall|p: int, d: Seq<char>|
                    #![trigger ids_view(out@)[p], self.nodes()[ids_view(out@)[p]].contains(d)]
                    0 <= p < out.len() && self.nodes().dom().contains(ids_view(out@)[p])
                        && self.nodes()[ids_view(out@)[p]].contains(d) && self.key_seq().contains(d)
                        ==> exists|q: int| 0 <= q < p && ids_view(out@)[q] == d,
            decreases verts.len() - out.len(),
        {
            match self.find_ready(&verts, &out) {
                Some(i) => {
                    let ghost before = ids_view(out@);
                    let ghost v = self.key_seq()[i as int];
                    assert(verts@[i as int]@ == ids_view(verts@)[i as int]);
                    out.push(verts[i].duplicate());
                    proof {
                        let after = ids_view(out@);
                        assert(after =~= before.push(v));
                        assert forall|x: Seq<char>| #[trigger] after.contains(x) implies self.key_seq().contains(x) by {
                            let j = choose|j: int| 0 <= j < after.len() && after[j] == x;
                            if j < before.len() {
                                assert(before[j] == x);
                                assert(before.contains(x));
                            } else {
                                assert(self.key_seq()[i as int] == x);
                            }
                        }
                        assert(self.key_seq().no_duplicates());
                        lemma_sub_len(after, self.key_seq());
                        self.lemma_node_at(i as int);
                        assert forall|p: int, d: Seq<char>|
                            #![trigger after[p], self.nodes()[after[p]].contains(d)]
                            0 <= p < after.len() && self.nodes().dom().contains(after[p])
                                && self.nodes()[after[p]].contains(d) && self.key_seq().contains(d) implies exists|
                                q: int,
                            |
                            0 <= q < p && after[q] == d by {
                            if p < before.len() {
                                assert(after[p] == before[p]);
                                let q = choose|q: int| 0 <= q < p && before[q] == d;
                                assert(after[q] == d);
                            } else {
                                assert(after[p] == v);
                                assert(self.nodes()[v] == self.dep_seq(i as int));
                                let j = choose|j: int| 0 <= j < self.dep_seq(i as int).len()
                                    && self.dep_seq(i as int)[j] == d;
                                assert(before.contains(self.dep_seq(i as int)[j]));
                                let q = choose|q: int| 0 <= q < before.len() && before[q] == d;
                                assert(after[q] == d);
                            }
                        }
                    }
                },
                None => {
                    match Self::find_missing(&verts, &out) {
                        None => {
                            proof {
                                let o = ids_view(out@);
                                assert forall|x: Seq<char>| o.to_set().contains(x) <==> self.nodes().dom().contains(
                                    x,
                                ) by {
                                    if self.nodes().dom().contains(x) {
                                        let m = self.key_seq().index_of(x);
                                        assert(self.key_seq()[m] == x);
                                        assert(verts@[m]@ == ids_view(verts@)[m]);
                                    }
                                    if o.contains(x) {
                                        assert(self.key_seq().contains(x));
                                    }
                                }
                                assert(o.to_set() =~= self.nodes().dom());
                                assert forall|i: int, j: int|
                                    #![trigger o[i], o[j]]
                                    0 <= i < o.len() && 0 <= j < o.len() && self.nodes().dom().contains(o[j])
                                        && self.nodes()[o[j]].contains(o[i]) implies i < j by {
                                    assert(o.contains(o[i]));
                                    assert(self.key_seq().contains(o[i]));
                                    let q = choose|q: int| 0 <= q < j && o[q] == o[i];
                                    assert(q == i);
                                }
                            }
                            return Ok(out);
                        },
                        Some(w) => {
                            proof {
                                assert(verts@[w as int]@ == ids_view(verts@)[w as int]);
                                assert forall|o: Seq<Seq<char>>| !self.is_dependency_order(o) by {
                                    self.lemma_stuck_has_no_order(ids_view(out@), w as int, o);
                                }
                            }
                            return Err(GraphExecutorError::CycleDetected);
                        },
                    }
                },
            }
        }
    }

    /// Index of a node not yet in `out`, if any.
    fn find_missing(verts: &Vec<NodeId>, out: &Vec<NodeId>) -> (r: Option<usize>)
        ensures
            match r {
                Some(i) => i < verts.len() && !ids_view(out@).contains(verts@[i as int]@),
                None => forall|m: int| 0 <= m < verts.len() ==> ids_view(out@).contains(#[trigger] verts@[m]@),
            },
    {
        let mut i: usize = 0;
        while i < verts.len()
            invariant
                i <= verts.len(),
                forall|m: int| 0 <= m < i ==> ids_view(out@).contains(#[trigger] verts@[m]@),
            decreases verts.len() - i,
        {
            if position(out, &verts[i]).is_none() {
                return Some(i);
            }
            i = i + 1;
        }
        None
    }
}


/// What executing a node produced: the node and its description.
#[derive(Debug, Clone)]
pub struct NodeOutput {
    pub node: String,
    pub description: String,
}

/// Result of executing a single node.
#[derive(Debug, Clone)]
pub struct NodeResult {
    pub node_id: NodeId,
    pub success: bool,
    pub output: Option<NodeOutput>,
    pub error: Option<String>,
    pub duration_ms: u64,
}

/// Executes task graphs by traversing nodes in dependency order.
pub struct GraphExecutor {
    graphs: Vec<TaskGraph>,
}

impl GraphExecutor {
    /// Names of the registered graphs, in registration order.
    pub closed spec fn names(&self) -> Seq<Seq<char>> {
        self.graphs@.map_values(|g: TaskGraph| g.name_view())
    }

    /// Registered graphs by name.
    pub closed spec fn graphs(&self) -> Map<Seq<char>, TaskGraph> {
        Map::new(
            |n: Seq<char>| self.names().contains(n),
            |n: Seq<char>| self.graphs@[self.names().index_of(n)],
        )
    }

    /// Every registered graph is well formed and names are unique.
    pub closed spec fn wf(&self) -> bool {
        &&& self.names().no_duplicates()
        &&& forall|i: int| 0 <= i < self.graphs@.len() ==> (#[trigger] self.graphs@[i]).wf()
    }

    pub fn new() -> (e: Self)
        ensures
            e.wf(),
            e.graphs() == Map::<Seq<char>, TaskGraph>::empty(),
    {
        let e = GraphExecutor { graphs: Vec::new() };
        assert(e.graphs() =~= Map::<Seq<char>, TaskGraph>::empty());
        e
    }

    fn find(&self, name: &str) -> (r: Option<usize>)
        ensures
            match r {
                Some(i) => i < self.graphs.len() && self.names()[i as int] == name@,
                None => !self.names().contains(name@),
            },
    {
        let target = name.to_owned();
        let mut i: usize = 0;
        while i < self.graphs.len()
            invariant
                i <= self.graphs.len(),
                target@ == name@,
                forall|j: int| 0 <= j < i ==> self.names()[j] != name@,
            decreases self.graphs.len() - i,
        {
            if self.graphs[i].name == target {
                return Some(i);
            }
            i = i + 1;
        }
        None
    }

    /// Registers `graph` under its name, replacing any graph of the same name.
    pub fn register_graph(&mut self, graph: TaskGraph)
        requires
            old(self).wf(),
            graph.wf(),
        ensures
            final(self).wf(),
            final(self).graphs() == old(self).graphs().insert(graph.name_view(), graph),
    {
        let ghost old_names = self.names();
        let ghost old_map = self.graphs();
        let ghost g = graph;
        match self.find(graph.name.as_str()) {
            Some(i) => {
                self.graphs.set(i, graph);
                proof {
                    assert(self.names() =~= old_names.update(i as int, g.name_view()));
                    assert(self.names() =~= old_names);
                    lemma_index_of_unique(old_names, i as int);
                    assert forall|n: Seq<char>| #[trigger] old_map.dom().contains(n) && n != g.name_view()
                        implies self.graphs()[n] == old_map[n] by {
                        let j = old_names.index_of(n);
                        assert(old_names[j] == n);
                    }
                    assert(self.graphs().dom() =~= old_map.dom());
                    assert(self.graphs() =~= old_map.insert(g.name_view(), g));
                }
            },
            None => {
                self.graphs.push(graph);
                proof {
                    let nn = self.names();
                    assert(nn =~= old_names.push(g.name_view()));
                    assert(nn[old_names.len() as int] == g.name_view());
                    lemma_index_of_unique(nn, old_names.len() as int);
                    assert forall|n: Seq<char>| #[trigger] old_map.dom().contains(n) implies self.graphs()[n]
                        == old_map[n] by {
                        let j = old_names.index_of(n);
                        assert(nn[j] == n);
                        lemma_index_of_unique(nn, j);
                    }
                    assert forall|n: Seq<char>| nn.contains(n) <==> (old_names.contains(n) || n == g.name_view()) by {
                        if nn.contains(n) {
                            let j = choose|j: int| 0 <= j < nn.len() && nn[j] == n;
                            if j < old_names.len() {
                                assert(old_names[j] == n);
                            }
                        }
                        if old_names.contains(n) {
                            let j = choose|j: int| 0 <= j < old_names.len() && old_names[j] == n;
                            assert(nn[j] == n);
                        }
                    }
                    assert(self.graphs() =~= old_map.insert(g.name_view(), g));
                }
            },
        }
    }

    /// The graph registered under `name`, if any.
    pub fn get_graph(&self, name: &str) -> (r: Option<&TaskGraph>)
        requires
            self.wf(),
        ensures
            match r {
                Some(g) => self.graphs().dom().contains(name@) && *g == self.graphs()[name@] && g.wf(),
                None => !self.graphs().dom().contains(name@),
            },
    {
        match self.find(name) {
            Some(i) => {
                proof {
                    lemma_index_of_unique(self.names(), i as int);
                }
                Some(&self.graphs[i])
            },
            None => None,
        }
    }

    /// Names of all registered graphs.
    pub fn list_graphs(&self) -> (names: Vec<String>)
        requires
            self.wf(),
        ensures
            names@.map_values(|s: String| s@).no_duplicates(),
            names@.map_values(|s: String| s@) == self.names(),
            names@.map_values(|s: String| s@).to_set() == self.graphs().dom(),
    {
        let mut names: Vec<String> = Vec::new();
        let mut i: usize = 0;
        while i < self.graphs.len()
            invariant
                i <= self.graphs.len(),
                names@.map_values(|s: String| s@) =~= self.names().take(i as int),
            decreases self.graphs.len() - i,
        {
            names.push(self.graphs[i].name.clone());
            assert(self.names().take(i + 1) =~= self.names().take(i as int).push(self.names()[i as int]));
            i = i + 1;
        }
        assert(self.names().take(self.graphs.len() as int) =~= self.names());
        assert(names@.map_values(|s: String| s@).to_set() =~= self.graphs().dom());
        names
    }

    /// Executes the graph named `name`: one successful result per vertex, in a
    /// dependency order, each carrying the node and its description ("unknown"
    /// when none was set).
    pub fn execute_graph(&self, name: &str) -> (r: Result<Vec<NodeResult>, GraphExecutorError>)
        requires
            self.wf(),
        ensures
            !self.graphs().dom().contains(name@) ==> (r matches Err(GraphExecutorError::NodeNotFound(n))
                && n@ == name@),
            self.graphs().dom().contains(name@) ==> match r {
                Ok(results) => {
                    let g = self.graphs()[name@];
                    &&& g.is_dependency_order(results@.map_values(|x: NodeResult| x.node_id@))
                    &&& forall|i: int|
                        0 <= i < results.len() ==> {
                            let x = #[trigger] results@[i];
                            &&& x.success
                            &&& x.error is None
                            &&& x.output matches Some(o) && o.node@ == x.node_id@ && o.description@ == (
                            if g.descriptions().dom().contains(x.node_id@) {
                                g.descriptions()[x.node_id@]
                            } else {
                                "unknown"@
                            })
                        }
                },
                Err(e) => (e matches GraphExecutorError::CycleDetected) && forall|o: Seq<Seq<char>>|
                    !self.graphs()[name@].is_dependency_order(o),
            },
    {
        let graph = match self.get_graph(name) {
            Some(g) => g,
            None => return Err(GraphExecutorError::NodeNotFound(name.to_owned())),
        };
        let order = graph.topological_sort()?;
        let mut results: Vec<NodeResult> = Vec::new();
        let mut i: usize = 0;
        while i < order.len()
            invariant
                graph.wf(),
                i <= order.len(),
                results@.map_values(|x: NodeResult| x.node_id@) =~= ids_view(order@).take(i as int),
                forall|k: int|
                    0 <= k < results.len() ==> {
                        let x = #[trigger] results@[k];
                        &&& x.success
                        &&& x.error is None
                        &&& x.output matches Some(o) && o.node@ == x.node_id@ && o.description@ == (
                        if graph.descriptions().dom().contains(x.node_id@) {
                            graph.descriptions()[x.node_id@]
                        } else {
                            "unknown"@
                        })
                    },
            decreases order.len() - i,
        {
            let start = crate::clock::instant_now();
            let description = match graph.get_description(&order[i]) {
                Some(d) => d.to_owned(),
                None => "unknown".to_owned(),
            };
            let duration_ms = crate::clock::elapsed_millis(&start);
            let result = NodeResult {
                node_id: order[i].duplicate(),
                success: true,
                output: Some(NodeOutput { node: order[i].0.clone(), description }),
                error: None,
                duration_ms,
            };
            results.push(result);
            assert(ids_view(order@).take(i + 1) =~= ids_view(order@).take(i as int).push(order@[i as int]@));
            i = i + 1;
        }
        assert(ids_view(order@).take(order.len() as int) =~= ids_view(order@));
        Ok(results)
    }
}

} // verus!
