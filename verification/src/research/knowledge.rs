//! The knowledge graph of research: topics, their sources, the concepts of their key
//! points, and the insights drawn from concepts that link topics.
use vstd::prelude::*;
use crate::research::{byte_len, strip_symbols, strip_symbols_of};
use crate::research::searcher::FetchedContent;
use crate::text::{eq_str, join, join_with, lowercase, push_str, split_words, to_lowercase, words_of};

verus! {

/// What a node of the graph stands for.
#[derive(Debug, Clone, Copy, PartialEq, Eq, Structural)]
pub enum NodeType {
    Topic,
    Source,
    Concept,
}

/// A node: its label, what it stands for, the keys of the nodes it links to, and its
/// weight in tenths.
#[derive(Debug, Clone)]
pub struct KnowledgeNode {
    pub label: String,
    pub node_type: NodeType,
    pub connections: Vec<String>,
    pub weight_tenths: u8,
}

/// The view of a node: kind, label, links and weight.
pub type NodeView = (NodeType, Seq<char>, Seq<Seq<char>>, u8);

/// The view of a node.
pub open spec fn node_view(n: KnowledgeNode) -> NodeView {
    (n.node_type, n.label@, n.connections@.map_values(|c: String| c@), n.weight_tenths)
}

/// The view of keyed nodes.
pub open spec fn nodes_view(ns: Seq<(String, KnowledgeNode)>) -> Seq<(Seq<char>, NodeView)> {
    ns.map_values(|e: (String, KnowledgeNode)| (e.0@, node_view(e.1)))
}

/// The index of the first node of `g` keyed `k`, or `g.len()` when there is none.
pub open spec fn key_index(g: Seq<(Seq<char>, NodeView)>, k: Seq<char>) -> int
    decreases g.len(),
{
    if g.len() == 0 {
        0
    } else if g[0].0 == k {
        0
    } else {
        1 + key_index(g.drop_first(), k)
    }
}

proof fn lemma_key_index_at(g: Seq<(Seq<char>, NodeView)>, k: Seq<char>, i: int)
    requires
        0 <= i <= g.len(),
        forall|j: int| 0 <= j < i ==> (#[trigger] g[j]).0 != k,
        i < g.len() ==> g[i].0 == k,
    ensures
        key_index(g, k) == i,
    decreases g.len(),
{
    if g.len() > 0 && i > 0 {
        assert(g[0].0 != k);
        assert forall|j: int| 0 <= j < i - 1 implies (#[trigger] g.drop_first()[j]).0 != k by {
            assert(g.drop_first()[j] == g[j + 1]);
        }
        lemma_key_index_at(g.drop_first(), k, i - 1);
    }
}

proof fn lemma_key_index(g: Seq<(Seq<char>, NodeView)>, k: Seq<char>)
    ensures
        0 <= key_index(g, k) <= g.len(),
        key_index(g, k) < g.len() ==> g[key_index(g, k)].0 == k,
        forall|j: int| 0 <= j < key_index(g, k) ==> (#[trigger] g[j]).0 != k,
    decreases g.len(),
{
    if g.len() > 0 && g[0].0 != k {
        lemma_key_index(g.drop_first(), k);
        if key_index(g, k) < g.len() {
            assert(g[key_index(g, k)] == g.drop_first()[key_index(g.drop_first(), k)]);
        }
        assert forall|j: int| 0 <= j < key_index(g, k) implies (#[trigger] g[j]).0 != k by {
            if j > 0 {
                assert(g[j] == g.drop_first()[j - 1]);
            }
        }
    }
}

/// No two nodes of `g` share a key.
pub open spec fn unique_keys(g: Seq<(Seq<char>, NodeView)>) -> bool {
    forall|a: int, b: int| 0 <= a < b < g.len() ==> (#[trigger] g[a]).0 != (#[trigger] g[b]).0
}

/// Replacing a node by one under the same key keeps keys unique.
proof fn lemma_unique_update(g: Seq<(Seq<char>, NodeView)>, i: int, n: NodeView)
    requires
        unique_keys(g),
        0 <= i < g.len(),
    ensures
        unique_keys(g.update(i, (g[i].0, n))),
{
    let h = g.update(i, (g[i].0, n));
    assert forall|a: int, b: int| 0 <= a < b < h.len() implies (#[trigger] h[a]).0 != (#[trigger] h[b]).0 by {
        assert(h[a].0 == g[a].0);
        assert(h[b].0 == g[b].0);
    }
}

/// Appending a node under a key no node has keeps keys unique.
proof fn lemma_unique_push(g: Seq<(Seq<char>, NodeView)>, k: Seq<char>, n: NodeView)
    requires
        unique_keys(g),
        key_index(g, k) == g.len(),
    ensures
        unique_keys(g.push((k, n))),
{
    lemma_key_index(g, k);
    let h = g.push((k, n));
    assert forall|a: int, b: int| 0 <= a < b < h.len() implies (#[trigger] h[a]).0 != (#[trigger] h[b]).0 by {
        if b == g.len() {
            assert(g[a].0 != k);
        } else {
            assert(h[a] == g[a] && h[b] == g[b]);
        }
    }
}

/// `g` with the node `n` under key `k`, unless a node is keyed `k` already.
pub open spec fn add_node(g: Seq<(Seq<char>, NodeView)>, k: Seq<char>, n: NodeView) -> Seq<(Seq<char>, NodeView)> {
    if key_index(g, k) < g.len() {
        g
    } else {
        g.push((k, n))
    }
}

/// `g` with the node keyed `k` linked to `t`, when there is such a node and it is
/// not linked to `t` yet.
pub open spec fn link(g: Seq<(Seq<char>, NodeView)>, k: Seq<char>, t: Seq<char>) -> Seq<(Seq<char>, NodeView)> {
    let i = key_index(g, k);
    if i < g.len() && !g[i].1.2.contains(t) {
        g.update(i, (k, (g[i].1.0, g[i].1.1, g[i].1.2.push(t), g[i].1.3)))
    } else {
        g
    }
}

/// `g` with each source of `srcs` linked from `topic` and added as a node linked to
/// `topic`, in order.
pub open spec fn add_sources(g: Seq<(Seq<char>, NodeView)>, topic: Seq<char>, srcs: Seq<FetchedContent>) -> Seq<
    (Seq<char>, NodeView),
>
    decreases srcs.len(),
{
    if srcs.len() == 0 {
        g
    } else {
        let h = add_sources(g, topic, srcs.drop_last());
        let s = srcs.last();
        add_node(link(h, topic, s.url@), s.url@, (NodeType::Source, s.title@, seq![topic], 8))
    }
}

/// The concept a word names: the word without symbols at either end, lowercased.
pub open spec fn concept_of(word: Seq<char>) -> Seq<char> {
    lowercase(strip_symbols(word))
}

/// `g` after the concept `c` is met in a key point on `topic`: a known node gets
/// linked to `topic` and a tenth more weight (at most ten tenths); else the concept
/// becomes a node linked to `topic`.
pub open spec fn touch_concept(g: Seq<(Seq<char>, NodeView)>, c: Seq<char>, topic: Seq<char>) -> Seq<(Seq<char>, NodeView)> {
    let i = key_index(g, c);
    if i < g.len() {
        let n = g[i].1;
        let links = if n.2.contains(topic) {
            n.2
        } else {
            n.2.push(topic)
        };
        let w: u8 = if n.3 < 10 {
            (n.3 + 1) as u8
        } else {
            10
        };
        g.update(i, (c, (n.0, n.1, links, w)))
    } else {
        g.push((c, (NodeType::Concept, c, seq![topic], 3)))
    }
}

/// `g` after the words `ws` of a key point on `topic`: each word longer than five
/// bytes whose concept is at least four bytes long touches that concept.
pub open spec fn graph_words(g: Seq<(Seq<char>, NodeView)>, topic: Seq<char>, ws: Seq<Seq<char>>) -> Seq<(Seq<char>, NodeView)>
    decreases ws.len(),
{
    if ws.len() == 0 {
        g
    } else {
        let h = graph_words(g, topic, ws.drop_last());
        let w = ws.last();
        if byte_len(w) > 5 && byte_len(concept_of(w)) >= 4 {
            touch_concept(h, concept_of(w), topic)
        } else {
            h
        }
    }
}

/// `g` after the words of each key point of `points` on `topic`, in order.
pub open spec fn graph_points(g: Seq<(Seq<char>, NodeView)>, topic: Seq<char>, points: Seq<Seq<char>>) -> Seq<
    (Seq<char>, NodeView),
>
    decreases points.len(),
{
    if points.len() == 0 {
        g
    } else {
        graph_words(graph_points(g, topic, points.drop_last()), topic, words_of(points.last()))
    }
}

/// Whether the node keyed `k` in `g` is a topic.
pub open spec fn is_topic(g: Seq<(Seq<char>, NodeView)>, k: Seq<char>) -> bool {
    let i = key_index(g, k);
    i < g.len() && g[i].1.0 == NodeType::Topic
}

/// The links of `links` that lead to topics of `g`, in order.
pub open spec fn topic_links(g: Seq<(Seq<char>, NodeView)>, links: Seq<Seq<char>>) -> Seq<Seq<char>>
    decreases links.len(),
{
    if links.len() == 0 {
        Seq::empty()
    } else if is_topic(g, links.last()) {
        topic_links(g, links.drop_last()).push(links.last())
    } else {
        topic_links(g, links.drop_last())
    }
}

/// The insight that the concept `label` links the topics `topics`.
pub open spec fn insight_text(label: Seq<char>, topics: Seq<Seq<char>>) -> Seq<char> {
    "Cross-topic connection: '"@ + label + "' links ["@ + join_with(topics, ", "@) + "]"@
}

/// The insights of the concept nodes among `ns` that link two topics of `g` or more,
/// in order, except those already in `known`.
pub open spec fn fresh_insights(g: Seq<(Seq<char>, NodeView)>, known: Seq<Seq<char>>, ns: Seq<(Seq<char>, NodeView)>) -> Seq<
    Seq<char>,
>
    decreases ns.len(),
{
    if ns.len() == 0 {
        Seq::empty()
    } else {
        let prev = fresh_insights(g, known, ns.drop_last());
        let n = ns.last().1;
        let ts = topic_links(g, n.2);
        if n.0 == NodeType::Concept && ts.len() >= 2 && !known.contains(insight_text(n.1, ts)) {
            prev.push(insight_text(n.1, ts))
        } else {
            prev
        }
    }
}

/// The nodes after research on `topic` found the sources `srcs` with key points
/// `points`.
pub open spec fn ingested(g: Seq<(Seq<char>, NodeView)>, topic: Seq<char>, srcs: Seq<FetchedContent>, points: Seq<Seq<char>>) -> Seq<
    (Seq<char>, NodeView),
> {
    graph_points(add_sources(add_node(g, topic, (NodeType::Topic, topic, Seq::empty(), 10)), topic, srcs), topic, points)
}

/// The knowledge graph: nodes keyed by topic, source url or concept, and the
/// insights found so far.
pub struct KnowledgeGraph {
    enabled: bool,
    nodes: Vec<(String, KnowledgeNode)>,
    insights: Vec<String>,
}

/// The copies of `v`.
fn copy_strings(v: &Vec<String>) -> (r: Vec<String>)
    ensures
        r@.map_values(|x: String| x@) == v@.map_values(|x: String| x@),
{
    let ghost vv = v@.map_values(|x: String| x@);
    let mut r: Vec<String> = Vec::new();
    let mut i: usize = 0;
    while i < v.len()
        invariant
            i <= v.len(),
            vv == v@.map_values(|x: String| x@),
            r@.map_values(|x: String| x@) == vv.take(i as int),
        decreases v.len() - i,
    {
        let ghost before = r@.map_values(|x: String| x@);
        r.push(v[i].clone());
        assert(r@.map_values(|x: String| x@) =~= before.push(vv[i as int]));
        assert(vv.take(i + 1) =~= vv.take(i as int).push(vv[i as int]));
        i = i + 1;
    }
    assert(vv.take(v.len() as int) =~= vv);
    r
}

/// Whether some string of `v` reads `s`.
fn holds(v: &Vec<String>, s: &str) -> (b: bool)
    ensures
        b == v@.map_values(|x: String| x@).contains(s@),
{
    let ghost vv = v@.map_values(|x: String| x@);
    let mut i: usize = 0;
    while i < v.len()
        invariant
            i <= v.len(),
            vv == v@.map_values(|x: String| x@),
            forall|j: int| 0 <= j < i ==> vv[j] != s@,
        decreases v.len() - i,
    {
        if eq_str(v[i].as_str(), s) {
            assert(vv[i as int] == s@);
            return true;
        }
        i = i + 1;
    }
    false
}

/// The index of the first node keyed `k` (see `key_index`).
fn key_pos(ns: &Vec<(String, KnowledgeNode)>, k: &str) -> (i: usize)
    ensures
        i == key_index(nodes_view(ns@), k@),
        i <= ns@.len(),
{
    let ghost g = nodes_view(ns@);
    let mut i: usize = 0;
    while i < ns.len()
        invariant
            i <= ns.len(),
            g == nodes_view(ns@),
            forall|j: int| 0 <= j < i ==> (#[trigger] g[j]).0 != k@,
        decreases ns.len() - i,
    {
        if eq_str(ns[i].0.as_str(), k) {
            proof {
                lemma_key_index_at(g, k@, i as int);
            }
            return i;
        }
        i = i + 1;
    }
    proof {
        lemma_key_index_at(g, k@, i as int);
    }
    i
}

/// A node with the given parts.
fn new_node(label: &str, node_type: NodeType, link: &str, weight_tenths: u8) -> (n: KnowledgeNode)
    ensures
        node_view(n) == (node_type, label@, seq![link@], weight_tenths),
{
    let mut connections: Vec<String> = Vec::new();
    connections.push(link.to_owned());
    assert(connections@.map_values(|c: String| c@) =~= seq![link@]);
    KnowledgeNode { label: label.to_owned(), node_type, connections, weight_tenths }
}

/// Adds `n` under `k` unless a node is keyed `k` (see `add_node`).
fn add_node_to(ns: &mut Vec<(String, KnowledgeNode)>, k: &str, n: KnowledgeNode)
    ensures
        nodes_view(final(ns)@) == add_node(nodes_view(old(ns)@), k@, node_view(n)),
        unique_keys(nodes_view(old(ns)@)) ==> unique_keys(nodes_view(final(ns)@)),
{
    let i = key_pos(ns, k);
    if i == ns.len() {
        let ghost before = ns@;
        ns.push((k.to_owned(), n));
        assert(nodes_view(ns@) =~= nodes_view(before).push((k@, node_view(n))));
        proof {
            if unique_keys(nodes_view(before)) {
                lemma_unique_push(nodes_view(before), k@, node_view(n));
            }
        }
    }
}

/// Links the node keyed `k` to `t` (see `link`).
fn link_node(ns: &mut Vec<(String, KnowledgeNode)>, k: &str, t: &str)
    ensures
        nodes_view(final(ns)@) == link(nodes_view(old(ns)@), k@, t@),
        unique_keys(nodes_view(old(ns)@)) ==> unique_keys(nodes_view(final(ns)@)),
{
    let i = key_pos(ns, k);
    if i < ns.len() && !holds(&ns[i].1.connections, t) {
        let ghost g = nodes_view(ns@);
        let old_node = &ns[i].1;
        let mut connections = copy_strings(&old_node.connections);
        let ghost cv = connections@.map_values(|c: String| c@);
        connections.push(t.to_owned());
        assert(connections@.map_values(|c: String| c@) =~= cv.push(t@));
        let node = KnowledgeNode {
            label: old_node.label.clone(),
            node_type: old_node.node_type,
            connections,
            weight_tenths: old_node.weight_tenths,
        };
        proof {
            lemma_key_index(g, k@);
        }
        ns.set(i, (k.to_owned(), node));
        assert(nodes_view(ns@) =~= g.update(i as int, (k@, (g[i as int].1.0, g[i as int].1.1, g[i as int].1.2.push(t@), g[i as int].1.3))));
        proof {
            if unique_keys(g) {
                lemma_unique_update(g, i as int, (g[i as int].1.0, g[i as int].1.1, g[i as int].1.2.push(t@), g[i as int].1.3));
            }
        }
    }
}

/// Meets the concept `c` in a key point on `topic` (see `touch_concept`).
fn touch(ns: &mut Vec<(String, KnowledgeNode)>, c: &str, topic: &str)
    ensures
        nodes_view(final(ns)@) == touch_concept(nodes_view(old(ns)@), c@, topic@),
        unique_keys(nodes_view(old(ns)@)) ==> unique_keys(nodes_view(final(ns)@)),
{
    let ghost g = nodes_view(ns@);
    let i = key_pos(ns, c);
    if i < ns.len() {
        let old_node = &ns[i].1;
        let mut connections = copy_strings(&old_node.connections);
        if !holds(&old_node.connections, topic) {
            let ghost cv = connections@.map_values(|x: String| x@);
            connections.push(topic.to_owned());
            assert(connections@.map_values(|x: String| x@) =~= cv.push(topic@));
        }
        let w: u8 = if old_node.weight_tenths < 10 {
            old_node.weight_tenths + 1
        } else {
            10
        };
        let node = KnowledgeNode { label: old_node.label.clone(), node_type: old_node.node_type, connections, weight_tenths: w };
        proof {
            lemma_key_index(g, c@);
        }
        ns.set(i, (c.to_owned(), node));
        assert(nodes_view(ns@) =~= touch_concept(g, c@, topic@));
        proof {
            if unique_keys(g) {
                lemma_unique_update(g, i as int, touch_concept(g, c@, topic@)[i as int].1);
                assert(g.update(i as int, (g[i as int].0, touch_concept(g, c@, topic@)[i as int].1)) =~= touch_concept(g, c@, topic@));
            }
        }
    } else {
        let node = new_node(c, NodeType::Concept, topic, 3);
        let ghost before = ns@;
        ns.push((c.to_owned(), node));
        assert(nodes_view(ns@) =~= g.push((c@, (NodeType::Concept, c@, seq![topic@], 3u8))));
        proof {
            if unique_keys(g) {
                lemma_unique_push(g, c@, (NodeType::Concept, c@, seq![topic@], 3u8));
            }
        }
    }
}

/// The links of `links` that lead to topics (see `topic_links`).
fn topic_links_of(ns: &Vec<(String, KnowledgeNode)>, links: &Vec<String>) -> (r: Vec<String>)
    ensures
        r@.map_values(|x: String| x@) == topic_links(nodes_view(ns@), links@.map_values(|x: String| x@)),
{
    let ghost g = nodes_view(ns@);
    let ghost lv = links@.map_values(|x: String| x@);
    let mut r: Vec<String> = Vec::new();
    let mut i: usize = 0;
    while i < links.len()
        invariant
            i <= links.len(),
            g == nodes_view(ns@),
            lv == links@.map_values(|x: String| x@),
            r@.map_values(|x: String| x@) == topic_links(g, lv.take(i as int)),
        decreases links.len() - i,
    {
        assert(lv.take(i + 1).drop_last() =~= lv.take(i as int));
        assert(lv.take(i + 1).last() == links@[i as int]@);
        let p = key_pos(ns, links[i].as_str());
        if p < ns.len() && ns[p].1.node_type == NodeType::Topic {
            let ghost before = r@.map_values(|x: String| x@);
            r.push(links[i].clone());
            assert(r@.map_values(|x: String| x@) =~= before.push(lv[i as int]));
        }
        i = i + 1;
    }
    assert(lv.take(links.len() as int) =~= lv);
    r
}

/// The insight that `label` links `topics` (see `insight_text`).
fn insight(label: &str, topics: &Vec<String>) -> (s: String)
    ensures
        s@ == insight_text(label@, topics@.map_values(|x: String| x@)),
{
    let mut s = String::new();
    push_str(&mut s, "Cross-topic connection: '");
    push_str(&mut s, label);
    push_str(&mut s, "' links [");
    let list = join(topics, ", ");
    push_str(&mut s, list.as_str());
    push_str(&mut s, "]");
    s
}

impl KnowledgeGraph {
    /// Whether the graph learns from research.
    pub closed spec fn is_enabled(&self) -> bool {
        self.enabled
    }

    /// The nodes, keyed, in the order they were added.
    pub closed spec fn nodes(&self) -> Seq<(Seq<char>, NodeView)> {
        nodes_view(self.nodes@)
    }

    /// The insights found so far, in order.
    pub closed spec fn insights(&self) -> Seq<Seq<char>> {
        self.insights@.map_values(|x: String| x@)
    }

    /// The graph is well formed: no two nodes share a key, as in a map.
    pub open spec fn wf(&self) -> bool {
        unique_keys(self.nodes())
    }

    /// An empty graph that learns from research when `enabled`.
    pub fn new(enabled: bool) -> (g: Self)
        ensures
            g.wf(),
            g.is_enabled() == enabled,
            g.nodes().len() == 0,
            g.insights().len() == 0,
    {
        KnowledgeGraph { enabled, nodes: Vec::new(), insights: Vec::new() }
    }

    /// Learns from research on `topic` that found `sources` with `key_points` (see
    /// `ingested`), then adds the insights of concepts that now link two topics or
    /// more and were not found before (see `fresh_insights`). A disabled graph does
    /// not change.
    pub fn ingest(&mut self, topic: &str, sources: &[FetchedContent], key_points: &[String])
        requires
            old(self).wf(),
        ensures
            final(self).wf(),
            final(self).is_enabled() == old(self).is_enabled(),
            !old(self).is_enabled() ==> final(self).nodes() == old(self).nodes() && final(self).insights() == old(
                self,
            ).insights(),
            old(self).is_enabled() ==> {
                let g = ingested(old(self).nodes(), topic@, sources@, key_points@.map_values(|x: String| x@));
                &&& final(self).nodes() == g
                &&& final(self).insights() == old(self).insights() + fresh_insights(g, old(self).insights(), g)
            },
    {
        if !self.enabled {
            return;
        }
        let ghost g0 = self.nodes();
        let topic_node = KnowledgeNode {
            label: topic.to_owned(),
            node_type: NodeType::Topic,
            connections: Vec::new(),
            weight_tenths: 10,
        };
        assert(topic_node.connections@.map_values(|c: String| c@) =~= Seq::<Seq<char>>::empty());
        add_node_to(&mut self.nodes, topic, topic_node);
        let ghost g1 = self.nodes();
        let mut i: usize = 0;
        while i < sources.len()
            invariant
                i <= sources.len(),
                self.enabled,
                self.insights@ == old(self).insights@,
                g1 == add_node(g0, topic@, (NodeType::Topic, topic@, Seq::empty(), 10u8)),
                self.nodes() == add_sources(g1, topic@, sources@.take(i as int)),
                unique_keys(self.nodes()),
            decreases sources.len() - i,
        {
            assert(sources@.take(i + 1).drop_last() =~= sources@.take(i as int));
            assert(sources@.take(i + 1).last() == sources@[i as int]);
            let s = &sources[i];
            link_node(&mut self.nodes, topic, s.url.as_str());
            let node = new_node(s.title.as_str(), NodeType::Source, topic, 8);
            add_node_to(&mut self.nodes, s.url.as_str(), node);
            i = i + 1;
        }
        assert(sources@.take(sources.len() as int) =~= sources@);
        let ghost g2 = self.nodes();
        let ghost pv = key_points@.map_values(|x: String| x@);
        let mut p: usize = 0;
        while p < key_points.len()
            invariant
                p <= key_points.len(),
                self.enabled,
                self.insights@ == old(self).insights@,
                pv == key_points@.map_values(|x: String| x@),
                self.nodes() == graph_points(g2, topic@, pv.take(p as int)),
                unique_keys(self.nodes()),
            decreases key_points.len() - p,
        {
            assert(pv.take(p + 1).drop_last() =~= pv.take(p as int));
            assert(pv.take(p + 1).last() == key_points@[p as int]@);
            let ws = split_words(key_points[p].as_str());
            let ghost wv = ws@.map_values(|x: String| x@);
            let ghost base = self.nodes();
            let mut k: usize = 0;
            while k < ws.len()
                invariant
                    k <= ws.len(),
                    self.enabled,
                    self.insights@ == old(self).insights@,
                    wv == ws@.map_values(|x: String| x@),
                    self.nodes() == graph_words(base, topic@, wv.take(k as int)),
                    unique_keys(self.nodes()),
                decreases ws.len() - k,
            {
                assert(wv.take(k + 1).drop_last() =~= wv.take(k as int));
                assert(wv.take(k + 1).last() == ws@[k as int]@);
                if ws[k].as_str().len() > 5 {
                    let stripped = strip_symbols_of(ws[k].as_str());
                    let c = to_lowercase(stripped.as_str());
                    if c.as_str().len() >= 4 {
                        touch(&mut self.nodes, c.as_str(), topic);
                    }
                }
                k = k + 1;
            }
            assert(wv.take(ws.len() as int) =~= wv);
            p = p + 1;
        }
        assert(pv.take(key_points.len() as int) =~= pv);
        self.discover_insights();
    }

    /// Adds the insights of the concepts that link two topics or more, unless found
    /// before (see `fresh_insights`).
    fn discover_insights(&mut self)
        ensures
            final(self).is_enabled() == old(self).is_enabled(),
            final(self).nodes() == old(self).nodes(),
            final(self).insights() == old(self).insights() + fresh_insights(
                old(self).nodes(),
                old(self).insights(),
                old(self).nodes(),
            ),
    {
        let ghost g = self.nodes();
        let ghost known = self.insights();
        let mut fresh: Vec<String> = Vec::new();
        let mut j: usize = 0;
        while j < self.nodes.len()
            invariant
                j <= self.nodes.len(),
                g == self.nodes(),
                known == self.insights(),
                fresh@.map_values(|x: String| x@) == fresh_insights(g, known, g.take(j as int)),
            decreases self.nodes.len() - j,
        {
            assert(g.take(j + 1).drop_last() =~= g.take(j as int));
            assert(g.take(j + 1).last() == g[j as int]);
            let n = &self.nodes[j].1;
            if n.node_type == NodeType::Concept {
                let ts = topic_links_of(&self.nodes, &n.connections);
                if ts.len() >= 2 {
                    let text = insight(n.label.as_str(), &ts);
                    if !holds(&self.insights, text.as_str()) {
                        let ghost before = fresh@.map_values(|x: String| x@);
                        fresh.push(text);
                        assert(fresh@.map_values(|x: String| x@) =~= before.push(text@));
                    }
                }
            }
            j = j + 1;
        }
        assert(g.take(self.nodes.len() as int) =~= g);
        let ghost fv = fresh@.map_values(|x: String| x@);
        let mut k: usize = 0;
        while k < fresh.len()
            invariant
                k <= fresh.len(),
                g == self.nodes(),
                self.enabled == old(self).enabled,
                fv == fresh@.map_values(|x: String| x@),
                self.insights() == known + fv.take(k as int),
            decreases fresh.len() - k,
        {
            let ghost before = self.insights();
            self.insights.push(fresh[k].clone());
            assert(self.insights() =~= before.push(fv[k as int]));
            assert(fv.take(k + 1) =~= fv.take(k as int).push(fv[k as int]));
            k = k + 1;
        }
        assert(fv.take(fresh.len() as int) =~= fv);
    }

    /// The insights found so far.
    pub fn get_insights(&self) -> (r: Vec<String>)
        ensures
            r@.map_values(|x: String| x@) == self.insights(),
    {
        copy_strings(&self.insights)
    }

    /// How many nodes the graph holds.
    pub fn node_count(&self) -> (n: usize)
        ensures
            n == self.nodes().len(),
    {
        self.nodes.len()
    }
}

/// Some node of `g` is keyed `k`.
pub open spec fn has_key(g: Seq<(Seq<char>, NodeView)>, k: Seq<char>) -> bool {
    exists|i: int| 0 <= i < g.len() && (#[trigger] g[i]).0 == k
}

proof fn lemma_has_key_index(g: Seq<(Seq<char>, NodeView)>, k: Seq<char>)
    ensures
        has_key(g, k) <==> key_index(g, k) < g.len(),
{
    lemma_key_index(g, k);
    if key_index(g, k) < g.len() {
        assert(g[key_index(g, k)].0 == k);
    }
}

/// Every operation on nodes keeps every key: `h` holds each key `g` holds.
pub open spec fn keeps_keys(g: Seq<(Seq<char>, NodeView)>, h: Seq<(Seq<char>, NodeView)>) -> bool {
    forall|k: Seq<char>| has_key(g, k) ==> #[trigger] has_key(h, k)
}

proof fn lemma_keeps_keys_update(g: Seq<(Seq<char>, NodeView)>, i: int, n: NodeView)
    requires
        0 <= i < g.len(),
    ensures
        keeps_keys(g, g.update(i, (g[i].0, n))),
{
    let h = g.update(i, (g[i].0, n));
    assert forall|k: Seq<char>| has_key(g, k) implies #[trigger] has_key(h, k) by {
        let j = choose|j: int| 0 <= j < g.len() && (#[trigger] g[j]).0 == k;
        assert(h[j].0 == k);
    }
}

proof fn lemma_keeps_keys_push(g: Seq<(Seq<char>, NodeView)>, e: (Seq<char>, NodeView))
    ensures
        keeps_keys(g, g.push(e)),
        has_key(g.push(e), e.0),
{
    let h = g.push(e);
    assert forall|k: Seq<char>| has_key(g, k) implies #[trigger] has_key(h, k) by {
        let j = choose|j: int| 0 <= j < g.len() && (#[trigger] g[j]).0 == k;
        assert(h[j].0 == k);
    }
    assert(h[g.len() as int].0 == e.0);
}

proof fn lemma_add_node_keys(g: Seq<(Seq<char>, NodeView)>, k: Seq<char>, n: NodeView)
    ensures
        keeps_keys(g, add_node(g, k, n)),
        has_key(add_node(g, k, n), k),
{
    lemma_has_key_index(g, k);
    if key_index(g, k) >= g.len() {
        lemma_keeps_keys_push(g, (k, n));
    }
}

proof fn lemma_link_keys(g: Seq<(Seq<char>, NodeView)>, k: Seq<char>, t: Seq<char>)
    ensures
        keeps_keys(g, link(g, k, t)),
{
    lemma_key_index(g, k);
    let i = key_index(g, k);
    if i < g.len() && !g[i].1.2.contains(t) {
        lemma_keeps_keys_update(g, i, (g[i].1.0, g[i].1.1, g[i].1.2.push(t), g[i].1.3));
    }
}

proof fn lemma_touch_keys(g: Seq<(Seq<char>, NodeView)>, c: Seq<char>, topic: Seq<char>)
    ensures
        keeps_keys(g, touch_concept(g, c, topic)),
{
    lemma_key_index(g, c);
    let i = key_index(g, c);
    if i < g.len() {
        lemma_keeps_keys_update(g, i, touch_concept(g, c, topic)[i].1);
        assert(g.update(i, (g[i].0, touch_concept(g, c, topic)[i].1)) =~= touch_concept(g, c, topic));
    } else {
        lemma_keeps_keys_push(g, (c, (NodeType::Concept, c, seq![topic], 3u8)));
    }
}

proof fn lemma_add_sources_keys(g: Seq<(Seq<char>, NodeView)>, topic: Seq<char>, srcs: Seq<FetchedContent>)
    ensures
        keeps_keys(g, add_sources(g, topic, srcs)),
    decreases srcs.len(),
{
    if srcs.len() > 0 {
        lemma_add_sources_keys(g, topic, srcs.drop_last());
        let h = add_sources(g, topic, srcs.drop_last());
        let s = srcs.last();
        lemma_link_keys(h, topic, s.url@);
        lemma_add_node_keys(link(h, topic, s.url@), s.url@, (NodeType::Source, s.title@, seq![topic], 8u8));
    }
}

proof fn lemma_graph_words_keys(g: Seq<(Seq<char>, NodeView)>, topic: Seq<char>, ws: Seq<Seq<char>>)
    ensures
        keeps_keys(g, graph_words(g, topic, ws)),
    decreases ws.len(),
{
    if ws.len() > 0 {
        lemma_graph_words_keys(g, topic, ws.drop_last());
        let h = graph_words(g, topic, ws.drop_last());
        let w = ws.last();
        if byte_len(w) > 5 && byte_len(concept_of(w)) >= 4 {
            lemma_touch_keys(h, concept_of(w), topic);
        }
    }
}

proof fn lemma_graph_points_keys(g: Seq<(Seq<char>, NodeView)>, topic: Seq<char>, points: Seq<Seq<char>>)
    ensures
        keeps_keys(g, graph_points(g, topic, points)),
    decreases points.len(),
{
    if points.len() > 0 {
        lemma_graph_points_keys(g, topic, points.drop_last());
        lemma_graph_words_keys(graph_points(g, topic, points.drop_last()), topic, words_of(points.last()));
    }
}

/// Research never makes the graph forget a node, and the topic researched is a node
/// afterwards.
pub proof fn lemma_ingest_keeps_nodes_and_adds_topic(
    g: Seq<(Seq<char>, NodeView)>,
    topic: Seq<char>,
    srcs: Seq<FetchedContent>,
    points: Seq<Seq<char>>,
)
    ensures
        keeps_keys(g, ingested(g, topic, srcs, points)),
        has_key(ingested(g, topic, srcs, points), topic),
{
    let g1 = add_node(g, topic, (NodeType::Topic, topic, Seq::empty(), 10u8));
    lemma_add_node_keys(g, topic, (NodeType::Topic, topic, Seq::empty(), 10u8));
    lemma_add_sources_keys(g1, topic, srcs);
    let g2 = add_sources(g1, topic, srcs);
    lemma_graph_points_keys(g2, topic, points);
}

} // verus!
