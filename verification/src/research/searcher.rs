//! Source discovery: the built-in knowledge base and fetching a source's content.
use vstd::prelude::*;
use crate::research::byte_len;
use crate::text::{
    chars_of, contains_str, dec, eq_str, find, find_spec, has_sub, lowercase, parse_usize,
    parse_usize_spec, push_dec, push_str, slice_string, split_words, starts_with, strip_prefixes,
    to_lowercase, trim_start_matches, words_of,
};

verus! {

/// A discovered source; its relevance is in hundredths.
#[derive(Debug, Clone)]
pub struct Source {
    pub url: String,
    pub title: String,
    pub snippet: String,
    pub relevance_pct: u8,
}

/// The texts and relevance of a source.
pub open spec fn source_view(s: Source) -> (Seq<char>, Seq<char>, Seq<char>, u8) {
    (s.url@, s.title@, s.snippet@, s.relevance_pct)
}

/// The views of `ss`.
pub open spec fn sources_view(ss: Seq<Source>) -> Seq<(Seq<char>, Seq<char>, Seq<char>, u8)> {
    ss.map_values(|s: Source| source_view(s))
}

/// Content fetched for a source.
#[derive(Debug, Clone)]
pub struct FetchedContent {
    pub url: String,
    pub title: String,
    pub content: String,
    pub word_count: usize,
}

/// The entries of the first topic in `kb` named `k`.
pub open spec fn topic_entries(kb: Seq<(Seq<char>, Seq<(Seq<char>, Seq<char>)>)>, k: Seq<char>) -> Option<
    Seq<(Seq<char>, Seq<char>)>,
>
    decreases kb.len(),
{
    if kb.len() == 0 {
        None
    } else if kb[0].0 == k {
        Some(kb[0].1)
    } else {
        topic_entries(kb.drop_first(), k)
    }
}

/// The built-in knowledge base: topics, each with titled entries.
pub open spec fn seed_knowledge() -> Seq<(Seq<char>, Seq<(Seq<char>, Seq<char>)>)> {
    seq![("agi"@, seq![("What is AGI?"@, "Artificial General Intelligence (AGI) is a hypothetical type of intelligence that can understand, learn, and apply knowledge across a wide range of tasks at a level equal to or beyond human capability. Unlike narrow AI, which excels at specific tasks, AGI would possess generalized cognitive abilities."@), ("AGI Architecture"@, "Modern AGI architectures typically use layered approaches combining neural networks, symbolic reasoning, and evolutionary algorithms. Key components include memory systems, attention mechanisms, and self-improvement loops."@)]),
        ("self evolution"@, seq![("Self-Evolving Systems"@, "Self-evolving AI systems use genetic algorithms, reinforcement learning, and meta-learning to continuously improve their own architecture and parameters. The APEX*\u{221e} formula (\u{3a6}_APEX*\u{221e}) represents a mathematical framework for measuring and guiding this evolution."@)]),
        ("rust"@, seq![("Rust Programming"@, "Rust is a systems programming language focused on safety, speed, and concurrency. Its ownership model ensures memory safety without a garbage collector, making it ideal for high-performance AI systems."@)])]
}

/// `path` split at `sep` when `sep` occurs exactly once in it.
pub open spec fn split_in_two(path: Seq<char>, sep: Seq<char>) -> Option<(Seq<char>, Seq<char>)> {
    match find_spec(path, sep) {
        None => None,
        Some(i) => {
            let rest = path.skip(i + sep.len());
            if find_spec(rest, sep) is None {
                Some((path.take(i), rest))
            } else {
                None
            }
        },
    }
}

/// The knowledge-base entry that a `knowledge://<topic>/entry_<n>` url names, if
/// it names one (a number that does not parse counts as 0).
pub open spec fn named_entry(kb: Seq<(Seq<char>, Seq<(Seq<char>, Seq<char>)>)>, url: Seq<char>) -> Option<
    (Seq<char>, Seq<char>),
> {
    if !starts_with(url, "knowledge://"@) {
        None
    } else {
        match split_in_two(strip_prefixes(url, "knowledge://"@), "/entry_"@) {
            None => None,
            Some((topic, n)) => match topic_entries(kb, topic) {
                None => None,
                Some(es) => {
                    let idx: int = match parse_usize_spec(n) {
                        Some(v) => v as int,
                        None => 0,
                    };
                    if idx < es.len() {
                        Some(es[idx])
                    } else {
                        None
                    }
                },
            },
        }
    }
}

/// Discovers and fetches research sources.
pub struct Searcher {
    search_depth: usize,
    knowledge_base: Vec<(String, Vec<(String, String)>)>,
}

/// The text view of a knowledge base.
pub open spec fn kb_view(kb: Seq<(String, Vec<(String, String)>)>) -> Seq<(Seq<char>, Seq<(Seq<char>, Seq<char>)>)> {
    kb.map_values(
        |t: (String, Vec<(String, String)>)|
            (t.0@, t.1@.map_values(|e: (String, String)| (e.0@, e.1@))),
    )
}

impl Searcher {
    /// How many pages deep a search follows.
    pub closed spec fn depth(&self) -> usize {
        self.search_depth
    }

    /// The knowledge base.
    pub closed spec fn knowledge(&self) -> Seq<(Seq<char>, Seq<(Seq<char>, Seq<char>)>)> {
        kb_view(self.knowledge_base@)
    }

    /// A searcher following `search_depth` pages, with the built-in knowledge base.
    pub fn new(search_depth: usize) -> (s: Self)
        ensures
            s.depth() == search_depth,
            s.knowledge() == seed_knowledge(),
    {
        let mut kb: Vec<(String, Vec<(String, String)>)> = Vec::new();
        let mut e: Vec<(String, String)> = Vec::new();
        e.push(("What is AGI?".to_owned(), "Artificial General Intelligence (AGI) is a hypothetical type of intelligence that can understand, learn, and apply knowledge across a wide range of tasks at a level equal to or beyond human capability. Unlike narrow AI, which excels at specific tasks, AGI would possess generalized cognitive abilities.".to_owned()));
        e.push(("AGI Architecture".to_owned(), "Modern AGI architectures typically use layered approaches combining neural networks, symbolic reasoning, and evolutionary algorithms. Key components include memory systems, attention mechanisms, and self-improvement loops.".to_owned()));
        kb.push(("agi".to_owned(), e));
        let mut e: Vec<(String, String)> = Vec::new();
        e.push(("Self-Evolving Systems".to_owned(), "Self-evolving AI systems use genetic algorithms, reinforcement learning, and meta-learning to continuously improve their own architecture and parameters. The APEX*\u{221e} formula (\u{3a6}_APEX*\u{221e}) represents a mathematical framework for measuring and guiding this evolution.".to_owned()));
        kb.push(("self evolution".to_owned(), e));
        let mut e: Vec<(String, String)> = Vec::new();
        e.push(("Rust Programming".to_owned(), "Rust is a systems programming language focused on safety, speed, and concurrency. Its ownership model ensures memory safety without a garbage collector, making it ideal for high-performance AI systems.".to_owned()));
        kb.push(("rust".to_owned(), e));
        let s = Searcher { search_depth, knowledge_base: kb };
        assert(s.knowledge() =~~= seed_knowledge());
        s
    }

    /// The knowledge base: for each topic key, its entries of title and content.
    pub fn knowledge_base(&self) -> (kb: &Vec<(String, Vec<(String, String)>)>)
        ensures
            kb_view(kb@) == self.knowledge(),
    {
        &self.knowledge_base
    }

    pub fn search_depth(&self) -> (n: usize)
        ensures
            n == self.depth(),
    {
        self.search_depth
    }

    /// The entries of the topic `k`.
    fn entries_of(&self, k: &str) -> (r: Option<&Vec<(String, String)>>)
        ensures
            match r {
                Some(es) => topic_entries(self.knowledge(), k@) == Some(
                    es@.map_values(|e: (String, String)| (e.0@, e.1@)),
                ),
                None => topic_entries(self.knowledge(), k@) is None,
            },
    {
        let ghost kv = self.knowledge();
        let mut i: usize = 0;
        assert(kv.skip(0) =~= kv);
        while i < self.knowledge_base.len()
            invariant
                i <= self.knowledge_base.len(),
                kv == self.knowledge(),
                topic_entries(kv, k@) == topic_entries(kv.skip(i as int), k@),
            decreases self.knowledge_base.len() - i,
        {
            assert(kv.skip(i as int)[0] == kv[i as int]);
            if eq_str(self.knowledge_base[i].0.as_str(), k) {
                return Some(&self.knowledge_base[i].1);
            }
            assert(kv.skip(i as int).drop_first() =~= kv.skip(i + 1));
            i = i + 1;
        }
        assert(kv.skip(i as int) =~= Seq::<(Seq<char>, Seq<(Seq<char>, Seq<char>)>)>::empty());
        None
    }

    /// The content of `source`: the knowledge-base entry its url names, else its
    /// title and snippet (see `fetched_from`).
    pub fn fetch(&self, source: &Source) -> (r: Option<FetchedContent>)
        ensures
            r matches Some(c) && fetched_from(c, self.knowledge(), source_view(*source)),
    {
        let url = source.url.as_str();
        if let Some(e) = self.knowledge_entry(url) {
            let n = split_words(e.1.as_str()).len();
            return Some(FetchedContent { url: url.to_owned(), title: e.0.clone(), content: e.1.clone(), word_count: n });
        }
        let n = split_words(source.snippet.as_str()).len();
        Some(
            FetchedContent {
                url: url.to_owned(),
                title: source.title.clone(),
                content: source.snippet.clone(),
                word_count: n,
            },
        )
    }

    /// The knowledge-base entry that `url` names (see `named_entry`).
    fn knowledge_entry(&self, url: &str) -> (r: Option<&(String, String)>)
        ensures
            match r {
                Some(e) => named_entry(self.knowledge(), url@) == Some((e.0@, e.1@)),
                None => named_entry(self.knowledge(), url@) is None,
            },
    {
        let uv = chars_of(url);
        let pv = chars_of("knowledge://");
        if pv.len() > uv.len() {
            return None;
        }
        let head = slice_string(&uv, 0, pv.len());
        if !eq_str(head.as_str(), "knowledge://") {
            return None;
        }
        let path = trim_start_matches(url, "knowledge://");
        let cv = chars_of(path.as_str());
        let sv = chars_of("/entry_");
        let i = match find(&cv, "/entry_") {
            Some(i) => i,
            None => return None,
        };
        let n = cv.len();
        let k = sv.len();
        assert(i + k <= n);
        let rest = slice_string(&cv, i + k, n);
        let rv = chars_of(rest.as_str());
        assert(rv@ =~= cv@.skip(i + k));
        if find(&rv, "/entry_").is_some() {
            return None;
        }
        let topic = slice_string(&cv, 0, i);
        assert(topic@ =~= cv@.take(i as int));
        let es = match self.entries_of(topic.as_str()) {
            Some(es) => es,
            None => return None,
        };
        let idx: usize = match parse_usize(rest.as_str()) {
            Some(v) => v,
            None => 0,
        };
        if idx < es.len() {
            Some(&es[idx])
        } else {
            None
        }
    }
}

/// The relevance, in hundredths, of the `i`-th entry of a matching topic: 0.80, and
/// 0.05 more for each earlier entry, at most 0.95.
pub open spec fn entry_relevance(i: int) -> u8 {
    if i >= 3 {
        95
    } else {
        (80 + 5 * i) as u8
    }
}

/// The preview of an entry: its first hundred characters. (The built-in entries
/// begin with a hundred ASCII characters, so these are their first hundred bytes.)
pub open spec fn snippet_of(content: Seq<char>) -> Seq<char> {
    if content.len() <= 100 {
        content
    } else {
        content.take(100)
    }
}

/// The sources for the entries `es` of the topic `key`, in order.
pub open spec fn entry_sources(key: Seq<char>, es: Seq<(Seq<char>, Seq<char>)>) -> Seq<
    (Seq<char>, Seq<char>, Seq<char>, u8),
> {
    Seq::new(
        es.len(),
        |i: int|
            (
                "knowledge://"@ + key + "/entry_"@ + dec(i as nat),
                es[i].0,
                snippet_of(es[i].1),
                entry_relevance(i),
            ),
    )
}

/// A topic key matches a lowercased query when either contains the other.
pub open spec fn topic_matches(lower: Seq<char>, key: Seq<char>) -> bool {
    has_sub(lower, key) || has_sub(key, lower)
}

/// The sources of every entry of every topic of `kb` that matches `lower`, in order.
pub open spec fn kb_sources(kb: Seq<(Seq<char>, Seq<(Seq<char>, Seq<char>)>)>, lower: Seq<char>) -> Seq<
    (Seq<char>, Seq<char>, Seq<char>, u8),
>
    decreases kb.len(),
{
    if kb.len() == 0 {
        Seq::empty()
    } else if topic_matches(lower, kb.last().0) {
        kb_sources(kb.drop_last(), lower) + entry_sources(kb.last().0, kb.last().1)
    } else {
        kb_sources(kb.drop_last(), lower)
    }
}

/// The web source offered for the query word `w`.
pub open spec fn web_source(w: Seq<char>) -> (Seq<char>, Seq<char>, Seq<char>, u8) {
    (
        "https://research.omega-agi.org/search?q="@ + w,
        "Research results for '"@ + w + "'"@,
        "Autonomous research findings related to "@ + w + "..."@,
        50,
    )
}

/// A web source for each word of `ws` longer than three bytes, in order.
pub open spec fn web_sources(ws: Seq<Seq<char>>) -> Seq<(Seq<char>, Seq<char>, Seq<char>, u8)>
    decreases ws.len(),
{
    if ws.len() == 0 {
        Seq::empty()
    } else if byte_len(ws.last()) > 3 {
        web_sources(ws.drop_last()).push(web_source(ws.last()))
    } else {
        web_sources(ws.drop_last())
    }
}

/// The sources of `s` whose relevance is `r`, in order.
pub open spec fn with_relevance(s: Seq<(Seq<char>, Seq<char>, Seq<char>, u8)>, r: u8) -> Seq<
    (Seq<char>, Seq<char>, Seq<char>, u8),
>
    decreases s.len(),
{
    if s.len() == 0 {
        Seq::empty()
    } else if s.last().3 == r {
        with_relevance(s.drop_last(), r).push(s.last())
    } else {
        with_relevance(s.drop_last(), r)
    }
}

/// `s` ordered by relevance, highest first, keeping the order of equally relevant
/// sources: a stable sort, since every source found has one of these relevances.
pub open spec fn by_relevance(s: Seq<(Seq<char>, Seq<char>, Seq<char>, u8)>) -> Seq<
    (Seq<char>, Seq<char>, Seq<char>, u8),
> {
    with_relevance(s, 95) + with_relevance(s, 90) + with_relevance(s, 85) + with_relevance(s, 80)
        + with_relevance(s, 50)
}

/// What a search for `topic` finds with knowledge base `kb`, `depth` pages deep:
/// the matching entries and a web source per longer query word, most relevant
/// first, at most five per page.
pub open spec fn search_results(kb: Seq<(Seq<char>, Seq<(Seq<char>, Seq<char>)>)>, depth: nat, topic: Seq<char>) -> Seq<
    (Seq<char>, Seq<char>, Seq<char>, u8),
> {
    search_results_for(kb, depth, lowercase(topic))
}

/// The search results for an already lowercased topic (see `search_results`).
pub open spec fn search_results_for(kb: Seq<(Seq<char>, Seq<(Seq<char>, Seq<char>)>)>, depth: nat, lower: Seq<char>) -> Seq<
    (Seq<char>, Seq<char>, Seq<char>, u8),
> {
    let ranked = by_relevance(kb_sources(kb, lower) + web_sources(words_of(lower)));
    if ranked.len() <= depth * 5 {
        ranked
    } else {
        ranked.take((depth * 5) as int)
    }
}

/// Every source kept by `with_relevance(s, r)` has relevance `r`.
proof fn lemma_with_relevance(s: Seq<(Seq<char>, Seq<char>, Seq<char>, u8)>, r: u8)
    ensures
        forall|k: int| 0 <= k < with_relevance(s, r).len() ==> (#[trigger] with_relevance(s, r)[k]).3 == r,
    decreases s.len(),
{
    if s.len() > 0 {
        lemma_with_relevance(s.drop_last(), r);
        let prev = with_relevance(s.drop_last(), r);
        if s.last().3 == r {
            assert forall|k: int| 0 <= k < with_relevance(s, r).len() implies (#[trigger] with_relevance(s, r)[k]).3
                == r by {
                if k < prev.len() {
                    assert(with_relevance(s, r)[k] == prev[k]);
                }
            }
        }
    }
}

/// A search lists its sources from the most relevant to the least.
pub proof fn lemma_search_most_relevant_first(
    kb: Seq<(Seq<char>, Seq<(Seq<char>, Seq<char>)>)>,
    depth: nat,
    topic: Seq<char>,
)
    ensures
        forall|a: int, b: int|
            0 <= a < b < search_results(kb, depth, topic).len() ==> (#[trigger] search_results(kb, depth, topic)[a]).3
                >= (#[trigger] search_results(kb, depth, topic)[b]).3,
{
    let lower = lowercase(topic);
    let s = kb_sources(kb, lower) + web_sources(words_of(lower));
    let (p, q, u, v, w) = (with_relevance(s, 95), with_relevance(s, 90), with_relevance(s, 85), with_relevance(s, 80), with_relevance(s, 50));
    lemma_with_relevance(s, 95);
    lemma_with_relevance(s, 90);
    lemma_with_relevance(s, 85);
    lemma_with_relevance(s, 80);
    lemma_with_relevance(s, 50);
    let ranked = by_relevance(s);
    assert forall|k: int| 0 <= k < ranked.len() implies (#[trigger] ranked[k]).3 == (if k < p.len() {
        95u8
    } else if k < p.len() + q.len() {
        90u8
    } else if k < p.len() + q.len() + u.len() {
        85u8
    } else if k < p.len() + q.len() + u.len() + v.len() {
        80u8
    } else {
        50u8
    }) by {
        if k < p.len() {
            assert(ranked[k] == p[k]);
        } else if k < p.len() + q.len() {
            assert(ranked[k] == q[k - p.len()]);
        } else if k < p.len() + q.len() + u.len() {
            assert(ranked[k] == u[k - p.len() - q.len()]);
        } else if k < p.len() + q.len() + u.len() + v.len() {
            assert(ranked[k] == v[k - p.len() - q.len() - u.len()]);
        } else {
            assert(ranked[k] == w[k - p.len() - q.len() - u.len() - v.len()]);
        }
    }
    let r = search_results(kb, depth, topic);
    assert forall|a: int, b: int| 0 <= a < b < r.len() implies (#[trigger] r[a]).3 >= (#[trigger] r[b]).3 by {
        assert(r[a] == ranked[a]);
        assert(r[b] == ranked[b]);
    }
}

/// The preview of `content` (see `snippet_of`).
fn snippet_text(content: &str) -> (r: String)
    ensures
        r@ == snippet_of(content@),
{
    let v = chars_of(content);
    let n: usize = if v.len() <= 100 {
        v.len()
    } else {
        100
    };
    assert(v@.subrange(0, v.len() as int) =~= v@);
    assert(v@.subrange(0, n as int) =~= snippet_of(content@));
    slice_string(&v, 0, n)
}

/// Appends to `out` the sources of `src` whose relevance is `r`, in order.
fn append_with_relevance(src: &Vec<Source>, r: u8, out: &mut Vec<Source>)
    ensures
        sources_view(final(out)@) == sources_view(old(out)@) + with_relevance(sources_view(src@), r),
{
    let ghost sv = sources_view(src@);
    let ghost start = sources_view(out@);
    let mut i: usize = 0;
    while i < src.len()
        invariant
            i <= src.len(),
            sv == sources_view(src@),
            sources_view(out@) == start + with_relevance(sv.take(i as int), r),
        decreases src.len() - i,
    {
        assert(sv.take(i + 1).drop_last() =~= sv.take(i as int));
        assert(sv.take(i + 1).last() == source_view(src@[i as int]));
        if src[i].relevance_pct == r {
            let ghost before = out@;
            let e = &src[i];
            out.push(Source { url: e.url.clone(), title: e.title.clone(), snippet: e.snippet.clone(), relevance_pct: e.relevance_pct });
            assert(sources_view(out@) =~= sources_view(before).push(source_view(src@[i as int])));
        }
        i = i + 1;
    }
    assert(sv.take(src.len() as int) =~= sv);
}

impl Searcher {
    /// Searches for `topic` (see `search_results`).
    pub fn search(&self, topic: &str) -> (r: Vec<Source>)
        requires
            self.depth() * 5 <= usize::MAX,
        ensures
            sources_view(r@) == search_results(self.knowledge(), self.depth() as nat, topic@),
    {
        let lower = to_lowercase(topic);
        self.search_lowered(lower.as_str())
    }

    /// Searches for an already lowercased topic (see `search_results_for`).
    pub fn search_lowered(&self, lower: &str) -> (r: Vec<Source>)
        requires
            self.depth() * 5 <= usize::MAX,
        ensures
            sources_view(r@) == search_results_for(self.knowledge(), self.depth() as nat, lower@),
    {
        let ghost kv = self.knowledge();
        let mut found: Vec<Source> = Vec::new();
        let mut t: usize = 0;
        while t < self.knowledge_base.len()
            invariant
                t <= self.knowledge_base.len(),
                kv == self.knowledge(),
                sources_view(found@) == kb_sources(kv.take(t as int), lower@),
            decreases self.knowledge_base.len() - t,
        {
            let key = &self.knowledge_base[t].0;
            let es = &self.knowledge_base[t].1;
            let ghost esv = es@.map_values(|e: (String, String)| (e.0@, e.1@));
            assert(kv.take(t + 1).drop_last() =~= kv.take(t as int));
            assert(kv.take(t + 1).last() == (key@, esv));
            if contains_str(lower, key.as_str()) || contains_str(key.as_str(), lower) {
                let ghost base = sources_view(found@);
                let mut i: usize = 0;
                while i < es.len()
                    invariant
                        i <= es.len(),
                        esv == es@.map_values(|e: (String, String)| (e.0@, e.1@)),
                        sources_view(found@) == base + entry_sources(key@, esv).take(i as int),
                    decreases es.len() - i,
                {
                    let mut url = String::new();
                    push_str(&mut url, "knowledge://");
                    push_str(&mut url, key.as_str());
                    push_str(&mut url, "/entry_");
                    push_dec(&mut url, i as u64);
                    let snippet = snippet_text(es[i].1.as_str());
                    let rel: u8 = if i >= 3 {
                        95
                    } else {
                        80 + 5 * (i as u8)
                    };
                    let ghost before = found@;
                    found.push(Source { url, title: es[i].0.clone(), snippet, relevance_pct: rel });
                    proof {
                        let es_i = entry_sources(key@, esv);
                        assert(source_view(found@.last()) == es_i[i as int]);
                        assert(sources_view(found@) =~= sources_view(before).push(es_i[i as int]));
                        assert(es_i.take(i + 1) =~= es_i.take(i as int).push(es_i[i as int]));
                    }
                    i = i + 1;
                }
                assert(entry_sources(key@, esv).take(es.len() as int) =~= entry_sources(key@, esv));
            }
            t = t + 1;
        }
        assert(kv.take(self.knowledge_base.len() as int) =~= kv);
        let ghost kb_part = sources_view(found@);
        let words = split_words(lower);
        let ghost wv = words@.map_values(|x: String| x@);
        let mut k: usize = 0;
        while k < words.len()
            invariant
                k <= words.len(),
                wv == words@.map_values(|x: String| x@),
                sources_view(found@) == kb_part + web_sources(wv.take(k as int)),
            decreases words.len() - k,
        {
            assert(wv.take(k + 1).drop_last() =~= wv.take(k as int));
            assert(wv.take(k + 1).last() == words@[k as int]@);
            let w = words[k].as_str();
            if w.len() > 3 {
                let mut url = String::new();
                push_str(&mut url, "https://research.omega-agi.org/search?q=");
                push_str(&mut url, w);
                let mut title = String::new();
                push_str(&mut title, "Research results for '");
                push_str(&mut title, w);
                push_str(&mut title, "'");
                let mut snippet = String::new();
                push_str(&mut snippet, "Autonomous research findings related to ");
                push_str(&mut snippet, w);
                push_str(&mut snippet, "...");
                let ghost before = found@;
                found.push(Source { url, title, snippet, relevance_pct: 50 });
                assert(sources_view(found@) =~= sources_view(before).push(web_source(w@)));
            }
            k = k + 1;
        }
        assert(wv.take(words.len() as int) =~= wv);
        let mut ranked: Vec<Source> = Vec::new();
        append_with_relevance(&found, 95, &mut ranked);
        append_with_relevance(&found, 90, &mut ranked);
        append_with_relevance(&found, 85, &mut ranked);
        append_with_relevance(&found, 80, &mut ranked);
        append_with_relevance(&found, 50, &mut ranked);
        let limit = self.search_depth * 5;
        if ranked.len() > limit {
            ranked.truncate(limit);
        }
        ranked
    }

    /// Searches for `topic` and fetches every source found.
    pub fn search_and_fetch(&self, topic: &str) -> (r: Vec<FetchedContent>)
        requires
            self.depth() * 5 <= usize::MAX,
        ensures
            r@.len() == search_results(self.knowledge(), self.depth() as nat, topic@).len(),
            forall|i: int|
                0 <= i < r@.len() ==> fetched_from(
                    #[trigger] r@[i],
                    self.knowledge(),
                    search_results(self.knowledge(), self.depth() as nat, topic@)[i],
                ),
    {
        let sources = self.search(topic);
        let ghost sv = search_results(self.knowledge(), self.depth() as nat, topic@);
        let mut out: Vec<FetchedContent> = Vec::new();
        let mut i: usize = 0;
        while i < sources.len()
            invariant
                i <= sources.len(),
                sources_view(sources@) == sv,
                out@.len() == i,
                forall|j: int| 0 <= j < i ==> fetched_from(#[trigger] out@[j], self.knowledge(), sv[j]),
            decreases sources.len() - i,
        {
            let s = &sources[i];
            assert(sv[i as int] == source_view(sources@[i as int]));
            match self.fetch(s) {
                Some(c) => out.push(c),
                None => {},
            }
            i = i + 1;
        }
        out
    }
}

/// What `fetch` gives for the source `s`: the knowledge-base entry its url names,
/// else its title and snippet.
pub open spec fn fetched_from(c: FetchedContent, kb: Seq<(Seq<char>, Seq<(Seq<char>, Seq<char>)>)>, s: (Seq<char>, Seq<char>, Seq<char>, u8)) -> bool {
    c.url@ == s.0 && match named_entry(kb, s.0) {
        Some(e) => c.title@ == e.0 && c.content@ == e.1 && c.word_count == words_of(e.1).len(),
        None => c.title@ == s.1 && c.content@ == s.2 && c.word_count == words_of(s.2).len(),
    }
}

/// The content a source offers before it is fetched: its url, title and snippet.
pub fn preview(source: &Source) -> (c: FetchedContent)
    ensures
        c.url@ == source.url@,
        c.title@ == source.title@,
        c.content@ == source.snippet@,
        c.word_count == words_of(source.snippet@).len(),
{
    let n = split_words(source.snippet.as_str()).len();
    FetchedContent { url: source.url.clone(), title: source.title.clone(), content: source.snippet.clone(), word_count: n }
}

} // verus!
