//! Drawing a summary and key points from fetched sources.
use vstd::prelude::*;
use crate::research::byte_len;
use crate::research::searcher::FetchedContent;
use crate::text::{
    chars_of, contains_str, dec, eq_str, has_sub, join, join_with, lowercase, push_dec, push_str,
    slice_string, split_words, to_lowercase, trim, trimmed, words_of,
};

verus! {

/// A character that ends a sentence.
pub open spec fn is_stop(c: char) -> bool {
    c == '.' || c == '!' || c == '?'
}

/// Index of the first sentence end in `s`, or `s.len()` when there is none.
pub open spec fn first_stop(s: Seq<char>) -> int
    decreases s.len(),
{
    if s.len() == 0 {
        0
    } else if is_stop(s[0]) {
        0
    } else {
        1 + first_stop(s.drop_first())
    }
}

/// The pieces of `s` between sentence ends, as `str::split` on `.`, `!` and `?`
/// gives them: one more piece than there are ends, empty pieces included.
pub open spec fn sentences_of(s: Seq<char>) -> Seq<Seq<char>>
    decreases s.len(),
{
    let i = first_stop(s);
    if 0 <= i < s.len() {
        seq![s.take(i)] + sentences_of(s.skip(i + 1))
    } else {
        seq![s]
    }
}

proof fn lemma_first_stop_at(s: Seq<char>, k: int)
    requires
        0 <= k <= s.len(),
        forall|j: int| 0 <= j < k ==> !is_stop(#[trigger] s[j]),
        k < s.len() ==> is_stop(s[k]),
    ensures
        first_stop(s) == k,
    decreases s.len(),
{
    if s.len() > 0 && k > 0 {
        assert(!is_stop(s[0]));
        assert forall|j: int| 0 <= j < k - 1 implies !is_stop(#[trigger] s.drop_first()[j]) by {
            assert(s.drop_first()[j] == s[j + 1]);
        }
        lemma_first_stop_at(s.drop_first(), k - 1);
    }
}

/// The pieces of `s` between sentence ends (see `sentences_of`).
fn sentences(s: &str) -> (ps: Vec<String>)
    ensures
        ps@.map_values(|x: String| x@) == sentences_of(s@),
{
    let cv = chars_of(s);
    let n = cv.len();
    let mut ps: Vec<String> = Vec::new();
    let mut start: usize = 0;
    assert(cv@.skip(0) =~= cv@);
    assert(ps@.map_values(|x: String| x@) + sentences_of(cv@.skip(0)) =~= sentences_of(cv@));
    loop
        invariant_except_break
            start <= n,
            ps@.map_values(|x: String| x@) + sentences_of(cv@.skip(start as int)) == sentences_of(cv@),
        invariant
            n == cv.len(),
            cv@ == s@,
        ensures
            ps@.map_values(|x: String| x@) == sentences_of(cv@),
        decreases n - start,
    {
        let ghost rest = cv@.skip(start as int);
        let ghost before = ps@.map_values(|x: String| x@);
        let mut j: usize = start;
        while j < n && !(cv[j] == '.' || cv[j] == '!' || cv[j] == '?')
            invariant
                start <= j <= n,
                n == cv.len(),
                forall|m: int| start <= m < j ==> !is_stop(#[trigger] cv@[m]),
            decreases n - j,
        {
            j = j + 1;
        }
        proof {
            assert forall|m: int| 0 <= m < j - start implies !is_stop(#[trigger] rest[m]) by {
                assert(rest[m] == cv@[start + m]);
            }
            if j < n {
                assert(rest[j - start] == cv@[j as int]);
            }
            lemma_first_stop_at(rest, j - start);
        }
        let piece = slice_string(&cv, start, j);
        assert(piece@ =~= rest.take(j - start));
        ps.push(piece);
        assert(ps@.map_values(|x: String| x@) =~= before.push(piece@));
        if j == n {
            assert(rest.take(j - start) =~= rest);
            assert(sentences_of(rest) == seq![rest]);
            assert(before + seq![rest] =~= before.push(rest));
            break;
        }
        assert(rest.skip(j - start + 1) =~= cv@.skip(j + 1));
        assert(sentences_of(rest) == seq![rest.take(j - start)] + sentences_of(cv@.skip(j + 1)));
        assert(before + (seq![rest.take(j - start)] + sentences_of(cv@.skip(j + 1))) =~= before.push(
            rest.take(j - start),
        ) + sentences_of(cv@.skip(j + 1)));
        start = j + 1;
    }
    ps
}

/// How many of the words `ws` occur in `h` (a word listed twice counts twice).
pub open spec fn mentions(ws: Seq<Seq<char>>, h: Seq<char>) -> nat
    decreases ws.len(),
{
    if ws.len() == 0 {
        0
    } else {
        mentions(ws.drop_last(), h) + if has_sub(h, ws.last()) {
            1nat
        } else {
            0nat
        }
    }
}

/// How many of the words `ws` occur in `h` (see `mentions`); with the words of a
/// lowercased topic and a lowercased text, the hits of that text.
pub fn mentions_in(ws: &Vec<String>, h: &str) -> (n: usize)
    ensures
        n == mentions(ws@.map_values(|x: String| x@), h@),
        n <= ws.len(),
{
    let ghost wv = ws@.map_values(|x: String| x@);
    let mut n: usize = 0;
    let mut i: usize = 0;
    while i < ws.len()
        invariant
            i <= ws.len(),
            n <= i,
            wv == ws@.map_values(|x: String| x@),
            n == mentions(wv.take(i as int), h@),
        decreases ws.len() - i,
    {
        assert(wv.take(i + 1).drop_last() =~= wv.take(i as int));
        assert(wv.take(i + 1).last() == ws@[i as int]@);
        if contains_str(h, ws[i].as_str()) {
            n = n + 1;
        }
        i = i + 1;
    }
    assert(wv.take(ws.len() as int) =~= wv);
    n
}

/// A sentence yields a key point when, lowercased and trimmed, it is at least twenty
/// bytes long and holds a query word of `ws`.
pub open spec fn yields_point(ws: Seq<Seq<char>>, sentence: Seq<char>) -> bool {
    byte_len(trimmed(lowercase(sentence))) >= 20 && mentions(ws, trimmed(lowercase(sentence))) > 0
}

/// `points` extended with each sentence of `ss` that yields a key point, trimmed,
/// unless it is already a point.
pub open spec fn add_sentences(points: Seq<Seq<char>>, ws: Seq<Seq<char>>, ss: Seq<Seq<char>>) -> Seq<Seq<char>>
    decreases ss.len(),
{
    if ss.len() == 0 {
        points
    } else {
        let p = add_sentences(points, ws, ss.drop_last());
        if yields_point(ws, ss.last()) && !p.contains(trimmed(ss.last())) {
            p.push(trimmed(ss.last()))
        } else {
            p
        }
    }
}

/// The key points of the sources `srcs` for the query words `ws`, in the order found.
pub open spec fn gathered_points(ws: Seq<Seq<char>>, srcs: Seq<FetchedContent>) -> Seq<Seq<char>>
    decreases srcs.len(),
{
    if srcs.len() == 0 {
        Seq::empty()
    } else {
        add_sentences(gathered_points(ws, srcs.drop_last()), ws, sentences_of(srcs.last().content@))
    }
}

/// The words the sources `srcs` hold in all.
pub open spec fn total_words(srcs: Seq<FetchedContent>) -> nat
    decreases srcs.len(),
{
    if srcs.len() == 0 {
        0
    } else {
        total_words(srcs.drop_last()) + srcs.last().word_count as nat
    }
}

/// How many query words of `ws` the key point `p` holds, lowercased.
pub open spec fn point_score(ws: Seq<Seq<char>>, p: Seq<char>) -> nat {
    mentions(ws, lowercase(p))
}

/// The points of `ps` whose score is `c`, in order.
pub open spec fn at_score(ws: Seq<Seq<char>>, ps: Seq<Seq<char>>, c: nat) -> Seq<Seq<char>>
    decreases ps.len(),
{
    if ps.len() == 0 {
        Seq::empty()
    } else if point_score(ws, ps.last()) == c {
        at_score(ws, ps.drop_last(), c).push(ps.last())
    } else {
        at_score(ws, ps.drop_last(), c)
    }
}

/// The points of `ps` with scores from `hi` down to `lo`, highest score first, in
/// order within a score.
pub open spec fn by_score(ws: Seq<Seq<char>>, ps: Seq<Seq<char>>, hi: int, lo: int) -> Seq<Seq<char>>
    decreases hi - lo + 1,
{
    if lo < 0 || lo > hi {
        Seq::empty()
    } else {
        by_score(ws, ps, hi, lo + 1) + at_score(ws, ps, lo as nat)
    }
}

/// The points of `ps` ordered by score, highest first, keeping the order of equal
/// scores: a stable sort, as no point holds more words than `ws` lists.
pub open spec fn ranked_points(ws: Seq<Seq<char>>, ps: Seq<Seq<char>>) -> Seq<Seq<char>> {
    by_score(ws, ps, ws.len() as int, 0)
}

/// The summary of an extraction from `n` sources holding `words` words with key
/// points `points`: the first three points joined, or a note when there are none.
pub open spec fn summary_text(topic: Seq<char>, n: nat, words: nat, points: Seq<Seq<char>>) -> Seq<char> {
    if points.len() == 0 {
        "Research on '"@ + topic + "' found "@ + dec(n) + " sources with "@ + dec(words)
            + " total words. Key insights are being compiled."@
    } else {
        join_with(points.take(if points.len() < 3 { points.len() as int } else { 3 }), ". "@)
    }
}

/// The query words of `topic`: its lowercased words.
pub open spec fn query_words(topic: Seq<char>) -> Seq<Seq<char>> {
    words_of(lowercase(topic))
}

/// What extraction draws from sources: a summary, the key points (at most ten, those
/// holding most query words first), the words the sources hold, and how many query
/// words each source holds (the relevance score is computed from these).
#[derive(Debug, Clone)]
pub struct Extraction {
    pub summary: String,
    pub key_points: Vec<String>,
    pub word_count: usize,
    pub source_hits: Vec<usize>,
}

/// Whether some point of `ps` reads `p`.
fn has_point(ps: &Vec<String>, p: &str) -> (b: bool)
    ensures
        b == ps@.map_values(|x: String| x@).contains(p@),
{
    let ghost pv = ps@.map_values(|x: String| x@);
    let mut i: usize = 0;
    while i < ps.len()
        invariant
            i <= ps.len(),
            pv == ps@.map_values(|x: String| x@),
            forall|j: int| 0 <= j < i ==> pv[j] != p@,
        decreases ps.len() - i,
    {
        if eq_str(ps[i].as_str(), p) {
            assert(pv[i as int] == p@);
            return true;
        }
        i = i + 1;
    }
    false
}

/// `points` extended with the key points among the sentences of `content`.
fn add_points_of(points: &mut Vec<String>, ws: &Vec<String>, content: &str)
    ensures
        final(points)@.map_values(|x: String| x@) == add_sentences(
            old(points)@.map_values(|x: String| x@),
            ws@.map_values(|x: String| x@),
            sentences_of(content@),
        ),
{
    let ss = sentences(content);
    let ghost sv = ss@.map_values(|x: String| x@);
    let ghost wv = ws@.map_values(|x: String| x@);
    let ghost start = points@.map_values(|x: String| x@);
    let mut k: usize = 0;
    while k < ss.len()
        invariant
            k <= ss.len(),
            sv == ss@.map_values(|x: String| x@),
            sv == sentences_of(content@),
            wv == ws@.map_values(|x: String| x@),
            points@.map_values(|x: String| x@) == add_sentences(start, wv, sv.take(k as int)),
        decreases ss.len() - k,
    {
        assert(sv.take(k + 1).drop_last() =~= sv.take(k as int));
        assert(sv.take(k + 1).last() == ss@[k as int]@);
        let low = to_lowercase(ss[k].as_str());
        let sl = trim(low.as_str());
        if sl.as_str().len() >= 20 && mentions_in(ws, sl.as_str()) > 0 {
            let p = trim(ss[k].as_str());
            if !has_point(points, p.as_str()) {
                let ghost before = points@.map_values(|x: String| x@);
                points.push(p);
                assert(points@.map_values(|x: String| x@) =~= before.push(trimmed(ss@[k as int]@)));
            }
        }
        k = k + 1;
    }
    assert(sv.take(ss.len() as int) =~= sv);
}

/// The points of `ps` whose score `scores` gives as `c`, appended to `out`.
fn append_at_score(ps: &Vec<String>, scores: &Vec<usize>, c: usize, out: &mut Vec<String>, Ghost(wv): Ghost<Seq<Seq<char>>>)
    requires
        scores@.len() == ps@.len(),
        forall|i: int| 0 <= i < ps@.len() ==> scores@[i] == point_score(wv, #[trigger] ps@[i]@),
    ensures
        final(out)@.map_values(|x: String| x@) == old(out)@.map_values(|x: String| x@) + at_score(
            wv,
            ps@.map_values(|x: String| x@),
            c as nat,
        ),
{
    let ghost pv = ps@.map_values(|x: String| x@);
    let ghost start = out@.map_values(|x: String| x@);
    let mut i: usize = 0;
    while i < ps.len()
        invariant
            i <= ps.len(),
            scores@.len() == ps@.len(),
            forall|j: int| 0 <= j < ps@.len() ==> scores@[j] == point_score(wv, #[trigger] ps@[j]@),
            pv == ps@.map_values(|x: String| x@),
            out@.map_values(|x: String| x@) == start + at_score(wv, pv.take(i as int), c as nat),
        decreases ps.len() - i,
    {
        assert(pv.take(i + 1).drop_last() =~= pv.take(i as int));
        assert(pv.take(i + 1).last() == ps@[i as int]@);
        assert(scores@[i as int] == point_score(wv, ps@[i as int]@));
        if scores[i] == c {
            let ghost before = out@.map_values(|x: String| x@);
            out.push(ps[i].clone());
            assert(out@.map_values(|x: String| x@) =~= before.push(ps@[i as int]@));
        }
        i = i + 1;
    }
    assert(pv.take(ps.len() as int) =~= pv);
}

/// The points `ps` ordered by score (see `ranked_points`).
fn rank_points(ws: &Vec<String>, ps: &Vec<String>) -> (r: Vec<String>)
    ensures
        r@.map_values(|x: String| x@) == ranked_points(ws@.map_values(|x: String| x@), ps@.map_values(|x: String| x@)),
{
    let ghost wv = ws@.map_values(|x: String| x@);
    let ghost pv = ps@.map_values(|x: String| x@);
    let mut scores: Vec<usize> = Vec::new();
    let mut i: usize = 0;
    while i < ps.len()
        invariant
            i <= ps.len(),
            wv == ws@.map_values(|x: String| x@),
            scores@.len() == i,
            forall|j: int| 0 <= j < i ==> scores@[j] == point_score(wv, #[trigger] ps@[j]@),
        decreases ps.len() - i,
    {
        let low = to_lowercase(ps[i].as_str());
        let sc = mentions_in(ws, low.as_str());
        scores.push(sc);
        i = i + 1;
    }
    let top = ws.len();
    let mut out: Vec<String> = Vec::new();
    let mut c: usize = top;
    assert(by_score(wv, pv, top as int, top + 1) =~= Seq::<Seq<char>>::empty());
    loop
        invariant_except_break
            c <= top,
            out@.map_values(|x: String| x@) == by_score(wv, pv, top as int, c + 1),
        invariant
            top == ws.len(),
            wv == ws@.map_values(|x: String| x@),
            pv == ps@.map_values(|x: String| x@),
            scores@.len() == ps@.len(),
            forall|j: int| 0 <= j < ps@.len() ==> scores@[j] == point_score(wv, #[trigger] ps@[j]@),
        ensures
            out@.map_values(|x: String| x@) == by_score(wv, pv, top as int, 0),
        decreases c,
    {
        append_at_score(ps, &scores, c, &mut out, Ghost(wv));
        if c == 0 {
            break;
        }
        c = c - 1;
    }
    out
}

/// At most the first `n` strings of `v`, copied.
fn first_n(v: &Vec<String>, n: usize) -> (r: Vec<String>)
    ensures
        r@.map_values(|x: String| x@) == v@.map_values(|x: String| x@).take(
            if v@.len() < n { v@.len() as int } else { n as int },
        ),
{
    let ghost vv = v@.map_values(|x: String| x@);
    let m: usize = if v.len() < n {
        v.len()
    } else {
        n
    };
    let mut r: Vec<String> = Vec::new();
    let mut i: usize = 0;
    while i < m
        invariant
            i <= m <= v.len(),
            vv == v@.map_values(|x: String| x@),
            r@.map_values(|x: String| x@) == vv.take(i as int),
        decreases m - i,
    {
        let ghost before = r@.map_values(|x: String| x@);
        r.push(v[i].clone());
        assert(r@.map_values(|x: String| x@) =~= before.push(vv[i as int]));
        assert(vv.take(i + 1) =~= vv.take(i as int).push(vv[i as int]));
        i = i + 1;
    }
    r
}

/// Draws a summary and key points on `topic` from `sources`: with no sources, a note
/// and nothing else; otherwise the sentences of the sources that hold a query word
/// (see `gathered_points`), summarized by the first three (see `summary_text`) and
/// kept as key points by score (see `ranked_points`), at most ten.
pub fn extract(topic: &str, sources: &[FetchedContent]) -> (e: Extraction)
    requires
        total_words(sources@) <= usize::MAX,
    ensures
        sources@.len() == 0 ==> e.summary@ == "No sources found for '"@ + topic@ + "'"@ && e.key_points@.len()
            == 0 && e.word_count == 0 && e.source_hits@.len() == 0,
        sources@.len() > 0 ==> {
            let ws = query_words(topic@);
            let points = gathered_points(ws, sources@);
            let ranked = ranked_points(ws, points);
            &&& e.word_count == total_words(sources@)
            &&& e.source_hits@.len() == sources@.len()
            &&& forall|i: int|
                0 <= i < sources@.len() ==> e.source_hits@[i] == mentions(
                    ws,
                    lowercase(#[trigger] sources@[i].content@),
                )
            &&& e.summary@ == summary_text(topic@, sources@.len(), total_words(sources@), points)
            &&& e.key_points@.map_values(|x: String| x@) == ranked.take(
                if ranked.len() < 10 { ranked.len() as int } else { 10 },
            )
        },
{
    if sources.len() == 0 {
        let mut summary = String::new();
        push_str(&mut summary, "No sources found for '");
        push_str(&mut summary, topic);
        push_str(&mut summary, "'");
        return Extraction { summary, key_points: Vec::new(), word_count: 0, source_hits: Vec::new() };
    }
    let lower = to_lowercase(topic);
    let ws = split_words(lower.as_str());
    let ghost wv = ws@.map_values(|x: String| x@);
    let mut points: Vec<String> = Vec::new();
    let mut words: usize = 0;
    let mut hits: Vec<usize> = Vec::new();
    let mut i: usize = 0;
    while i < sources.len()
        invariant
            i <= sources.len(),
            total_words(sources@) <= usize::MAX,
            wv == ws@.map_values(|x: String| x@),
            wv == query_words(topic@),
            words == total_words(sources@.take(i as int)),
            points@.map_values(|x: String| x@) == gathered_points(wv, sources@.take(i as int)),
            hits@.len() == i,
            forall|j: int| 0 <= j < i ==> hits@[j] == mentions(wv, lowercase(#[trigger] sources@[j].content@)),
        decreases sources.len() - i,
    {
        assert(sources@.take(i + 1).drop_last() =~= sources@.take(i as int));
        assert(sources@.take(i + 1).last() == sources@[i as int]);
        proof {
            lemma_total_words_prefix(sources@, i + 1);
        }
        words = words + sources[i].word_count;
        let cl = to_lowercase(sources[i].content.as_str());
        let h = mentions_in(&ws, cl.as_str());
        hits.push(h);
        add_points_of(&mut points, &ws, sources[i].content.as_str());
        i = i + 1;
    }
    assert(sources@.take(sources.len() as int) =~= sources@);
    let mut summary = String::new();
    if points.len() == 0 {
        push_str(&mut summary, "Research on '");
        push_str(&mut summary, topic);
        push_str(&mut summary, "' found ");
        push_dec(&mut summary, sources.len() as u64);
        push_str(&mut summary, " sources with ");
        push_dec(&mut summary, words as u64);
        push_str(&mut summary, " total words. Key insights are being compiled.");
    } else {
        let top = first_n(&points, 3);
        summary = join(&top, ". ");
    }
    let ranked = rank_points(&ws, &points);
    let key_points = first_n(&ranked, 10);
    Extraction { summary, key_points, word_count: words, source_hits: hits }
}

/// The words of a prefix of the sources are at most the words of all of them.
proof fn lemma_total_words_prefix(srcs: Seq<FetchedContent>, k: int)
    requires
        0 <= k <= srcs.len(),
    ensures
        total_words(srcs.take(k)) <= total_words(srcs),
    decreases srcs.len(),
{
    if k < srcs.len() {
        assert(srcs.drop_last().take(k) =~= srcs.take(k));
        lemma_total_words_prefix(srcs.drop_last(), k);
    } else {
        assert(srcs.take(k) =~= srcs);
    }
}

proof fn lemma_at_score(ws: Seq<Seq<char>>, ps: Seq<Seq<char>>, c: nat)
    ensures
        forall|k: int| 0 <= k < at_score(ws, ps, c).len() ==> point_score(ws, #[trigger] at_score(ws, ps, c)[k]) == c,
    decreases ps.len(),
{
    if ps.len() > 0 {
        lemma_at_score(ws, ps.drop_last(), c);
        let prev = at_score(ws, ps.drop_last(), c);
        if point_score(ws, ps.last()) == c {
            assert forall|k: int| 0 <= k < at_score(ws, ps, c).len() implies point_score(
                ws,
                #[trigger] at_score(ws, ps, c)[k],
            ) == c by {
                if k < prev.len() {
                    assert(at_score(ws, ps, c)[k] == prev[k]);
                }
            }
        }
    }
}

proof fn lemma_by_score(ws: Seq<Seq<char>>, ps: Seq<Seq<char>>, hi: int, lo: int)
    requires
        0 <= lo,
    ensures
        forall|k: int| 0 <= k < by_score(ws, ps, hi, lo).len() ==> point_score(ws, #[trigger] by_score(ws, ps, hi, lo)[k]) >= lo,
        forall|a: int, b: int|
            0 <= a < b < by_score(ws, ps, hi, lo).len() ==> point_score(ws, #[trigger] by_score(ws, ps, hi, lo)[a])
                >= point_score(ws, #[trigger] by_score(ws, ps, hi, lo)[b]),
    decreases hi - lo + 1,
{
    if lo <= hi {
        lemma_by_score(ws, ps, hi, lo + 1);
        lemma_at_score(ws, ps, lo as nat);
        let left = by_score(ws, ps, hi, lo + 1);
        let right = at_score(ws, ps, lo as nat);
        let all = by_score(ws, ps, hi, lo);
        assert(all == left + right);
        assert forall|k: int| 0 <= k < all.len() implies point_score(ws, #[trigger] all[k]) >= lo by {
            if k < left.len() {
                assert(all[k] == left[k]);
            } else {
                assert(all[k] == right[k - left.len()]);
            }
        }
        assert forall|a: int, b: int| 0 <= a < b < all.len() implies point_score(ws, #[trigger] all[a]) >= point_score(
            ws,
            #[trigger] all[b],
        ) by {
            if b < left.len() {
                assert(all[a] == left[a]);
                assert(all[b] == left[b]);
            } else if a < left.len() {
                assert(all[a] == left[a]);
                assert(all[b] == right[b - left.len()]);
            } else {
                assert(all[a] == right[a - left.len()]);
                assert(all[b] == right[b - left.len()]);
            }
        }
    }
}

/// The key points of an extraction come in order of how many query words they hold,
/// most first.
pub proof fn lemma_key_points_by_score(topic: Seq<char>, srcs: Seq<FetchedContent>)
    ensures
        ({
            let ws = query_words(topic);
            let ranked = ranked_points(ws, gathered_points(ws, srcs));
            let kp = ranked.take(if ranked.len() < 10 { ranked.len() as int } else { 10 });
            forall|a: int, b: int| 0 <= a < b < kp.len() ==> point_score(ws, #[trigger] kp[a]) >= point_score(ws, #[trigger] kp[b])
        }),
{
    let ws = query_words(topic);
    let ranked = ranked_points(ws, gathered_points(ws, srcs));
    lemma_by_score(ws, gathered_points(ws, srcs), ws.len() as int, 0);
    let kp = ranked.take(if ranked.len() < 10 { ranked.len() as int } else { 10 });
    assert forall|a: int, b: int| 0 <= a < b < kp.len() implies point_score(ws, #[trigger] kp[a]) >= point_score(ws, #[trigger] kp[b]) by {
        assert(kp[a] == ranked[a]);
        assert(kp[b] == ranked[b]);
    }
}

/// How many query words of `topic` the text `text` holds, lowercased, and how many
/// query words there are.
pub fn topic_word_hits(text: &str, topic: &str) -> (r: (usize, usize))
    ensures
        r.0 == mentions(query_words(topic@), lowercase(text@)),
        r.1 == query_words(topic@).len(),
{
    let lower = to_lowercase(topic);
    let tl = to_lowercase(text);
    topic_word_hits_lowered(tl.as_str(), lower.as_str())
}

/// How many words of an already lowercased topic an already lowercased text
/// holds, and how many words the topic has.
pub fn topic_word_hits_lowered(text_lower: &str, topic_lower: &str) -> (r: (usize, usize))
    ensures
        r.0 == mentions(words_of(topic_lower@), text_lower@),
        r.1 == words_of(topic_lower@).len(),
{
    let ws = split_words(topic_lower);
    (mentions_in(&ws, text_lower), ws.len())
}

} // verus!
