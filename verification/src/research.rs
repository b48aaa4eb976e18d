//! Autonomous research: source discovery, fetching, and report settings.
pub mod searcher;
pub mod reporter;
pub mod extractor;
pub mod knowledge;

use vstd::prelude::*;
use vstd::utf8::encode_utf8;
use crate::text::{chars_of, eq_str, lowercase, slice_string, split_words, to_lowercase, words_of};

verus! {

/// Name for what `char::is_alphanumeric` says of `c` (the Unicode `Alphabetic` or
/// `Numeric` property).
pub uninterp spec fn alphanumeric(c: char) -> bool;

/// `char::is_alphanumeric`; its answer is named by `alphanumeric`.
#[verifier::external_body]
pub(crate) fn is_alphanumeric(c: char) -> (b: bool)
    ensures
        b == alphanumeric(c),
{
    c.is_alphanumeric()
}

/// `s` without its leading characters that are not alphanumeric.
pub open spec fn strip_front_symbols(s: Seq<char>) -> Seq<char>
    decreases s.len(),
{
    if s.len() > 0 && !alphanumeric(s[0]) {
        strip_front_symbols(s.drop_first())
    } else {
        s
    }
}

/// `s` without its trailing characters that are not alphanumeric.
pub open spec fn strip_back_symbols(s: Seq<char>) -> Seq<char>
    decreases s.len(),
{
    if s.len() > 0 && !alphanumeric(s.last()) {
        strip_back_symbols(s.drop_last())
    } else {
        s
    }
}

/// `s` without symbols at either end, as `trim_matches(|c| !c.is_alphanumeric())`
/// gives it.
pub open spec fn strip_symbols(s: Seq<char>) -> Seq<char> {
    strip_back_symbols(strip_front_symbols(s))
}

/// The UTF-8 length of `s`, as `len` reports it.
pub open spec fn byte_len(s: Seq<char>) -> usize {
    encode_utf8(s).len() as usize
}

/// The topic's words longer than three bytes, lowercased.
pub open spec fn topic_tags(ws: Seq<Seq<char>>) -> Seq<Seq<char>>
    decreases ws.len(),
{
    if ws.len() == 0 {
        Seq::empty()
    } else if byte_len(ws.last()) > 3 {
        topic_tags(ws.drop_last()).push(lowercase(ws.last()))
    } else {
        topic_tags(ws.drop_last())
    }
}

/// `tags` extended with each word of `ws`, stripped of symbols and lowercased, that
/// is longer than four bytes and not yet a tag.
pub open spec fn add_words(tags: Seq<Seq<char>>, ws: Seq<Seq<char>>) -> Seq<Seq<char>>
    decreases ws.len(),
{
    if ws.len() == 0 {
        tags
    } else {
        let t = add_words(tags, ws.drop_last());
        let w = lowercase(strip_symbols(ws.last()));
        if byte_len(w) > 4 && !t.contains(w) {
            t.push(w)
        } else {
            t
        }
    }
}

/// `tags` extended with the words of each point of `ps`, in order.
pub open spec fn add_points(tags: Seq<Seq<char>>, ps: Seq<Seq<char>>) -> Seq<Seq<char>>
    decreases ps.len(),
{
    if ps.len() == 0 {
        tags
    } else {
        add_words(add_points(tags, ps.drop_last()), words_of(ps.last()))
    }
}

/// The tags of a research result: the topic's longer words, then new words from the
/// first five key points, at most ten in all.
pub open spec fn tags_of(topic: Seq<char>, points: Seq<Seq<char>>) -> Seq<Seq<char>> {
    let t = add_points(topic_tags(words_of(topic)), points.take(if points.len() < 5 {
        points.len() as int
    } else {
        5
    }));
    if t.len() <= 10 {
        t
    } else {
        t.take(10)
    }
}

/// `s` without symbols at either end (see `strip_symbols`).
pub(crate) fn strip_symbols_of(s: &str) -> (r: String)
    ensures
        r@ == strip_symbols(s@),
{
    let v = chars_of(s);
    let n = v.len();
    let mut i: usize = 0;
    assert(v@.subrange(0, n as int) =~= v@);
    while i < n && !is_alphanumeric(v[i])
        invariant
            i <= n,
            n == v.len(),
            strip_front_symbols(v@) == strip_front_symbols(v@.subrange(i as int, n as int)),
        decreases n - i,
    {
        assert(v@.subrange(i as int, n as int).drop_first() =~= v@.subrange(i + 1, n as int));
        i = i + 1;
    }
    let ghost f = v@.subrange(i as int, n as int);
    assert(strip_front_symbols(f) == f);
    let mut j: usize = n;
    while j > i && !is_alphanumeric(v[j - 1])
        invariant
            i <= j <= n,
            n == v.len(),
            f == v@.subrange(i as int, n as int),
            strip_back_symbols(f) == strip_back_symbols(v@.subrange(i as int, j as int)),
        decreases j - i,
    {
        assert(v@.subrange(i as int, j as int).drop_last() =~= v@.subrange(i as int, j - 1));
        j = j - 1;
    }
    assert(strip_back_symbols(v@.subrange(i as int, j as int)) == v@.subrange(i as int, j as int));
    slice_string(&v, i, j)
}

/// Whether some tag reads `w`.
fn has_tag(tags: &Vec<String>, w: &str) -> (b: bool)
    ensures
        b == tags@.map_values(|x: String| x@).contains(w@),
{
    let ghost tv = tags@.map_values(|x: String| x@);
    let mut i: usize = 0;
    while i < tags.len()
        invariant
            i <= tags.len(),
            tv == tags@.map_values(|x: String| x@),
            forall|j: int| 0 <= j < i ==> tv[j] != w@,
        decreases tags.len() - i,
    {
        if eq_str(tags[i].as_str(), w) {
            assert(tv[i as int] == w@);
            return true;
        }
        i = i + 1;
    }
    false
}

/// The tags of a research result on `topic` with `key_points` (see `tags_of`).
pub fn extract_tags(topic: &str, key_points: &Vec<String>) -> (tags: Vec<String>)
    ensures
        tags@.map_values(|x: String| x@) == tags_of(topic@, key_points@.map_values(|x: String| x@)),
{
    let tw = split_words(topic);
    let ghost twv = tw@.map_values(|x: String| x@);
    let mut tags: Vec<String> = Vec::new();
    let mut i: usize = 0;
    while i < tw.len()
        invariant
            i <= tw.len(),
            twv == tw@.map_values(|x: String| x@),
            tags@.map_values(|x: String| x@) == topic_tags(twv.take(i as int)),
        decreases tw.len() - i,
    {
        assert(twv.take(i + 1).drop_last() =~= twv.take(i as int));
        assert(twv.take(i + 1).last() == tw@[i as int]@);
        if tw[i].as_str().len() > 3 {
            let ghost before = tags@.map_values(|x: String| x@);
            tags.push(to_lowercase(tw[i].as_str()));
            assert(tags@.map_values(|x: String| x@) =~= before.push(lowercase(tw@[i as int]@)));
        }
        i = i + 1;
    }
    assert(twv.take(tw.len() as int) =~= twv);
    let ghost pv = key_points@.map_values(|x: String| x@);
    let limit: usize = if key_points.len() < 5 {
        key_points.len()
    } else {
        5
    };
    let ghost start = tags@.map_values(|x: String| x@);
    let mut p: usize = 0;
    while p < limit
        invariant
            p <= limit <= key_points.len(),
            limit == (if key_points.len() < 5 {
                key_points.len()
            } else {
                5
            }),
            pv == key_points@.map_values(|x: String| x@),
            start == topic_tags(twv),
            tags@.map_values(|x: String| x@) == add_points(start, pv.take(p as int)),
        decreases limit - p,
    {
        let ws = split_words(key_points[p].as_str());
        let ghost wv = ws@.map_values(|x: String| x@);
        let ghost base = tags@.map_values(|x: String| x@);
        let mut k: usize = 0;
        while k < ws.len()
            invariant
                k <= ws.len(),
                wv == ws@.map_values(|x: String| x@),
                tags@.map_values(|x: String| x@) == add_words(base, wv.take(k as int)),
            decreases ws.len() - k,
        {
            assert(wv.take(k + 1).drop_last() =~= wv.take(k as int));
            assert(wv.take(k + 1).last() == ws@[k as int]@);
            let stripped = strip_symbols_of(ws[k].as_str());
            let w = to_lowercase(stripped.as_str());
            if w.as_str().len() > 4 && !has_tag(&tags, w.as_str()) {
                let ghost before = tags@.map_values(|x: String| x@);
                tags.push(w);
                assert(tags@.map_values(|x: String| x@) =~= before.push(lowercase(strip_symbols(ws@[k as int]@))));
            }
            k = k + 1;
        }
        assert(wv.take(ws.len() as int) =~= wv);
        assert(pv.take(p + 1).drop_last() =~= pv.take(p as int));
        assert(pv.take(p + 1).last() == key_points@[p as int]@);
        p = p + 1;
    }
    if tags.len() > 10 {
        tags.truncate(10);
        assert(tags@.map_values(|x: String| x@) =~= add_points(start, pv.take(limit as int)).take(10));
    }
    tags
}

} // verus!
