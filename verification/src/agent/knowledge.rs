//! The knowledge base's text handling: cutting documents into chunks, naming and
//! indexing chunks by keyword, and matching documents against a query.
use vstd::prelude::*;
use vstd::string::StringSliceAdditionalSpecFns;
use crate::keyed::{find_key, lemma_find_key_scan};
use crate::research::{alphanumeric, byte_len, is_alphanumeric};
use crate::text::{
    chars_of, contains_str, dec, eq_str, has_sub, lowercase, push_char, push_dec, push_str, split_words,
    to_lowercase, words_of,
};
use vstd::utf8::{encode_utf8, encode_utf8_valid_utf8, is_char_boundary, length_of_first_scalar, pop_first_scalar, valid_utf8};

verus! {

/// How documents are cut into chunks.
#[derive(Debug, Clone, Copy)]
pub struct KnowledgeConfig {
    pub chunk_size: usize,
    pub chunk_overlap: usize,
    pub max_chunks_per_doc: usize,
}

impl Default for KnowledgeConfig {
    fn default() -> (c: Self)
        ensures
            c.chunk_size == 512,
            c.chunk_overlap == 64,
            c.max_chunks_per_doc == 100,
    {
        KnowledgeConfig { chunk_size: 512, chunk_overlap: 64, max_chunks_per_doc: 100 }
    }
}

/// `a - b`, or 0 when `b` is at least `a`.
pub open spec fn sat_sub(a: int, b: int) -> int {
    if a > b {
        a - b
    } else {
        0
    }
}

/// The last position `i` with `lo <= i` and `i + pat.len() <= hi` at which `b`
/// holds `pat`.
pub open spec fn last_match(b: Seq<u8>, lo: int, hi: int, pat: Seq<u8>) -> Option<int>
    decreases hi - lo,
{
    if pat.len() == 0 || hi - lo < pat.len() {
        None
    } else if b.subrange(hi - pat.len(), hi) == pat {
        Some(hi - pat.len())
    } else {
        last_match(b, lo, hi - 1, pat)
    }
}

/// Where a chunk that would end at byte `end` is cut: at the last line break of
/// the 100 bytes before `end`, else just after the last ". " there, else at `end`
/// (always at `end` when that is the end of the text).
pub open spec fn break_at(b: Seq<u8>, end: int) -> int {
    if end < b.len() {
        let w = sat_sub(end, 100);
        match last_match(b, w, end, seq![10u8]) {
            Some(p) => p,
            None => match last_match(b, w, end, seq![46u8, 32u8]) {
                Some(p) => p + 1,
                None => end,
            },
        }
    } else {
        end
    }
}

/// Where the chunk starting at byte `start` would end before a cut.
pub open spec fn chunk_end(b: Seq<u8>, start: int, size: int) -> int {
    if start + size < b.len() {
        start + size
    } else {
        b.len() as int
    }
}

/// The byte spans of the chunks from `start` on, the `count`-th chunk first.
pub open spec fn chunk_spans(b: Seq<u8>, c: KnowledgeConfig, start: int, count: int) -> Seq<(int, int)>
    decreases c.max_chunks_per_doc - count,
{
    if start >= b.len() || count >= c.max_chunks_per_doc {
        Seq::empty()
    } else {
        let brk = break_at(b, chunk_end(b, start, c.chunk_size as int));
        seq![(start, brk)] + chunk_spans(b, c, sat_sub(brk, c.chunk_overlap as int), count + 1)
    }
}

/// Every span from `start` on runs forward between character boundaries, and every
/// window searched for a cut begins and ends on one.
pub open spec fn spans_on_boundaries(b: Seq<u8>, c: KnowledgeConfig, start: int, count: int) -> bool
    decreases c.max_chunks_per_doc - count,
{
    if start >= b.len() || count >= c.max_chunks_per_doc {
        true
    } else {
        let end = chunk_end(b, start, c.chunk_size as int);
        let brk = break_at(b, end);
        &&& (end < b.len() ==> is_char_boundary(b, sat_sub(end, 100)) && is_char_boundary(b, end))
        &&& 0 <= start <= brk
        &&& is_char_boundary(b, start)
        &&& is_char_boundary(b, brk)
        &&& spans_on_boundaries(b, c, sat_sub(brk, c.chunk_overlap as int), count + 1)
    }
}

/// The byte spans a text with UTF-8 bytes `b` is cut into: the whole text when it
/// fits in one chunk.
pub open spec fn chunk_plan(b: Seq<u8>, c: KnowledgeConfig) -> Seq<(int, int)> {
    if b.len() <= c.chunk_size {
        seq![(0int, b.len() as int)]
    } else {
        chunk_spans(b, c, 0, 0)
    }
}

/// Cutting a text with UTF-8 bytes `b` slices it on character boundaries only.
pub open spec fn chunkable(b: Seq<u8>, c: KnowledgeConfig) -> bool {
    b.len() <= c.chunk_size || spans_on_boundaries(b, c, 0, 0)
}

proof fn lemma_last_match_bounds(b: Seq<u8>, lo: int, hi: int, pat: Seq<u8>)
    ensures
        last_match(b, lo, hi, pat) matches Some(p) ==> lo <= p && p + pat.len() <= hi,
    decreases hi - lo,
{
    if !(pat.len() == 0 || hi - lo < pat.len()) && b.subrange(hi - pat.len(), hi) != pat {
        lemma_last_match_bounds(b, lo, hi - 1, pat);
    }
}

proof fn lemma_break_at_bounds(b: Seq<u8>, end: int)
    ensures
        break_at(b, end) <= end,
{
    let w = sat_sub(end, 100);
    lemma_last_match_bounds(b, w, end, seq![10u8]);
    lemma_last_match_bounds(b, w, end, seq![46u8, 32u8]);
}

proof fn lemma_spans_bounded(b: Seq<u8>, c: KnowledgeConfig, start: int, count: int)
    requires
        spans_on_boundaries(b, c, start, count),
        0 <= start,
    ensures
        chunk_spans(b, c, start, count).len() <= if count < c.max_chunks_per_doc {
            c.max_chunks_per_doc - count
        } else {
            0
        },
        forall|k: int| 0 <= k < chunk_spans(b, c, start, count).len() ==> {
            let s = #[trigger] chunk_spans(b, c, start, count)[k];
            0 <= s.0 <= s.1 <= b.len() && s.1 - s.0 <= c.chunk_size
        },
    decreases c.max_chunks_per_doc - count,
{
    if !(start >= b.len() || count >= c.max_chunks_per_doc) {
        let end = chunk_end(b, start, c.chunk_size as int);
        let brk = break_at(b, end);
        let next = sat_sub(brk, c.chunk_overlap as int);
        lemma_break_at_bounds(b, end);
        lemma_spans_bounded(b, c, next, count + 1);
        let rest = chunk_spans(b, c, next, count + 1);
        assert(chunk_spans(b, c, start, count) == seq![(start, brk)] + rest);
        assert forall|k: int| 0 <= k < chunk_spans(b, c, start, count).len() implies {
            let s = #[trigger] chunk_spans(b, c, start, count)[k];
            0 <= s.0 <= s.1 <= b.len() && s.1 - s.0 <= c.chunk_size
        } by {
            if k > 0 {
                assert(chunk_spans(b, c, start, count)[k] == rest[k - 1]);
            }
        }
    }
}

/// No chunk is longer than `chunk_size` bytes and chunks lie inside the text, in a
/// text that can be cut; a text longer than one chunk gives at most
/// `max_chunks_per_doc` chunks.
pub proof fn lemma_chunks_fit(b: Seq<u8>, c: KnowledgeConfig)
    requires
        chunkable(b, c),
    ensures
        forall|k: int| 0 <= k < chunk_plan(b, c).len() ==> {
            let s = #[trigger] chunk_plan(b, c)[k];
            0 <= s.0 <= s.1 <= b.len() && s.1 - s.0 <= c.chunk_size
        },
        b.len() > c.chunk_size ==> chunk_plan(b, c).len() <= c.max_chunks_per_doc,
        b.len() <= c.chunk_size ==> chunk_plan(b, c).len() == 1,
{
    if b.len() > c.chunk_size {
        lemma_spans_bounded(b, c, 0, 0);
    }
}

proof fn lemma_boundary_suffix(b: Seq<u8>, s: int, x: int)
    requires
        valid_utf8(b),
        is_char_boundary(b, s),
        is_char_boundary(b, x),
        0 <= s <= x,
    ensures
        valid_utf8(b.subrange(s, b.len() as int)),
        is_char_boundary(b.subrange(s, b.len() as int), x - s),
    decreases b.len(),
{
    if s == 0 {
        assert(b.subrange(0, b.len() as int) =~= b);
    } else {
        let l = length_of_first_scalar(b);
        let p = pop_first_scalar(b);
        assert(b.len() > 0);
        assert(valid_utf8(p));
        assert(is_char_boundary(p, s - l));
        assert(is_char_boundary(p, x - l));
        assert(s - l >= 0);
        lemma_boundary_suffix(p, s - l, x - l);
        assert(p.subrange(s - l, p.len() as int) =~= b.subrange(s, b.len() as int));
    }
}

/// The last position in `lo..hi` of byte `x`.
fn last_byte(b: &[u8], lo: usize, hi: usize, x: u8) -> (r: Option<usize>)
    requires
        lo <= hi <= b@.len(),
    ensures
        r matches Some(p) ==> last_match(b@, lo as int, hi as int, seq![x]) == Some(p as int),
        r is None ==> last_match(b@, lo as int, hi as int, seq![x]) is None,
{
    let mut h = hi;
    while h > lo
        invariant
            lo <= h <= hi <= b@.len(),
            last_match(b@, lo as int, hi as int, seq![x]) == last_match(b@, lo as int, h as int, seq![x]),
        decreases h,
    {
        if b[h - 1] == x {
            assert(b@.subrange(h - 1, h as int) =~= seq![x]);
            return Some(h - 1);
        }
        assert(b@.subrange(h - 1, h as int)[0] == b@[h - 1]);
        h = h - 1;
    }
    None
}

/// The last position in `lo..hi` where the bytes of ". " begin.
fn last_period_space(b: &[u8], lo: usize, hi: usize) -> (r: Option<usize>)
    requires
        lo <= hi <= b@.len(),
    ensures
        r matches Some(p) ==> last_match(b@, lo as int, hi as int, seq![46u8, 32u8]) == Some(p as int) && p + 2 <= hi,
        r is None ==> last_match(b@, lo as int, hi as int, seq![46u8, 32u8]) is None,
{
    let mut h = hi;
    while h - lo >= 2
        invariant
            lo <= h <= hi <= b@.len(),
            last_match(b@, lo as int, hi as int, seq![46u8, 32u8]) == last_match(b@, lo as int, h as int, seq![46u8, 32u8]),
        decreases h,
    {
        if b[h - 2] == 46 && b[h - 1] == 32 {
            assert(b@.subrange(h - 2, h as int) =~= seq![46u8, 32u8]);
            return Some(h - 2);
        }
        assert(b@.subrange(h - 2, h as int)[0] == b@[h - 2]);
        assert(b@.subrange(h - 2, h as int)[1] == b@[h - 1]);
        h = h - 1;
    }
    None
}

/// Where a chunk that would end at `end` is cut (see `break_at`).
fn cut_position(b: &[u8], end: usize) -> (r: usize)
    requires
        end <= b@.len(),
    ensures
        r == break_at(b@, end as int),
{
    if end < b.len() {
        let w = if end > 100 {
            end - 100
        } else {
            0
        };
        match last_byte(b, w, end, 10u8) {
            Some(p) => p,
            None => match last_period_space(b, w, end) {
                Some(p) => p + 1,
                None => end,
            },
        }
    } else {
        end
    }
}

/// Splits `text` into chunks of about `config.chunk_size` bytes, each cut at a line
/// break or after a sentence where one lies in the last 100 bytes, consecutive chunks
/// overlapping by `config.chunk_overlap` bytes, at most `config.max_chunks_per_doc` of
/// them; a text that fits in one chunk is kept whole.
pub fn chunk_text(text: &str, config: &KnowledgeConfig) -> (chunks: Vec<String>)
    requires
        chunkable(text.spec_bytes(), *config),
    ensures
        chunks@.len() == chunk_plan(text.spec_bytes(), *config).len(),
        forall|k: int| 0 <= k < chunks@.len() ==> encode_utf8((#[trigger] chunks@[k])@) == text.spec_bytes().subrange(
            chunk_plan(text.spec_bytes(), *config)[k].0,
            chunk_plan(text.spec_bytes(), *config)[k].1,
        ),
{
    let b = text.as_bytes();
    let n = b.len();
    proof {
        encode_utf8_valid_utf8(text@);
    }
    if n <= config.chunk_size {
        let mut one: Vec<String> = Vec::new();
        one.push(text.to_owned());
        assert(text.spec_bytes().subrange(0, n as int) =~= text.spec_bytes());
        return one;
    }
    let ghost c = *config;
    let ghost whole = chunk_spans(b@, c, 0, 0);
    let ghost mut done: Seq<(int, int)> = Seq::empty();
    let mut chunks: Vec<String> = Vec::new();
    let mut start: usize = 0;
    while start < n && chunks.len() < config.max_chunks_per_doc
        invariant
            b@ == text.spec_bytes(),
            n == b@.len(),
            valid_utf8(b@),
            c == *config,
            chunks@.len() == done.len(),
            chunks@.len() <= c.max_chunks_per_doc,
            whole == done + chunk_spans(b@, c, start as int, chunks@.len() as int),
            spans_on_boundaries(b@, c, start as int, chunks@.len() as int),
            forall|k: int| 0 <= k < chunks@.len() ==> encode_utf8((#[trigger] chunks@[k])@) == b@.subrange(done[k].0, done[k].1),
        decreases c.max_chunks_per_doc - chunks@.len(),
    {
        let end = if config.chunk_size < n - start {
            start + config.chunk_size
        } else {
            n
        };
        let brk = cut_position(b, end);
        let ghost count = chunks@.len() as int;
        proof {
            lemma_boundary_suffix(b@, start as int, brk as int);
        }
        let (_front, rest) = text.split_at(start);
        assert(rest.spec_bytes() =~= b@.subrange(start as int, n as int));
        let (piece, _back) = rest.split_at(brk - start);
        assert(piece.spec_bytes() =~= b@.subrange(start as int, brk as int));
        let ghost before = chunks@;
        chunks.push(piece.to_owned());
        proof {
            let next = sat_sub(brk as int, c.chunk_overlap as int);
            assert(chunk_spans(b@, c, start as int, count) == seq![(start as int, brk as int)] + chunk_spans(b@, c, next, count + 1));
            assert(done.push((start as int, brk as int)) + chunk_spans(b@, c, next, count + 1) =~= done + (seq![(start as int, brk as int)] + chunk_spans(b@, c, next, count + 1)));
            done = done.push((start as int, brk as int));
            assert forall|k: int| 0 <= k < chunks@.len() implies encode_utf8((#[trigger] chunks@[k])@) == b@.subrange(done[k].0, done[k].1) by {
                if k < before.len() {
                    assert(chunks@[k] == before[k]);
                }
            }
        }
        start = if brk > config.chunk_overlap {
            brk - config.chunk_overlap
        } else {
            0
        };
    }
    assert(whole =~= done);
    chunks
}

/// Whether cutting `text` slices it on character boundaries only (see `chunkable`).
pub fn is_chunkable(text: &str, config: &KnowledgeConfig) -> (ok: bool)
    ensures
        ok == chunkable(text.spec_bytes(), *config),
{
    let b = text.as_bytes();
    let n = b.len();
    if n <= config.chunk_size {
        return true;
    }
    let ghost c = *config;
    let mut start: usize = 0;
    let mut count: usize = 0;
    while start < n && count < config.max_chunks_per_doc
        invariant
            b@ == text.spec_bytes(),
            n == b@.len(),
            c == *config,
            count <= c.max_chunks_per_doc,
            n > c.chunk_size,
            spans_on_boundaries(b@, c, 0, 0) == spans_on_boundaries(b@, c, start as int, count as int),
        decreases c.max_chunks_per_doc - count,
    {
        let end = if config.chunk_size < n - start {
            start + config.chunk_size
        } else {
            n
        };
        let brk = cut_position(b, end);
        let w = if end > 100 {
            end - 100
        } else {
            0
        };
        if end < n && !(text.is_char_boundary(w) && text.is_char_boundary(end)) {
            return false;
        }
        if !(start <= brk && text.is_char_boundary(start) && text.is_char_boundary(brk)) {
            return false;
        }
        start = if brk > config.chunk_overlap {
            brk - config.chunk_overlap
        } else {
            0
        };
        count = count + 1;
    }
    true
}

/// The chunks of `text` (see `chunk_text`), or `None` when cutting it would slice
/// inside a character.
pub fn try_chunk_text(text: &str, config: &KnowledgeConfig) -> (r: Option<Vec<String>>)
    ensures
        r is None <==> !chunkable(text.spec_bytes(), *config),
        r matches Some(chunks) ==> chunks@.len() == chunk_plan(text.spec_bytes(), *config).len() && forall|k: int|
            0 <= k < chunks@.len() ==> encode_utf8((#[trigger] chunks@[k])@) == text.spec_bytes().subrange(
                chunk_plan(text.spec_bytes(), *config)[k].0,
                chunk_plan(text.spec_bytes(), *config)[k].1,
            ),
{
    if is_chunkable(text, config) {
        Some(chunk_text(text, config))
    } else {
        None
    }
}

/// The alphanumeric characters of `s`, in order.
pub open spec fn alnum_chars(s: Seq<char>) -> Seq<char>
    decreases s.len(),
{
    if s.len() == 0 {
        Seq::empty()
    } else if alphanumeric(s.last()) {
        alnum_chars(s.drop_last()).push(s.last())
    } else {
        alnum_chars(s.drop_last())
    }
}

/// The alphanumeric characters of `s` (see `alnum_chars`).
fn alnum_of(s: &str) -> (r: String)
    ensures
        r@ == alnum_chars(s@),
{
    let v = chars_of(s);
    let mut r = String::new();
    let mut i: usize = 0;
    while i < v.len()
        invariant
            i <= v.len(),
            v@ == s@,
            r@ == alnum_chars(v@.take(i as int)),
        decreases v.len() - i,
    {
        assert(v@.take(i + 1).drop_last() =~= v@.take(i as int));
        if is_alphanumeric(v[i]) {
            push_char(&mut r, v[i]);
        }
        i = i + 1;
    }
    assert(v@.take(i as int) =~= v@);
    r
}

/// The name of the `i`-th chunk learnt from `source`: "kb-", the first sixteen
/// alphanumeric characters of `source`, "-" and `i`.
pub open spec fn chunk_id_text(source: Seq<char>, i: nat) -> Seq<char> {
    let a = alnum_chars(source);
    "kb-"@ + (if a.len() <= 16 {
        a
    } else {
        a.take(16)
    }) + "-"@ + dec(i)
}

/// The name of the `i`-th chunk learnt from `source` (see `chunk_id_text`).
pub fn chunk_id(source: &str, i: usize) -> (id: String)
    ensures
        id@ == chunk_id_text(source@, i as nat),
{
    let a = chars_of(alnum_of(source).as_str());
    let mut id = String::new();
    push_str(&mut id, "kb-");
    let mut k: usize = 0;
    while k < a.len() && k < 16
        invariant
            k <= a.len(),
            k <= 16,
            id@ == "kb-"@ + a@.take(k as int),
        decreases a.len() - k,
    {
        push_char(&mut id, a[k]);
        assert(a@.take(k + 1) =~= a@.take(k as int).push(a@[k as int]));
        k = k + 1;
    }
    assert(a@.len() <= 16 ==> a@.take(k as int) =~= a@);
    push_str(&mut id, "-");
    push_dec(&mut id, i as u64);
    id
}

/// The index terms of a chunk with words `ws`: each word's alphanumeric characters,
/// lowercased, where there are more than two bytes of them.
pub open spec fn chunk_terms(ws: Seq<Seq<char>>) -> Seq<Seq<char>>
    decreases ws.len(),
{
    if ws.len() == 0 {
        Seq::empty()
    } else {
        let t = chunk_terms(ws.drop_last());
        let clean = alnum_chars(ws.last());
        if byte_len(clean) > 2 {
            t.push(lowercase(clean))
        } else {
            t
        }
    }
}

/// The terms of a query whose lowercased words are `ws`: each word's alphanumeric
/// characters, where there are more than two bytes of them.
pub open spec fn query_terms_of(ws: Seq<Seq<char>>) -> Seq<Seq<char>>
    decreases ws.len(),
{
    if ws.len() == 0 {
        Seq::empty()
    } else {
        let t = query_terms_of(ws.drop_last());
        let clean = alnum_chars(ws.last());
        if byte_len(clean) > 2 {
            t.push(clean)
        } else {
            t
        }
    }
}

/// The index terms of a chunk's text (see `chunk_terms`).
pub fn terms_of_chunk(text: &str) -> (ts: Vec<String>)
    ensures
        ts@.map_values(|x: String| x@) == chunk_terms(words_of(text@)),
{
    let ws = split_words(text);
    let ghost wv = ws@.map_values(|x: String| x@);
    let mut ts: Vec<String> = Vec::new();
    let mut i: usize = 0;
    while i < ws.len()
        invariant
            i <= ws.len(),
            wv == ws@.map_values(|x: String| x@),
            wv == words_of(text@),
            ts@.map_values(|x: String| x@) == chunk_terms(wv.take(i as int)),
        decreases ws.len() - i,
    {
        assert(wv.take(i + 1).drop_last() =~= wv.take(i as int));
        assert(wv.take(i + 1).last() == ws@[i as int]@);
        let clean = alnum_of(ws[i].as_str());
        if clean.as_str().len() > 2 {
            let t = to_lowercase(clean.as_str());
            ts.push(t);
        }
        assert(ts@.map_values(|x: String| x@) =~= chunk_terms(wv.take(i + 1)));
        i = i + 1;
    }
    assert(wv.take(i as int) =~= wv);
    ts
}

/// The terms of a query (see `query_terms_of`), taken from its lowercased words.
pub fn query_terms(query: &str) -> (ts: Vec<String>)
    ensures
        ts@.map_values(|x: String| x@) == query_terms_of(words_of(lowercase(query@))),
{
    let lower = to_lowercase(query);
    query_terms_lowered(lower.as_str())
}

/// The terms of an already lowercased query (see `query_terms_of`).
pub fn query_terms_lowered(lower: &str) -> (ts: Vec<String>)
    ensures
        ts@.map_values(|x: String| x@) == query_terms_of(words_of(lower@)),
{
    let ws = split_words(lower);
    let ghost wv = ws@.map_values(|x: String| x@);
    let mut ts: Vec<String> = Vec::new();
    let mut i: usize = 0;
    while i < ws.len()
        invariant
            i <= ws.len(),
            wv == ws@.map_values(|x: String| x@),
            wv == words_of(lower@),
            ts@.map_values(|x: String| x@) == query_terms_of(wv.take(i as int)),
        decreases ws.len() - i,
    {
        assert(wv.take(i + 1).drop_last() =~= wv.take(i as int));
        assert(wv.take(i + 1).last() == ws@[i as int]@);
        let clean = alnum_of(ws[i].as_str());
        if clean.as_str().len() > 2 {
            ts.push(clean);
        }
        assert(ts@.map_values(|x: String| x@) =~= query_terms_of(wv.take(i + 1)));
        i = i + 1;
    }
    assert(wv.take(i as int) =~= wv);
    ts
}

/// The position of the first entry of `v` keyed `k`, or -1.
pub open spec fn key_pos(v: Seq<(Seq<char>, Seq<usize>)>, k: Seq<char>) -> int
    decreases v.len(),
{
    if v.len() == 0 {
        -1
    } else if v[0].0 == k {
        0
    } else {
        let r = key_pos(v.drop_first(), k);
        if r < 0 {
            -1
        } else {
            r + 1
        }
    }
}

/// `v` with chunk `i` added under term `k`: appended to the term's list, or a new
/// entry for a new term.
pub open spec fn index_add(v: Seq<(Seq<char>, Seq<usize>)>, k: Seq<char>, i: usize) -> Seq<(Seq<char>, Seq<usize>)> {
    let p = key_pos(v, k);
    if p >= 0 {
        v.update(p, (k, v[p].1.push(i)))
    } else {
        v.push((k, seq![i]))
    }
}

/// `v` with chunk `i` added under each of `terms`, in order.
pub open spec fn index_all(v: Seq<(Seq<char>, Seq<usize>)>, terms: Seq<Seq<char>>, i: usize) -> Seq<(Seq<char>, Seq<usize>)>
    decreases terms.len(),
{
    if terms.len() == 0 {
        v
    } else {
        index_add(index_all(v, terms.drop_last(), i), terms.last(), i)
    }
}

proof fn lemma_key_pos(v: Seq<(Seq<char>, Seq<usize>)>, k: Seq<char>, p: int)
    requires
        0 <= p <= v.len(),
        forall|j: int| 0 <= j < p ==> v[j].0 != k,
    ensures
        p == v.len() ==> key_pos(v, k) == -1,
        p < v.len() && v[p].0 == k ==> key_pos(v, k) == p,
        key_pos(v, k) == -1 || (0 <= key_pos(v, k) < v.len() && v[key_pos(v, k)].0 == k),
    decreases p,
{
    if p > 0 {
        lemma_key_pos(v.drop_first(), k, p - 1);
    } else if v.len() > 0 {
        if v[0].0 != k {
            lemma_key_pos_range(v.drop_first(), k);
        }
    }
}

proof fn lemma_key_pos_range(v: Seq<(Seq<char>, Seq<usize>)>, k: Seq<char>)
    ensures
        key_pos(v, k) == -1 || (0 <= key_pos(v, k) < v.len() && v[key_pos(v, k)].0 == k),
    decreases v.len(),
{
    if v.len() > 0 && v[0].0 != k {
        lemma_key_pos_range(v.drop_first(), k);
    }
}

/// Adding a term to the index appends the chunk to what the term finds and changes
/// nothing that any other term finds.
pub proof fn lemma_index_add_then_find(v: Seq<(Seq<char>, Seq<usize>)>, k: Seq<char>, i: usize, q: Seq<char>)
    ensures
        find_key(index_add(v, k, i), q) == if q == k {
            Some(
                match find_key(v, k) {
                    Some(l) => l,
                    None => Seq::<usize>::empty(),
                }.push(i),
            )
        } else {
            find_key(v, q)
        },
    decreases v.len(),
{
    lemma_key_pos_range(v, k);
    let p = key_pos(v, k);
    if v.len() == 0 {
        assert(index_add(v, k, i).drop_first() =~= v);
    } else if v[0].0 == k {
        assert(index_add(v, k, i).drop_first() =~= v.drop_first());
    } else {
        lemma_index_add_then_find(v.drop_first(), k, i, q);
        lemma_key_pos_range(v.drop_first(), k);
        if p >= 0 {
            assert(index_add(v, k, i).drop_first() =~= index_add(v.drop_first(), k, i));
        } else {
            assert(index_add(v, k, i).drop_first() =~= index_add(v.drop_first(), k, i));
        }
    }
}

/// The keyword index: for each term, the positions of the chunks it was found in,
/// in the order they were added.
pub struct KeywordIndex {
    entries: Vec<(String, Vec<usize>)>,
}

impl KeywordIndex {
    /// The index as terms and their chunk positions, in the order terms were first met.
    pub closed spec fn view(&self) -> Seq<(Seq<char>, Seq<usize>)> {
        self.entries@.map_values(|e: (String, Vec<usize>)| (e.0@, e.1@))
    }

    /// An empty index.
    pub fn new() -> (ix: Self)
        ensures
            ix.view() == Seq::<(Seq<char>, Seq<usize>)>::empty(),
    {
        let ix = KeywordIndex { entries: Vec::new() };
        assert(ix.view() =~= Seq::<(Seq<char>, Seq<usize>)>::empty());
        ix
    }

    /// The chunk positions under `term`, if it is indexed.
    pub fn get(&self, term: &str) -> (r: Option<Vec<usize>>)
        ensures
            match r {
                Some(l) => find_key(self.view(), term@) == Some(l@),
                None => find_key(self.view(), term@) is None,
            },
    {
        let ghost v = self.view();
        let mut j: usize = 0;
        while j < self.entries.len()
            invariant
                j <= self.entries.len(),
                v == self.view(),
                v.len() == self.entries@.len(),
                forall|m: int| 0 <= m < j ==> v[m].0 != term@,
            decreases self.entries.len() - j,
        {
            assert(v[j as int] == (self.entries@[j as int].0@, self.entries@[j as int].1@));
            if eq_str(self.entries[j].0.as_str(), term) {
                proof {
                    lemma_find_key_scan(v, term@, j as int);
                }
                return Some(self.entries[j].1.clone());
            }
            j = j + 1;
        }
        proof {
            lemma_find_key_scan(v, term@, j as int);
        }
        None
    }

    /// Adds chunk `i` under `term`.
    pub fn add(&mut self, term: &str, i: usize)
        ensures
            final(self).view() == index_add(old(self).view(), term@, i),
    {
        let ghost v = self.view();
        let mut j: usize = 0;
        while j < self.entries.len()
            invariant
                j <= self.entries.len(),
                v == self.view(),
                v == old(self).view(),
                v.len() == self.entries@.len(),
                forall|m: int| 0 <= m < j ==> v[m].0 != term@,
            decreases self.entries.len() - j,
        {
            assert(v[j as int] == (self.entries@[j as int].0@, self.entries@[j as int].1@));
            if eq_str(self.entries[j].0.as_str(), term) {
                proof {
                    lemma_key_pos(v, term@, j as int);
                }
                let mut list = self.entries[j].1.clone();
                list.push(i);
                self.entries.set(j, (term.to_owned(), list));
                assert(self.view() =~= index_add(v, term@, i));
                return;
            }
            j = j + 1;
        }
        proof {
            lemma_key_pos(v, term@, j as int);
        }
        let mut list: Vec<usize> = Vec::new();
        list.push(i);
        self.entries.push((term.to_owned(), list));
        assert(list@ =~= seq![i]);
        assert(self.view() =~= index_add(v, term@, i));
    }

    /// Adds chunk `i` under each index term of `text` (see `chunk_terms`).
    pub fn index_chunk(&mut self, text: &str, i: usize)
        ensures
            final(self).view() == index_all(old(self).view(), chunk_terms(words_of(text@)), i),
    {
        let ts = terms_of_chunk(text);
        let ghost tv = ts@.map_values(|x: String| x@);
        let ghost v0 = self.view();
        let mut k: usize = 0;
        while k < ts.len()
            invariant
                k <= ts.len(),
                tv == ts@.map_values(|x: String| x@),
                self.view() == index_all(v0, tv.take(k as int), i),
            decreases ts.len() - k,
        {
            assert(tv.take(k + 1).drop_last() =~= tv.take(k as int));
            assert(tv.take(k + 1).last() == ts@[k as int]@);
            self.add(ts[k].as_str(), i);
            k = k + 1;
        }
        assert(tv.take(k as int) =~= tv);
    }

    /// The chunk positions found under each term of `query`, term by term (see
    /// `query_terms_of`).
    pub fn keyword_hits(&self, query: &str) -> (hits: Vec<usize>)
        ensures
            hits@ == hits_of(self.view(), query_terms_of(words_of(lowercase(query@)))),
    {
        let ts = query_terms(query);
        let ghost tv = ts@.map_values(|x: String| x@);
        let mut hits: Vec<usize> = Vec::new();
        let mut k: usize = 0;
        while k < ts.len()
            invariant
                k <= ts.len(),
                tv == ts@.map_values(|x: String| x@),
                hits@ == hits_of(self.view(), tv.take(k as int)),
            decreases ts.len() - k,
        {
            assert(tv.take(k + 1).drop_last() =~= tv.take(k as int));
            assert(tv.take(k + 1).last() == ts@[k as int]@);
            match self.get(ts[k].as_str()) {
                Some(list) => {
                    let ghost before = hits@;
                    let mut m: usize = 0;
                    while m < list.len()
                        invariant
                            m <= list.len(),
                            hits@ == before + list@.take(m as int),
                        decreases list.len() - m,
                    {
                        hits.push(list[m]);
                        assert(list@.take(m + 1) =~= list@.take(m as int).push(list@[m as int]));
                        m = m + 1;
                    }
                    assert(list@.take(m as int) =~= list@);
                },
                None => {
                    assert(hits_of(self.view(), tv.take(k + 1)) =~= hits_of(self.view(), tv.take(k as int)));
                },
            }
            k = k + 1;
        }
        assert(tv.take(k as int) =~= tv);
        hits
    }
}

/// The chunk positions under each of `terms` in index `v`, term by term.
pub open spec fn hits_of(v: Seq<(Seq<char>, Seq<usize>)>, terms: Seq<Seq<char>>) -> Seq<usize>
    decreases terms.len(),
{
    if terms.len() == 0 {
        Seq::empty()
    } else {
        hits_of(v, terms.drop_last()) + match find_key(v, terms.last()) {
            Some(l) => l,
            None => Seq::empty(),
        }
    }
}

/// A stored document and the chunks it was cut into.
#[derive(Debug, Clone)]
pub struct Document {
    pub id: String,
    pub title: String,
    pub content: String,
    pub source: String,
    pub content_type: String,
    pub chunk_ids: Vec<String>,
    /// When it was stored, as an RFC 3339 timestamp.
    pub created_at: String,
}

/// A document matches a query when its lowercased title or content holds the
/// lowercased query.
pub open spec fn document_matches(d: Document, q: Seq<char>) -> bool {
    has_sub(lowercase(d.title@), lowercase(q)) || has_sub(lowercase(d.content@), lowercase(q))
}

/// Whether a document whose lowercased title and content read `title` and
/// `content` matches an already lowercased query `q`.
pub fn lowered_match(title: &str, content: &str, q: &str) -> (b: bool)
    ensures
        b == (has_sub(title@, q@) || has_sub(content@, q@)),
{
    contains_str(title, q) || contains_str(content, q)
}

/// The positions of the documents of `docs` that match `query`, in order.
pub fn matching_documents(docs: &Vec<Document>, query: &str) -> (r: Vec<usize>)
    ensures
        forall|j: int| 0 <= j < r@.len() ==> (#[trigger] r@[j]) < docs@.len() && document_matches(docs@[r@[j] as int], query@),
        forall|a: int, b: int| 0 <= a < b < r@.len() ==> (#[trigger] r@[a]) < (#[trigger] r@[b]),
        forall|i: int| 0 <= i < docs@.len() && document_matches(#[trigger] docs@[i], query@) ==> r@.contains(i as usize),
{
    let q = to_lowercase(query);
    let mut r: Vec<usize> = Vec::new();
    let mut i: usize = 0;
    while i < docs.len()
        invariant
            i <= docs.len(),
            q@ == lowercase(query@),
            forall|j: int| 0 <= j < r@.len() ==> (#[trigger] r@[j]) < i && document_matches(docs@[r@[j] as int], query@),
            forall|a: int, b: int| 0 <= a < b < r@.len() ==> (#[trigger] r@[a]) < (#[trigger] r@[b]),
            forall|m: int| 0 <= m < i && document_matches(#[trigger] docs@[m], query@) ==> r@.contains(m as usize),
        decreases docs.len() - i,
    {
        let t = to_lowercase(docs[i].title.as_str());
        let c = to_lowercase(docs[i].content.as_str());
        if lowered_match(t.as_str(), c.as_str(), q.as_str()) {
            let ghost before = r@;
            r.push(i);
            proof {
                assert(r@[r@.len() - 1] == i);
                assert forall|m: int| 0 <= m <= i && document_matches(#[trigger] docs@[m], query@) implies r@.contains(m as usize) by {
                    if m < i {
                        let w = choose|w: int| 0 <= w < before.len() && before[w] == m as usize;
                        assert(r@[w] == before[w]);
                    }
                }
            }
        }
        i = i + 1;
    }
    r
}

} // verus!
