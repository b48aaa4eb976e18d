//! Character-level text utilities shared by the whole library.
use vstd::prelude::*;

verus! {

/// Name for what `str::to_lowercase` gives back for a string of characters.
pub uninterp spec fn lowercase(s: Seq<char>) -> Seq<char>;

/// `str::to_lowercase`: the result is the Unicode lowercase mapping of `s`,
/// which depends on `s` alone.
#[verifier::external_body]
pub(crate) fn to_lowercase(s: &str) -> (r: String)
    ensures
        r@ == lowercase(s@),
{
    s.to_lowercase()
}

/// `String::push`: appends one character.
#[verifier::external_body]
pub(crate) fn push_char(s: &mut String, c: char)
    ensures
        final(s)@ == old(s)@.push(c),
{
    s.push(c)
}

/// The characters of `s`, in order.
pub fn chars_of(s: &str) -> (v: Vec<char>)
    ensures
        v@ == s@,
{
    let mut v: Vec<char> = Vec::new();
    for c in it: s.chars()
        invariant
            v@ == it.history(),
    {
        v.push(c);
    }
    v
}

/// The string whose characters are `v`.
pub fn string_of(v: &Vec<char>) -> (s: String)
    ensures
        s@ == v@,
{
    let mut s = String::new();
    let mut i: usize = 0;
    while i < v.len()
        invariant
            i <= v.len(),
            s@ == v@.take(i as int),
        decreases v.len() - i,
    {
        push_char(&mut s, v[i]);
        assert(v@.take(i as int).push(v@[i as int]) == v@.take(i + 1));
        i = i + 1;
    }
    assert(v@.take(v.len() as int) == v@);
    s
}


/// `n` occurs in `h` starting at index `i`.
pub open spec fn occurs_at(h: Seq<char>, n: Seq<char>, i: int) -> bool {
    0 <= i && i + n.len() <= h.len() && h.subrange(i, i + n.len()) == n
}

/// `n` occurs somewhere in `h`.
pub open spec fn has_sub(h: Seq<char>, n: Seq<char>) -> bool {
    exists|i: int| occurs_at(h, n, i)
}

/// `i` is the first index at which `n` occurs in `h`.
pub open spec fn first_occurrence(h: Seq<char>, n: Seq<char>, i: int) -> bool {
    occurs_at(h, n, i) && forall|j: int| 0 <= j < i ==> !occurs_at(h, n, j)
}

/// Whether `n` occurs in `h` at index `i`.
fn matches_at(h: &Vec<char>, n: &Vec<char>, i: usize) -> (b: bool)
    requires
        i + n.len() <= h.len(),
    ensures
        b == occurs_at(h@, n@, i as int),
{
    let mut k: usize = 0;
    while k < n.len()
        invariant
            i + n.len() <= h.len(),
            k <= n.len(),
            forall|m: int| 0 <= m < k ==> h@[i + m] == n@[m],
        decreases n.len() - k,
    {
        if h[i + k] != n[k] {
            assert(h@.subrange(i as int, i + n.len())[k as int] != n@[k as int]);
            return false;
        }
        k = k + 1;
    }
    assert(h@.subrange(i as int, i + n.len()) =~= n@);
    true
}

/// The first index at which `n` occurs in `h`, if any.
pub fn find_chars(h: &Vec<char>, n: &Vec<char>) -> (r: Option<usize>)
    ensures
        match r {
            Some(i) => first_occurrence(h@, n@, i as int),
            None => !has_sub(h@, n@),
        },
{
    if n.len() > h.len() {
        return None;
    }
    let last = h.len() - n.len();
    let mut i: usize = 0;
    while i <= last
        invariant
            n.len() <= h.len(),
            last == h.len() - n.len(),
            i <= last + 1,
            forall|j: int| 0 <= j < i ==> !occurs_at(h@, n@, j),
        decreases last + 1 - i,
    {
        if matches_at(h, n, i) {
            return Some(i);
        }
        if i == last {
            return None;
        }
        i = i + 1;
    }
    None
}

/// Whether `n` occurs in `h`.
pub fn contains_str(h: &str, n: &str) -> (b: bool)
    ensures
        b == has_sub(h@, n@),
{
    let hv = chars_of(h);
    let nv = chars_of(n);
    find_chars(&hv, &nv).is_some()
}

/// The first index at which `n` occurs in `h`, if any.
pub open spec fn find_spec(h: Seq<char>, n: Seq<char>) -> Option<int> {
    if has_sub(h, n) {
        Some(choose|i: int| first_occurrence(h, n, i))
    } else {
        None
    }
}

/// A first occurrence is the one that `find_spec` names.
pub proof fn lemma_find_spec(h: Seq<char>, n: Seq<char>, i: int)
    requires
        first_occurrence(h, n, i),
    ensures
        find_spec(h, n) == Some(i),
{
    assert(has_sub(h, n));
    let j = choose|j: int| first_occurrence(h, n, j);
    assert(first_occurrence(h, n, j));
    if j < i {
        assert(!occurs_at(h, n, j));
    }
    if i < j {
        assert(!occurs_at(h, n, i));
    }
}

/// The first index at which `n` occurs in `h` (see `find_spec`).
pub fn find(h: &Vec<char>, n: &str) -> (r: Option<usize>)
    ensures
        match r {
            Some(i) => find_spec(h@, n@) == Some(i as int) && first_occurrence(h@, n@, i as int),
            None => find_spec(h@, n@) is None,
        },
{
    let nv = chars_of(n);
    let r = find_chars(h, &nv);
    proof {
        if let Some(i) = r {
            lemma_find_spec(h@, n@, i as int);
        }
    }
    r
}

/// `c` has the Unicode `White_Space` property, which is what `char::is_whitespace`
/// tests.
pub open spec fn is_ws(c: char) -> bool {
    ('\u{9}' <= c && c <= '\u{d}') || c == ' ' || c == '\u{85}' || c == '\u{a0}' || c
        == '\u{1680}' || ('\u{2000}' <= c && c <= '\u{200a}') || c == '\u{2028}' || c
        == '\u{2029}' || c == '\u{202f}' || c == '\u{205f}' || c == '\u{3000}'
}

/// Whether `c` is white space (see `is_ws`).
pub fn is_whitespace(c: char) -> (b: bool)
    ensures
        b == is_ws(c),
{
    ('\u{9}' <= c && c <= '\u{d}') || c == ' ' || c == '\u{85}' || c == '\u{a0}' || c
        == '\u{1680}' || ('\u{2000}' <= c && c <= '\u{200a}') || c == '\u{2028}' || c
        == '\u{2029}' || c == '\u{202f}' || c == '\u{205f}' || c == '\u{3000}'
}

/// `s` without its leading white space.
pub open spec fn trim_front(s: Seq<char>) -> Seq<char>
    decreases s.len(),
{
    if s.len() > 0 && is_ws(s[0]) {
        trim_front(s.drop_first())
    } else {
        s
    }
}

/// `s` without its trailing white space.
pub open spec fn trim_back(s: Seq<char>) -> Seq<char>
    decreases s.len(),
{
    if s.len() > 0 && is_ws(s.last()) {
        trim_back(s.drop_last())
    } else {
        s
    }
}

/// `s` without leading and trailing white space, as `str::trim` gives it.
pub open spec fn trimmed(s: Seq<char>) -> Seq<char> {
    trim_back(trim_front(s))
}

/// The characters `v[from..to]` without leading and trailing white space.
pub fn trim_range(v: &Vec<char>, from: usize, to: usize) -> (s: String)
    requires
        from <= to <= v.len(),
    ensures
        s@ == trimmed(v@.subrange(from as int, to as int)),
{
    let ghost w = v@.subrange(from as int, to as int);
    let mut i: usize = from;
    while i < to && is_whitespace(v[i])
        invariant
            from <= i <= to <= v.len(),
            w == v@.subrange(from as int, to as int),
            trim_front(w) == trim_front(v@.subrange(i as int, to as int)),
        decreases to - i,
    {
        assert(v@.subrange(i as int, to as int).drop_first() =~= v@.subrange(i + 1, to as int));
        i = i + 1;
    }
    let ghost f = v@.subrange(i as int, to as int);
    assert(trim_front(f) == f);
    let mut j: usize = to;
    while j > i && is_whitespace(v[j - 1])
        invariant
            from <= i <= j <= to <= v.len(),
            f == v@.subrange(i as int, to as int),
            trim_back(f) == trim_back(v@.subrange(i as int, j as int)),
        decreases j - i,
    {
        assert(v@.subrange(i as int, j as int).drop_last() =~= v@.subrange(i as int, j - 1));
        j = j - 1;
    }
    assert(trim_back(v@.subrange(i as int, j as int)) == v@.subrange(i as int, j as int));
    slice_string(v, i, j)
}

/// `s` without leading and trailing white space (see `trimmed`).
pub fn trim(s: &str) -> (r: String)
    ensures
        r@ == trimmed(s@),
{
    let v = chars_of(s);
    assert(v@.subrange(0, v@.len() as int) =~= v@);
    trim_range(&v, 0, v.len())
}

/// The characters `v[from..to]` as a new vector.
pub fn sub_chars(v: &Vec<char>, from: usize, to: usize) -> (r: Vec<char>)
    requires
        from <= to <= v.len(),
    ensures
        r@ == v@.subrange(from as int, to as int),
{
    let mut r: Vec<char> = Vec::new();
    let mut i: usize = from;
    while i < to
        invariant
            from <= i <= to <= v.len(),
            r@ == v@.subrange(from as int, i as int),
        decreases to - i,
    {
        r.push(v[i]);
        assert(v@.subrange(from as int, i + 1) =~= v@.subrange(from as int, i as int).push(v@[i as int]));
        i = i + 1;
    }
    r
}

/// The first line of `s` as `str::lines` gives it, if `s` has any.
pub open spec fn first_line(s: Seq<char>) -> Option<Seq<char>> {
    if lines_of(s).len() > 0 {
        Some(lines_of(s)[0])
    } else {
        None
    }
}

/// The first line of `v` (see `first_line`).
pub fn first_line_of(v: &Vec<char>) -> (r: Option<String>)
    ensures
        match r {
            Some(l) => first_line(v@) == Some(l@),
            None => first_line(v@) is None,
        },
{
    let n = v.len();
    if n == 0 {
        return None;
    }
    let mut j: usize = 0;
    while j < n && v[j] != '\n'
        invariant
            j <= n,
            n == v.len(),
            forall|m: int| 0 <= m < j ==> v@[m] != '\n',
        decreases n - j,
    {
        j = j + 1;
    }
    proof {
        lemma_first_index_at(v@, '\n', j as int);
    }
    if j == n {
        assert(v@.subrange(0, n as int) =~= v@);
        Some(slice_string(v, 0, n))
    } else {
        let end = if j > 0 && v[j - 1] == '\r' {
            j - 1
        } else {
            j
        };
        assert(v@.take(j as int) =~= v@.subrange(0, j as int));
        assert(v@.subrange(0, end as int) =~= drop_cr(v@.take(j as int)));
        Some(slice_string(v, 0, end))
    }
}

/// The first white-space-separated word of `s`, if it has one.
pub open spec fn first_word(s: Seq<char>) -> Option<Seq<char>> {
    let t = trim_front(s);
    if t.len() == 0 {
        None
    } else {
        Some(t.take(first_ws(t)))
    }
}

/// Index of the first white-space character of `s`, or its length.
pub open spec fn first_ws(s: Seq<char>) -> int
    decreases s.len(),
{
    if s.len() == 0 {
        0
    } else if is_ws(s[0]) {
        0
    } else {
        1 + first_ws(s.drop_first())
    }
}

/// The first word of `s` (see `first_word`).
pub fn first_word_of(s: &str) -> (r: Option<String>)
    ensures
        match r {
            Some(w) => first_word(s@) == Some(w@),
            None => first_word(s@) is None,
        },
{
    let v = chars_of(s);
    let n = v.len();
    let mut i: usize = 0;
    assert(v@.skip(0) =~= v@);
    while i < n && is_whitespace(v[i])
        invariant
            i <= n,
            n == v.len(),
            trim_front(v@) == trim_front(v@.skip(i as int)),
        decreases n - i,
    {
        assert(v@.skip(i as int).drop_first() =~= v@.skip(i + 1));
        i = i + 1;
    }
    let ghost t = v@.skip(i as int);
    assert(trim_front(t) == t);
    if i == n {
        assert(t.len() == 0);
        return None;
    }
    let mut j: usize = i;
    while j < n && !is_whitespace(v[j])
        invariant
            i <= j <= n,
            n == v.len(),
            t == v@.skip(i as int),
            first_ws(t) == (j - i) + first_ws(v@.skip(j as int)),
        decreases n - j,
    {
        assert(v@.skip(j as int).drop_first() =~= v@.skip(j + 1));
        j = j + 1;
    }
    assert(first_ws(t) == j - i);
    assert(t.take(j - i) =~= v@.subrange(i as int, j as int));
    Some(slice_string(&v, i, j))
}

/// `s` with every leading repetition of `p` removed, as `str::trim_start_matches`
/// with a string pattern gives it.
pub open spec fn strip_prefixes(s: Seq<char>, p: Seq<char>) -> Seq<char>
    decreases s.len(),
{
    if p.len() > 0 && p.len() <= s.len() && s.take(p.len() as int) == p {
        strip_prefixes(s.skip(p.len() as int), p)
    } else {
        s
    }
}

/// `s` with every leading repetition of `p` removed (see `strip_prefixes`).
pub fn trim_start_matches(s: &str, p: &str) -> (r: String)
    ensures
        r@ == strip_prefixes(s@, p@),
{
    let v = chars_of(s);
    let pv = chars_of(p);
    let n = v.len();
    let k = pv.len();
    let mut i: usize = 0;
    assert(v@.skip(0) =~= v@);
    if k > 0 {
        while k <= n - i && matches_at(&v, &pv, i)
            invariant
                i <= n,
                n == v.len(),
                k == pv.len(),
                k > 0,
                strip_prefixes(s@, p@) == strip_prefixes(v@.skip(i as int), p@),
                v@ == s@,
                pv@ == p@,
            decreases n - i,
        {
            assert(v@.skip(i as int).take(k as int) =~= v@.subrange(i as int, i + k));
            assert(v@.skip(i as int).skip(k as int) =~= v@.skip(i + k));
            i = i + k;
        }
        if k <= n - i {
            assert(v@.skip(i as int).take(k as int) =~= v@.subrange(i as int, i + k));
        }
    }
    assert(v@.subrange(i as int, n as int) =~= v@.skip(i as int));
    slice_string(&v, i, n)
}

/// `s` with every trailing repetition of `p` removed, as `str::trim_end_matches`
/// with a string pattern gives it.
pub open spec fn strip_suffixes(s: Seq<char>, p: Seq<char>) -> Seq<char>
    decreases s.len(),
{
    if p.len() > 0 && p.len() <= s.len() && s.skip(s.len() - p.len()) == p {
        strip_suffixes(s.take(s.len() - p.len()), p)
    } else {
        s
    }
}

/// `s` with every trailing repetition of `p` removed (see `strip_suffixes`).
pub fn trim_end_matches(s: &str, p: &str) -> (r: String)
    ensures
        r@ == strip_suffixes(s@, p@),
{
    let v = chars_of(s);
    let pv = chars_of(p);
    let k = pv.len();
    let mut j: usize = v.len();
    assert(v@.take(j as int) =~= v@);
    if k > 0 {
        while k <= j && matches_at(&v, &pv, j - k)
            invariant
                j <= v.len(),
                k == pv.len(),
                k > 0,
                strip_suffixes(s@, p@) == strip_suffixes(v@.take(j as int), p@),
                v@ == s@,
                pv@ == p@,
            decreases j,
        {
            assert(v@.take(j as int).skip(j - k) =~= v@.subrange(j - k, j as int));
            assert(v@.take(j as int).take(j - k) =~= v@.take(j - k));
            j = j - k;
        }
        if k <= j {
            assert(v@.take(j as int).skip(j - k) =~= v@.subrange(j - k, j as int));
        }
    }
    assert(v@.subrange(0, j as int) =~= v@.take(j as int));
    slice_string(&v, 0, j)
}

/// Leading white space never lengthens a text.
pub proof fn lemma_trim_front_len(s: Seq<char>)
    ensures
        trim_front(s).len() <= s.len(),
        trim_front(s).len() > 0 ==> !is_ws(trim_front(s)[0]),
        trim_front(s) == s.skip(s.len() - trim_front(s).len()),
    decreases s.len(),
{
    if s.len() > 0 && is_ws(s[0]) {
        lemma_trim_front_len(s.drop_first());
        assert(s.drop_first().skip(s.drop_first().len() - trim_front(s).len()) =~= s.skip(
            s.len() - trim_front(s).len(),
        ));
    } else {
        assert(s.skip(0) =~= s);
    }
}

/// A word starts at a character that is not white space.
pub proof fn lemma_first_ws_bounds(s: Seq<char>)
    ensures
        0 <= first_ws(s) <= s.len(),
        s.len() > 0 && !is_ws(s[0]) ==> first_ws(s) >= 1,
        forall|i: int| 0 <= i < first_ws(s) ==> !is_ws(#[trigger] s[i]),
        first_ws(s) < s.len() ==> is_ws(s[first_ws(s)]),
    decreases s.len(),
{
    if s.len() > 0 && !is_ws(s[0]) {
        lemma_first_ws_bounds(s.drop_first());
        assert forall|i: int| 0 <= i < first_ws(s) implies !is_ws(#[trigger] s[i]) by {
            if i > 0 {
                assert(s[i] == s.drop_first()[i - 1]);
            }
        }
    }
}

/// The white-space-separated words of `s`, in order, as `str::split_whitespace`
/// gives them.
pub open spec fn words_of(s: Seq<char>) -> Seq<Seq<char>>
    decreases s.len(),
{
    let t = trim_front(s);
    if t.len() == 0 {
        Seq::empty()
    } else {
        proof {
            lemma_trim_front_len(s);
            lemma_first_ws_bounds(t);
        }
        seq![t.take(first_ws(t))] + words_of(t.skip(first_ws(t)))
    }
}

/// The words of `s` (see `words_of`).
pub fn split_words(s: &str) -> (ws: Vec<String>)
    ensures
        ws@.map_values(|x: String| x@) == words_of(s@),
{
    let v = chars_of(s);
    let n = v.len();
    let mut ws: Vec<String> = Vec::new();
    let mut i: usize = 0;
    assert(v@.skip(0) =~= v@);
    while i < n
        invariant
            i <= n,
            n == v.len(),
            v@ == s@,
            ws@.map_values(|x: String| x@) + words_of(v@.skip(i as int)) == words_of(v@),
        decreases n - i,
    {
        let ghost rest = v@.skip(i as int);
        let mut j: usize = i;
        while j < n && is_whitespace(v[j])
            invariant
                i <= j <= n,
                n == v.len(),
                trim_front(rest) == trim_front(v@.skip(j as int)),
                rest == v@.skip(i as int),
            decreases n - j,
        {
            assert(v@.skip(j as int).drop_first() =~= v@.skip(j + 1));
            j = j + 1;
        }
        let ghost t = v@.skip(j as int);
        assert(trim_front(t) == t);
        if j == n {
            assert(t.len() == 0);
            assert(words_of(rest) == Seq::<Seq<char>>::empty());
            i = n;
        } else {
            let mut k: usize = j;
            while k < n && !is_whitespace(v[k])
                invariant
                    j <= k <= n,
                    n == v.len(),
                    t == v@.skip(j as int),
                    first_ws(t) == (k - j) + first_ws(v@.skip(k as int)),
                decreases n - k,
            {
                assert(v@.skip(k as int).drop_first() =~= v@.skip(k + 1));
                k = k + 1;
            }
            assert(first_ws(t) == k - j);
            assert(t.take(k - j) =~= v@.subrange(j as int, k as int));
            assert(t.skip(k - j) =~= v@.skip(k as int));
            let ghost before = ws@.map_values(|x: String| x@);
            ws.push(slice_string(&v, j, k));
            assert(ws@.map_values(|x: String| x@) =~= before.push(v@.subrange(j as int, k as int)));
            assert(words_of(rest) == seq![t.take(k - j)] + words_of(v@.skip(k as int)));
            assert(before + words_of(rest) =~= ws@.map_values(|x: String| x@) + words_of(v@.skip(k as int)));
            i = k;
        }
    }
    assert(v@.skip(n as int) =~= Seq::<char>::empty());
    assert(words_of(Seq::<char>::empty()) == Seq::<Seq<char>>::empty());
    assert(ws@.map_values(|x: String| x@) + Seq::<Seq<char>>::empty() =~= ws@.map_values(|x: String| x@));
    ws
}

/// `s` with every occurrence of the non-empty `p` replaced by `r`, scanning left to
/// right without overlap, as `str::replace` does.
pub open spec fn replace_all(s: Seq<char>, p: Seq<char>, r: Seq<char>) -> Seq<char>
    decreases s.len(),
{
    if p.len() == 0 {
        interleave(s, r)
    } else {
        match find_spec(s, p) {
            None => s,
            Some(i) => if 0 <= i && i + p.len() <= s.len() {
                s.take(i) + r + replace_all(s.skip(i + p.len()), p, r)
            } else {
                s
            },
        }
    }
}

/// `r` before, between and after the characters of `s`: what replacing the empty
/// pattern, which occurs at every character boundary, gives.
pub open spec fn interleave(s: Seq<char>, r: Seq<char>) -> Seq<char>
    decreases s.len(),
{
    if s.len() == 0 {
        r
    } else {
        interleave(s.drop_last(), r) + seq![s.last()] + r
    }
}

/// `s` with every occurrence of `p` replaced by `r` (see `replace_all`).
pub fn replace_str(s: &str, p: &str, r: &str) -> (out: String)
    ensures
        out@ == replace_all(s@, p@, r@),
{
    let v = chars_of(s);
    let pv = chars_of(p);
    let n = v.len();
    let k = pv.len();
    if k == 0 {
        let mut out = String::new();
        push_str(&mut out, r);
        let mut i: usize = 0;
        while i < n
            invariant
                i <= n,
                n == v.len(),
                v@ == s@,
                out@ == interleave(v@.take(i as int), r@),
            decreases n - i,
        {
            push_char(&mut out, v[i]);
            push_str(&mut out, r);
            assert(v@.take(i + 1).drop_last() =~= v@.take(i as int));
            i = i + 1;
        }
        assert(v@.take(n as int) =~= v@);
        return out;
    }
    let mut out = String::new();
    let mut pos: usize = 0;
    let mut rest = sub_chars(&v, 0, n);
    assert(v@.skip(0) =~= v@);
    while pos < n
        invariant
            pos <= n,
            n == v.len(),
            k == p@.len(),
            k > 0,
            v@ == s@,
            rest@ == v@.skip(pos as int),
            out@ + replace_all(rest@, p@, r@) == replace_all(s@, p@, r@),
        decreases n - pos,
    {
        match find(&rest, p) {
            None => {
                push_str(&mut out, string_of(&rest).as_str());
                pos = n;
                rest = Vec::new();
                assert(rest@ =~= v@.skip(n as int));
                assert(replace_all(Seq::<char>::empty(), p@, r@) == Seq::<char>::empty());
                assert(out@ + Seq::<char>::empty() =~= out@);
            },
            Some(i) => {
                let m = rest.len();
                assert(i + k <= m);
                let head = slice_string(&rest, 0, i);
                push_str(&mut out, head.as_str());
                push_str(&mut out, r);
                let next = sub_chars(&rest, i + k, m);
                proof {
                    assert(head@ =~= rest@.take(i as int));
                    assert(next@ =~= rest@.skip(i + k));
                    assert(next@ =~= v@.skip(pos + i + k));
                }
                rest = next;
                pos = pos + i + k;
            },
        }
    }
    proof {
        assert(rest@ =~= Seq::<char>::empty());
        assert(replace_all(Seq::<char>::empty(), p@, r@) == Seq::<char>::empty());
        assert(out@ + Seq::<char>::empty() =~= out@);
    }
    out
}

/// `h` begins with `p`.
pub open spec fn starts_with(h: Seq<char>, p: Seq<char>) -> bool {
    p.len() <= h.len() && h.subrange(0, p.len() as int) == p
}

/// The characters `h[from..to]` as a string.
pub fn slice_string(h: &Vec<char>, from: usize, to: usize) -> (s: String)
    requires
        from <= to <= h.len(),
    ensures
        s@ == h@.subrange(from as int, to as int),
{
    let mut s = String::new();
    let mut i: usize = from;
    while i < to
        invariant
            from <= i <= to <= h.len(),
            s@ == h@.subrange(from as int, i as int),
        decreases to - i,
    {
        push_char(&mut s, h[i]);
        assert(h@.subrange(from as int, i + 1) =~= h@.subrange(from as int, i as int).push(h@[i as int]));
        i = i + 1;
    }
    s
}

/// The decimal digit character for `d < 10`.
pub open spec fn digit_char(d: int) -> char {
    if d == 0 {
        '0'
    } else if d == 1 {
        '1'
    } else if d == 2 {
        '2'
    } else if d == 3 {
        '3'
    } else if d == 4 {
        '4'
    } else if d == 5 {
        '5'
    } else if d == 6 {
        '6'
    } else if d == 7 {
        '7'
    } else if d == 8 {
        '8'
    } else {
        '9'
    }
}

/// The decimal rendering of `n`, without sign or leading zeros.
pub open spec fn dec(n: nat) -> Seq<char>
    decreases n,
{
    if n < 10 {
        seq![digit_char(n as int)]
    } else {
        dec(n / 10).push(digit_char((n % 10) as int))
    }
}

fn digit(d: u64) -> (c: char)
    requires
        d < 10,
    ensures
        c == digit_char(d as int),
{
    match d {
        0 => '0',
        1 => '1',
        2 => '2',
        3 => '3',
        4 => '4',
        5 => '5',
        6 => '6',
        7 => '7',
        8 => '8',
        _ => '9',
    }
}

/// Appends the decimal rendering of `n`.
pub fn push_dec(s: &mut String, n: u64)
    ensures
        final(s)@ == old(s)@ + dec(n as nat),
    decreases n,
{
    if n >= 10 {
        push_dec(s, n / 10);
    }
    let c = digit(n % 10);
    push_char(s, c);
}

/// The decimal rendering of the integer `i`, with a leading `-` when negative.
pub open spec fn int_text(i: int) -> Seq<char> {
    if i < 0 {
        seq!['-'] + dec((-i) as nat)
    } else {
        dec(i as nat)
    }
}

/// Appends the decimal rendering of `i` (see `int_text`).
pub fn push_int(s: &mut String, i: i64)
    ensures
        final(s)@ == old(s)@ + int_text(i as int),
{
    if i < 0 {
        push_char(s, '-');
        let m: u64 = if i == i64::MIN {
            9223372036854775808u64
        } else {
            (-i) as u64
        };
        push_dec(s, m);
        assert(s@ =~= old(s)@ + int_text(i as int));
    } else {
        push_dec(s, i as u64);
    }
}

/// Whether `a` and `b` hold the same characters.
pub fn eq_str(a: &str, b: &str) -> (e: bool)
    ensures
        e == (a@ == b@),
{
    a.to_owned() == b.to_owned()
}

/// Appends `t`.
pub fn push_str(s: &mut String, t: &str)
    ensures
        final(s)@ == old(s)@ + t@,
{
    s.append(t);
}

/// `"true"` or `"false"`.
pub open spec fn bool_text(b: bool) -> Seq<char> {
    if b {
        "true"@
    } else {
        "false"@
    }
}

/// Appends `"true"` or `"false"`.
pub fn push_bool(s: &mut String, b: bool)
    ensures
        final(s)@ == old(s)@ + bool_text(b),
{
    if b {
        push_str(s, "true");
    } else {
        push_str(s, "false");
    }
}


/// Index of the first `c` in `s`, or `s.len()` when there is none.
pub open spec fn first_index(s: Seq<char>, c: char) -> int
    decreases s.len(),
{
    if s.len() == 0 {
        0
    } else if s[0] == c {
        0
    } else {
        1 + first_index(s.drop_first(), c)
    }
}

proof fn lemma_first_index(s: Seq<char>, c: char)
    ensures
        0 <= first_index(s, c) <= s.len(),
        forall|j: int| 0 <= j < first_index(s, c) ==> s[j] != c,
        first_index(s, c) < s.len() ==> s[first_index(s, c)] == c,
    decreases s.len(),
{
    if s.len() > 0 && s[0] != c {
        lemma_first_index(s.drop_first(), c);
        assert forall|j: int| 0 <= j < first_index(s, c) implies s[j] != c by {
            if j > 0 {
                assert(s[j] == s.drop_first()[j - 1]);
            }
        }
    }
}

proof fn lemma_first_index_at(s: Seq<char>, c: char, k: int)
    requires
        0 <= k <= s.len(),
        forall|j: int| 0 <= j < k ==> s[j] != c,
        k < s.len() ==> s[k] == c,
    ensures
        first_index(s, c) == k,
    decreases s.len(),
{
    if s.len() > 0 && k > 0 {
        assert(s[0] != c);
        lemma_first_index_at(s.drop_first(), c, k - 1);
    }
}

/// A line without a carriage return that preceded its line feed.
pub open spec fn drop_cr(t: Seq<char>) -> Seq<char> {
    if t.len() > 0 && t.last() == '\r' {
        t.drop_last()
    } else {
        t
    }
}

/// The lines of `s` as `str::lines` splits them: at `\n` or `\r\n`; a final line
/// ending is optional and an empty text has no lines.
pub open spec fn lines_of(s: Seq<char>) -> Seq<Seq<char>>
    decreases s.len(),
{
    if s.len() == 0 {
        Seq::empty()
    } else {
        let i = first_index(s, '\n');
        if i >= s.len() {
            seq![s]
        } else if i < 0 {
            Seq::empty()
        } else {
            seq![drop_cr(s.take(i))] + lines_of(s.skip(i + 1))
        }
    }
}

/// The lines of `s` (see `lines_of`).
pub fn lines(s: &str) -> (ls: Vec<String>)
    ensures
        ls@.map_values(|x: String| x@) == lines_of(s@),
{
    let cv = chars_of(s);
    let n = cv.len();
    let mut ls: Vec<String> = Vec::new();
    let mut pos: usize = 0;
    assert(cv@.skip(0) =~= cv@);
    assert(ls@.map_values(|x: String| x@) + lines_of(cv@.skip(0)) =~= lines_of(cv@));
    while pos < n
        invariant
            n == cv.len(),
            cv@ == s@,
            pos <= n,
            ls@.map_values(|x: String| x@) + lines_of(cv@.skip(pos as int)) == lines_of(cv@),
        decreases n - pos,
    {
        let ghost rest = cv@.skip(pos as int);
        let mut j: usize = pos;
        while j < n && cv[j] != '\n'
            invariant
                pos <= j <= n,
                n == cv.len(),
                forall|m: int| pos <= m < j ==> cv@[m] != '\n',
            decreases n - j,
        {
            j = j + 1;
        }
        proof {
            lemma_first_index_at(rest, '\n', j - pos);
            assert(rest.len() > 0);
        }
        let ghost before = ls@.map_values(|x: String| x@);
        if j == n {
            ls.push(slice_string(&cv, pos, n));
            proof {
                assert(cv@.subrange(pos as int, n as int) =~= rest);
                assert(ls@.map_values(|x: String| x@) =~= before.push(rest));
                assert(lines_of(rest) == seq![rest]);
                assert(cv@.skip(n as int) =~= Seq::<char>::empty());
                assert(before + seq![rest] =~= before.push(rest));
            }
            pos = n;
        } else {
            let end = if j > pos && cv[j - 1] == '\r' {
                j - 1
            } else {
                j
            };
            ls.push(slice_string(&cv, pos, end));
            proof {
                let line = drop_cr(rest.take(j - pos));
                assert(rest.take(j - pos) =~= cv@.subrange(pos as int, j as int));
                assert(cv@.subrange(pos as int, end as int) =~= line);
                assert(ls@.map_values(|x: String| x@) =~= before.push(line));
                assert(rest.skip(j - pos + 1) =~= cv@.skip(j + 1));
                assert(lines_of(rest) == seq![line] + lines_of(cv@.skip(j + 1)));
                assert(before + (seq![line] + lines_of(cv@.skip(j + 1))) =~= before.push(line)
                    + lines_of(cv@.skip(j + 1)));
            }
            pos = j + 1;
        }
    }
    assert(cv@.skip(n as int) =~= Seq::<char>::empty());
    assert(ls@.map_values(|x: String| x@) + Seq::<Seq<char>>::empty() =~= ls@.map_values(|x: String| x@));
    ls
}

/// `parts` joined with `sep` between consecutive parts.
pub open spec fn join_with(parts: Seq<Seq<char>>, sep: Seq<char>) -> Seq<char>
    decreases parts.len(),
{
    if parts.len() == 0 {
        Seq::empty()
    } else if parts.len() == 1 {
        parts[0]
    } else {
        join_with(parts.drop_last(), sep) + sep + parts.last()
    }
}

/// `parts` joined with `sep` (as `[String]::join`).
pub fn join(parts: &Vec<String>, sep: &str) -> (s: String)
    ensures
        s@ == join_with(parts@.map_values(|x: String| x@), sep@),
{
    let ghost ps = parts@.map_values(|x: String| x@);
    let mut s = String::new();
    let mut i: usize = 0;
    while i < parts.len()
        invariant
            i <= parts.len(),
            ps == parts@.map_values(|x: String| x@),
            s@ == join_with(ps.take(i as int), sep@),
        decreases parts.len() - i,
    {
        if i > 0 {
            push_str(&mut s, sep);
        }
        push_str(&mut s, parts[i].as_str());
        proof {
            assert(ps.take(i + 1).drop_last() =~= ps.take(i as int));
            if i == 0 {
                assert(ps.take(1) =~= seq![ps[0]]);
                assert(s@ =~= ps[0]);
            }
        }
        i = i + 1;
    }
    assert(ps.take(parts.len() as int) =~= ps);
    s
}


/// `c` is an ASCII decimal digit.
pub open spec fn is_digit(c: char) -> bool {
    '0' <= c && c <= '9'
}

/// Value of a run of ASCII decimal digits.
pub open spec fn digits_value(s: Seq<char>) -> nat
    decreases s.len(),
{
    if s.len() == 0 {
        0
    } else {
        digits_value(s.drop_last()) * 10 + ((s.last() as u32 - '0' as u32) as nat)
    }
}

/// The text after an optional leading `+`.
pub open spec fn unsigned_part(s: Seq<char>) -> Seq<char> {
    if s.len() > 0 && s[0] == '+' {
        s.drop_first()
    } else {
        s
    }
}

/// What `usize::from_str` gives: an optional `+` followed by at least one ASCII
/// digit, whose value fits in `usize`.
pub open spec fn parse_usize_spec(s: Seq<char>) -> Option<usize> {
    let d = unsigned_part(s);
    if d.len() > 0 && (forall|i: int| 0 <= i < d.len() ==> is_digit(#[trigger] d[i])) && digits_value(d)
        <= usize::MAX {
        Some(digits_value(d) as usize)
    } else {
        None
    }
}

proof fn lemma_digits_value_mono(s: Seq<char>, k: int)
    requires
        0 <= k <= s.len(),
        forall|i: int| 0 <= i < s.len() ==> is_digit(#[trigger] s[i]),
    ensures
        digits_value(s.take(k)) <= digits_value(s),
    decreases s.len() - k,
{
    if k < s.len() {
        lemma_digits_value_mono(s, k + 1);
        assert(s.take(k + 1).drop_last() =~= s.take(k));
        assert(digits_value(s.take(k + 1)) == digits_value(s.take(k)) * 10 + ((s[k] as u32 - '0' as u32) as nat));
    } else {
        assert(s.take(k) =~= s);
    }
}

/// Parses a decimal `usize` (see `parse_usize_spec`).
pub fn parse_usize(s: &str) -> (r: Option<usize>)
    ensures
        r == parse_usize_spec(s@),
{
    let cv = chars_of(s);
    let mut i: usize = 0;
    if cv.len() > 0 && cv[0] == '+' {
        i = 1;
    }
    let ghost d = unsigned_part(s@);
    assert(d =~= cv@.skip(i as int));
    if i >= cv.len() {
        return None;
    }
    let start = i;
    let mut value: usize = 0;
    while i < cv.len()
        invariant
            start <= i <= cv.len(),
            start < cv.len(),
            d == cv@.skip(start as int),
            d == unsigned_part(s@),
            forall|m: int| start <= m < i ==> is_digit(#[trigger] cv@[m]),
            value == digits_value(cv@.subrange(start as int, i as int)),
        decreases cv.len() - i,
    {
        let c = cv[i];
        if !('0' <= c && c <= '9') {
            assert(d[i - start] == c);
            assert(!is_digit(d[i - start]));
            return None;
        }
        let digit = (c as u32 - '0' as u32) as usize;
        assert(cv@.subrange(start as int, i + 1).drop_last() =~= cv@.subrange(start as int, i as int));
        assert(digits_value(cv@.subrange(start as int, i + 1)) == value * 10 + digit);
        match value.checked_mul(10) {
            None => {
                proof {
                    if forall|m: int| 0 <= m < d.len() ==> is_digit(#[trigger] d[m]) {
                        lemma_digits_value_mono(d, i + 1 - start);
                        assert(d.take(i + 1 - start) =~= cv@.subrange(start as int, i + 1));
                    }
                }
                return None;
            },
            Some(v10) => match v10.checked_add(digit) {
                None => {
                    proof {
                        if forall|m: int| 0 <= m < d.len() ==> is_digit(#[trigger] d[m]) {
                            lemma_digits_value_mono(d, i + 1 - start);
                            assert(d.take(i + 1 - start) =~= cv@.subrange(start as int, i + 1));
                        }
                    }
                    return None;
                },
                Some(v) => {
                    value = v;
                },
            },
        }
        i = i + 1;
    }
    assert(cv@.subrange(start as int, cv.len() as int) =~= d);
    Some(value)
}

} // verus!
