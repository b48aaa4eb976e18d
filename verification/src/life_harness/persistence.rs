//! Session persistence: per-session key-value data that survives restarts. A value
//! read back is the last one stored under its session and key.
use vstd::prelude::*;
use crate::text::eq_str;
use crate::keyed::{find_key, lemma_find_key_push, lemma_find_key_scan, lemma_find_key_set};

verus! {

/// A stored session entry.
#[derive(Debug, Clone)]
pub struct SessionEntry {
    pub session_id: String,
    pub created: String,
    pub updated: String,
    pub data: Vec<(String, String)>,
}

/// The key-value pairs of a session, as text.
pub open spec fn data_view(d: Seq<(String, String)>) -> Seq<(Seq<char>, Seq<char>)> {
    d.map_values(|p: (String, String)| (p.0@, p.1@))
}

/// The sessions, keyed by id, with their pairs.
pub open spec fn sessions_view(ss: Seq<SessionEntry>) -> Seq<(Seq<char>, Seq<(Seq<char>, Seq<char>)>)> {
    ss.map_values(|e: SessionEntry| (e.session_id@, data_view(e.data@)))
}

/// The index of the first pair of `data` keyed `key`.
fn key_index(data: &Vec<(String, String)>, key: &str) -> (r: Option<usize>)
    ensures
        match r {
            Some(i) => i < data@.len() && data_view(data@)[i as int].0 == key@ && forall|j: int|
                0 <= j < i ==> data_view(data@)[j].0 != key@,
            None => forall|j: int| 0 <= j < data@.len() ==> data_view(data@)[j].0 != key@,
        },
{
    let mut k: usize = 0;
    while k < data.len()
        invariant
            k <= data.len(),
            forall|j: int| 0 <= j < k ==> data_view(data@)[j].0 != key@,
        decreases data.len() - k,
    {
        if eq_str(data[k].0.as_str(), key) {
            return Some(k);
        }
        k = k + 1;
    }
    None
}

/// Persists sessions to disk (the reading and writing of the file is done by the
/// caller with `entries` and `replace_all`).
pub struct SessionStore {
    path: String,
    sessions: Vec<SessionEntry>,
}

impl SessionStore {
    /// The sessions with their data.
    pub closed spec fn view_sessions(&self) -> Seq<(Seq<char>, Seq<(Seq<char>, Seq<char>)>)> {
        sessions_view(self.sessions@)
    }

    /// The value stored under `session` and `key`, if any.
    pub open spec fn value(&self, session: Seq<char>, key: Seq<char>) -> Option<Seq<char>> {
        match find_key(self.view_sessions(), session) {
            Some(d) => find_key(d, key),
            None => None,
        }
    }

    /// Whether `session` has been stored.
    pub open spec fn has_session(&self, session: Seq<char>) -> bool {
        find_key(self.view_sessions(), session) is Some
    }

    /// The file the sessions are kept in.
    pub closed spec fn path_view(&self) -> Seq<char> {
        self.path@
    }

    /// Each session id appears once.
    pub closed spec fn wf(&self) -> bool {
        forall|i: int, j: int|
            0 <= i < j < self.sessions@.len() ==> #[trigger] self.sessions@[i].session_id@
                != #[trigger] self.sessions@[j].session_id@
    }

    pub fn new(path: &str) -> (s: Self)
        ensures
            s.wf(),
            s.path_view() == path@,
            s.view_sessions().len() == 0,
    {
        let s = SessionStore { path: path.to_owned(), sessions: Vec::new() };
        assert(s.view_sessions() =~= Seq::empty());
        s
    }

    /// The file path.
    pub fn path(&self) -> (p: &str)
        ensures
            p@ == self.path_view(),
    {
        self.path.as_str()
    }

    fn session_index(&self, session: &str) -> (r: Option<usize>)
        ensures
            match r {
                Some(i) => i < self.sessions@.len() && self.sessions@[i as int].session_id@ == session@
                    && forall|j: int| 0 <= j < i ==> self.sessions@[j].session_id@ != session@,
                None => forall|j: int| 0 <= j < self.sessions@.len() ==> self.sessions@[j].session_id@ != session@,
            },
    {
        let mut i: usize = 0;
        while i < self.sessions.len()
            invariant
                i <= self.sessions.len(),
                forall|j: int| 0 <= j < i ==> self.sessions@[j].session_id@ != session@,
            decreases self.sessions.len() - i,
        {
            if eq_str(self.sessions[i].session_id.as_str(), session) {
                return Some(i);
            }
            i = i + 1;
        }
        None
    }

    /// Stores `value` under `session` and `key` at time `now`, creating the session
    /// when it is new. Only that value changes.
    pub fn store(&mut self, session: &str, key: &str, value: &str, now: &str)
        requires
            old(self).wf(),
        ensures
            final(self).wf(),
            final(self).value(session@, key@) == Some(value@),
            forall|s: Seq<char>, k: Seq<char>|
                !(s == session@ && k == key@) ==> #[trigger] final(self).value(s, k) == old(self).value(s, k),
            forall|s: Seq<char>| #[trigger] final(self).has_session(s) == (old(self).has_session(s) || s == session@),
            final(self).view_sessions().len() == old(self).view_sessions().len() + if old(self).has_session(
                session@,
            ) {
                0int
            } else {
                1int
            },
            final(self).path_view() == old(self).path_view(),
    {
        let ghost sv = self.view_sessions();
        match self.session_index(session) {
            Some(i) => {
                let mut entry = self.sessions.remove(i);
                let ghost dv = data_view(entry.data@);
                entry.updated = now.to_owned();
                let found = key_index(&entry.data, key);
                proof {
                    assert(sv[i as int].0 == session@);
                    assert(sv[i as int].1 == dv);
                }
                match found {
                    Some(k) => {
                        entry.data.set(k, (key.to_owned(), value.to_owned()));
                        proof {
                            assert(data_view(entry.data@) =~= dv.update(k as int, (key@, value@)));
                            assert forall|q: Seq<char>| #[trigger] find_key(data_view(entry.data@), q) == (if q == key@ {
                                Some(value@)
                            } else {
                                find_key(dv, q)
                            }) by {
                                lemma_find_key_set(dv, k as int, key@, value@, q);
                            }
                        }
                    },
                    None => {
                        entry.data.push((key.to_owned(), value.to_owned()));
                        proof {
                            assert(data_view(entry.data@) =~= dv.push((key@, value@)));
                            assert forall|q: Seq<char>| #[trigger] find_key(data_view(entry.data@), q) == (if q == key@ {
                                Some(value@)
                            } else {
                                find_key(dv, q)
                            }) by {
                                lemma_find_key_push(dv, key@, value@, q);
                            }
                        }
                    },
                }
                let ghost nd = data_view(entry.data@);
                self.sessions.insert(i, entry);
                proof {
                    let after = self.view_sessions();
                    assert(after =~= sv.update(i as int, (session@, nd)));
                    assert forall|s: Seq<char>| #[trigger] find_key(after, s) == (if s == session@ {
                        Some(nd)
                    } else {
                        find_key(sv, s)
                    }) by {
                        lemma_find_key_set(sv, i as int, session@, nd, s);
                    }
                    lemma_find_key_scan(sv, session@, i as int);
                    assert forall|s: Seq<char>, q: Seq<char>| !(s == session@ && q == key@) implies #[trigger] self.value(s, q)
                        == old(self).value(s, q) by {
                        assert(find_key(after, s) == (if s == session@ { Some(nd) } else { find_key(sv, s) }));
                        if s == session@ {
                            assert(find_key(nd, q) == find_key(dv, q));
                        }
                    }
                    assert(find_key(after, session@) == Some(nd));
                    assert(find_key(nd, key@) == Some(value@));
                    assert forall|s: Seq<char>| #[trigger] self.has_session(s) == (old(self).has_session(s) || s == session@) by {
                        assert(find_key(after, s) == (if s == session@ { Some(nd) } else { find_key(sv, s) }));
                    }
                    assert forall|a: int, b: int|
                        0 <= a < b < self.sessions@.len() implies #[trigger] self.sessions@[a].session_id@
                        != #[trigger] self.sessions@[b].session_id@ by {
                        assert(after[a].0 == sv[a].0 && after[b].0 == sv[b].0);
                    }
                }
            },
            None => {
                let mut data: Vec<(String, String)> = Vec::new();
                data.push((key.to_owned(), value.to_owned()));
                let entry = SessionEntry {
                    session_id: session.to_owned(),
                    created: now.to_owned(),
                    updated: now.to_owned(),
                    data,
                };
                let ghost nd = data_view(entry.data@);
                self.sessions.push(entry);
                proof {
                    let after = self.view_sessions();
                    assert(after =~= sv.push((session@, nd)));
                    assert(nd =~= seq![(key@, value@)]);
                    assert(find_key(nd, key@) == Some(value@));
                    assert forall|s: Seq<char>| #[trigger] find_key(after, s) == (if s == session@ {
                        Some(nd)
                    } else {
                        find_key(sv, s)
                    }) by {
                        lemma_find_key_push(sv, session@, nd, s);
                    }
                    lemma_find_key_scan(sv, session@, sv.len() as int);
                    assert forall|a: int, b: int|
                        0 <= a < b < self.sessions@.len() implies #[trigger] self.sessions@[a].session_id@
                        != #[trigger] self.sessions@[b].session_id@ by {
                        if b == sv.len() {
                            assert(sv[a].0 != session@);
                        } else {
                            assert(sv[a].0 == after[a].0 && sv[b].0 == after[b].0);
                        }
                    }
                    assert forall|s: Seq<char>, q: Seq<char>| !(s == session@ && q == key@) implies #[trigger] self.value(s, q)
                        == old(self).value(s, q) by {
                        assert(find_key(after, s) == (if s == session@ { Some(nd) } else { find_key(sv, s) }));
                        if s == session@ {
                            assert(nd[0].0 != q);
                            assert(nd.drop_first() =~= Seq::empty());
                            assert(find_key(nd.drop_first(), q) is None);
                            assert(find_key(nd, q) is None);
                            assert(find_key(sv, session@) is None);
                        }
                    }
                    assert(find_key(after, session@) == Some(nd));
                    assert forall|s: Seq<char>| #[trigger] self.has_session(s) == (old(self).has_session(s) || s == session@) by {
                        assert(find_key(after, s) == (if s == session@ { Some(nd) } else { find_key(sv, s) }));
                    }
                }
            },
        }
    }

    /// The value stored under `session` and `key`.
    pub fn get(&self, session: &str, key: &str) -> (r: Option<String>)
        ensures
            match r {
                Some(v) => self.value(session@, key@) == Some(v@),
                None => self.value(session@, key@) is None,
            },
    {
        let ghost sv = self.view_sessions();
        match self.session_index(session) {
            None => {
                proof {
                    lemma_find_key_scan(sv, session@, sv.len() as int);
                }
                None
            },
            Some(i) => {
                proof {
                    lemma_find_key_scan(sv, session@, i as int);
                }
                let entry = &self.sessions[i];
                let ghost dv = data_view(entry.data@);
                assert(sv[i as int].1 == dv);
                match key_index(&entry.data, key) {
                    Some(k) => {
                        proof {
                            lemma_find_key_scan(dv, key@, k as int);
                        }
                        Some(entry.data[k].1.clone())
                    },
                    None => {
                        proof {
                            lemma_find_key_scan(dv, key@, dv.len() as int);
                        }
                        None
                    },
                }
            },
        }
    }

    pub fn session_count(&self) -> (n: usize)
        ensures
            n == self.view_sessions().len(),
    {
        self.sessions.len()
    }

    /// Forgets every session.
    pub fn clear(&mut self)
        ensures
            final(self).wf(),
            final(self).view_sessions().len() == 0,
            final(self).path_view() == old(self).path_view(),
    {
        self.sessions.clear();
        assert(self.view_sessions() =~= Seq::empty());
    }

    /// The stored sessions, for writing to the file.
    pub fn entries(&self) -> (es: &Vec<SessionEntry>)
        ensures
            sessions_view(es@) == self.view_sessions(),
    {
        &self.sessions
    }

    /// Replaces every session with those read back from the file, keeping the first
    /// of several with one id, and returns their ids.
    pub fn replace_all(&mut self, restored: Vec<SessionEntry>) -> (ids: Vec<String>)
        ensures
            final(self).wf(),
            final(self).path_view() == old(self).path_view(),
            forall|s: Seq<char>, k: Seq<char>|
                #[trigger] final(self).value(s, k) == match find_key(sessions_view(restored@), s) {
                    Some(d) => find_key(d, k),
                    None => None,
                },
            ids@.len() == final(self).view_sessions().len(),
            forall|i: int| 0 <= i < ids@.len() ==> ids@[i]@ == #[trigger] final(self).view_sessions()[i].0,
    {
        self.sessions.clear();
        let mut ids: Vec<String> = Vec::new();
        let ghost rv = sessions_view(restored@);
        let mut restored = restored;
        let mut n: usize = 0;
        assert(self.view_sessions() =~= Seq::empty());
        assert(rv.skip(0) =~= rv);
        let total: usize = restored.len();
        assert(rv.len() == total);
        while restored.len() > 0
            invariant
                self.wf(),
                rv.len() <= usize::MAX,
                self.path_view() == old(self).path_view(),
                n + restored@.len() == rv.len(),
                sessions_view(restored@) == rv.skip(n as int),
                forall|s: Seq<char>| #[trigger] find_key(rv, s) == match find_key(self.view_sessions(), s) {
                    Some(d) => Some(d),
                    None => find_key(rv.skip(n as int), s),
                },
                ids@.len() == self.view_sessions().len(),
                forall|i: int| 0 <= i < ids@.len() ==> ids@[i]@ == #[trigger] self.view_sessions()[i].0,
            decreases restored.len(),
        {
            let e = restored.remove(0);
            let ghost rest = rv.skip(n as int);
            proof {
                assert(rest[0] == (e.session_id@, data_view(e.data@)));
                assert(rest.drop_first() =~= rv.skip(n + 1));
                assert(sessions_view(restored@) =~= rest.drop_first());
            }
            let ghost sv = self.view_sessions();
            match self.session_index(e.session_id.as_str()) {
                Some(j) => {
                    proof {
                        lemma_find_key_scan(sv, e.session_id@, j as int);
                        assert forall|s: Seq<char>| #[trigger] find_key(rv, s) == match find_key(sv, s) {
                            Some(d) => Some(d),
                            None => find_key(rv.skip(n + 1), s),
                        } by {
                            if s != e.session_id@ {
                                assert(find_key(rest, s) == find_key(rest.drop_first(), s));
                            }
                        }
                    }
                },
                None => {
                    ids.push(e.session_id.clone());
                    let ghost entry_v = (e.session_id@, data_view(e.data@));
                    self.sessions.push(e);
                    proof {
                        let after = self.view_sessions();
                        assert(after =~= sv.push(entry_v));
                        assert forall|s: Seq<char>| #[trigger] find_key(after, s) == (if s == entry_v.0 {
                            Some(entry_v.1)
                        } else {
                            find_key(sv, s)
                        }) by {
                            lemma_find_key_push(sv, entry_v.0, entry_v.1, s);
                        }
                        lemma_find_key_scan(sv, entry_v.0, sv.len() as int);
                        assert forall|s: Seq<char>| #[trigger] find_key(rv, s) == match find_key(after, s) {
                            Some(d) => Some(d),
                            None => find_key(rv.skip(n + 1), s),
                        } by {
                            assert(find_key(after, s) == (if s == entry_v.0 { Some(entry_v.1) } else { find_key(sv, s) }));
                            if s != entry_v.0 {
                                assert(find_key(rest, s) == find_key(rest.drop_first(), s));
                            }
                        }
                        assert forall|a: int, b: int|
                            0 <= a < b < self.sessions@.len() implies #[trigger] self.sessions@[a].session_id@
                            != #[trigger] self.sessions@[b].session_id@ by {
                            if b == sv.len() {
                                assert(sv[a].0 != entry_v.0);
                            } else {
                                assert(sv[a].0 == after[a].0 && sv[b].0 == after[b].0);
                            }
                        }
                        assert forall|i: int| 0 <= i < ids@.len() implies ids@[i]@ == #[trigger] after[i].0 by {
                            if i < sv.len() {
                                assert(after[i] == sv[i]);
                            }
                        }
                    }
                },
            }
            n = n + 1;
        }
        proof {
            assert(rv.skip(n as int) =~= Seq::empty());
        }
        ids
    }
}

/// Reading a value back gives the last one stored under its session and key.
pub proof fn lemma_store_then_get(before: SessionStore, after: SessionStore, session: Seq<char>, key: Seq<char>, value: Seq<char>, s: Seq<char>, k: Seq<char>)
    requires
        forall|s2: Seq<char>, k2: Seq<char>|
            !(s2 == session && k2 == key) ==> #[trigger] after.value(s2, k2) == before.value(s2, k2),
        after.value(session, key) == Some(value),
    ensures
        after.value(s, k) == if s == session && k == key {
            Some(value)
        } else {
            before.value(s, k)
        },
{
}

} // verus!
