//! The diagnostic engine: registered subsystems and the health report over them.
use vstd::prelude::*;
use crate::text::{eq_str, push_str};

verus! {

/// Health of a subsystem within a diagnostic report.
#[derive(Debug, Clone)]
pub struct SubsystemHealth {
    pub name: String,
    pub status: String,
    pub details: String,
}

/// Full system health report, stamped with the time it was made (RFC 3339).
#[derive(Debug, Clone)]
pub struct SystemHealthReport {
    pub timestamp: String,
    pub overall_status: String,
    pub subsystems: Vec<SubsystemHealth>,
    pub recommendation: String,
}

/// The registered subsystem names, each with its status, each name once.
pub open spec fn registry_view(rs: Seq<(String, String)>) -> Seq<(Seq<char>, Seq<char>)> {
    rs.map_values(|r: (String, String)| (r.0@, r.1@))
}

/// Whether the name `n` is registered in `v`.
pub open spec fn registered(v: Seq<(Seq<char>, Seq<char>)>, n: Seq<char>) -> bool {
    exists|i: int| 0 <= i < v.len() && #[trigger] v[i].0 == n
}

/// Names in `v` are distinct.
pub open spec fn distinct_names(v: Seq<(Seq<char>, Seq<char>)>) -> bool {
    forall|i: int, j: int| 0 <= i < j < v.len() ==> #[trigger] v[i].0 != #[trigger] v[j].0
}

/// Diagnostic engine for analyzing system health.
pub struct DiagnosticEngine {
    subsystems: Vec<(String, String)>,
}

impl DiagnosticEngine {
    /// Registered subsystems with their statuses, in registration order.
    pub closed spec fn registry(&self) -> Seq<(Seq<char>, Seq<char>)> {
        registry_view(self.subsystems@)
    }

    /// Each subsystem is registered once.
    pub open spec fn wf(&self) -> bool {
        distinct_names(self.registry())
    }

    pub fn new() -> (e: Self)
        ensures
            e.wf(),
            distinct_names(e.registry()),
            e.registry().len() == 0,
    {
        let e = DiagnosticEngine { subsystems: Vec::new() };
        assert(e.registry() =~= Seq::<(Seq<char>, Seq<char>)>::empty());
        e
    }

    /// Registers `name` as healthy; a name registered before is marked healthy again.
    pub fn register_subsystem(&mut self, name: &str)
        requires
            old(self).wf(),
        ensures
            final(self).wf(),
            distinct_names(final(self).registry()),
            registered(final(self).registry(), name@),
            forall|i: int|
                0 <= i < final(self).registry().len() && #[trigger] final(self).registry()[i].0 == name@
                    ==> final(self).registry()[i].1 == "healthy"@,
            registered(old(self).registry(), name@) ==> final(self).registry().len() == old(self).registry().len(),
            !registered(old(self).registry(), name@) ==> final(self).registry() == old(self).registry().push(
                (name@, "healthy"@),
            ),
            forall|n: Seq<char>| n != name@ ==> (registered(final(self).registry(), n) == registered(old(self).registry(), n)),
    {
        let ghost before = self.registry();
        let mut i: usize = 0;
        while i < self.subsystems.len()
            invariant
                i <= self.subsystems.len(),
                before == self.registry(),
                before == old(self).registry(),
                distinct_names(before),
                forall|j: int| 0 <= j < i ==> self.registry()[j].0 != name@,
            decreases self.subsystems.len() - i,
        {
            if eq_str(self.subsystems[i].0.as_str(), name) {
                self.subsystems.set(i, (name.to_owned(), "healthy".to_owned()));
                proof {
                    let after = self.registry();
                    assert(after =~= before.update(i as int, (name@, "healthy"@)));
                    assert forall|a: int, b: int| 0 <= a < b < after.len() implies #[trigger] after[a].0
                        != #[trigger] after[b].0 by {
                        assert(after[a].0 == before[a].0 && after[b].0 == before[b].0);
                    }
                    assert forall|n: Seq<char>| n != name@ implies (registered(after, n) == registered(before, n)) by {
                        if registered(before, n) {
                            let k = choose|k: int| 0 <= k < before.len() && #[trigger] before[k].0 == n;
                            assert(after[k].0 == n);
                        }
                        if registered(after, n) {
                            let k = choose|k: int| 0 <= k < after.len() && #[trigger] after[k].0 == n;
                            assert(before[k].0 == n);
                        }
                    }
                    assert forall|j: int| 0 <= j < after.len() && #[trigger] after[j].0 == name@ implies after[j].1
                        == "healthy"@ by {
                        if j != i {
                            assert(before[j].0 == after[j].0);
                            assert(before[i as int].0 == name@);
                        }
                    }
                    assert(after[i as int].0 == name@);
                    assert(before[i as int].0 == name@);
                    assert(registered(before, name@));
                    assert(after.len() == before.len());
                }
                return;
            }
            i = i + 1;
        }
        self.subsystems.push((name.to_owned(), "healthy".to_owned()));
        proof {
            let after = self.registry();
            assert(after =~= before.push((name@, "healthy"@)));
            assert(!registered(before, name@));
            assert forall|n: Seq<char>| n != name@ implies (registered(after, n) == registered(before, n)) by {
                if registered(before, n) {
                    let k = choose|k: int| 0 <= k < before.len() && #[trigger] before[k].0 == n;
                    assert(after[k].0 == n);
                }
                if registered(after, n) {
                    let k = choose|k: int| 0 <= k < after.len() && #[trigger] after[k].0 == n;
                    assert(k < before.len());
                    assert(before[k].0 == n);
                }
            }
            assert(after[before.len() as int].0 == name@);
        }
    }

    pub fn get_subsystem_count(&self) -> (n: usize)
        ensures
            n == self.registry().len(),
    {
        self.subsystems.len()
    }

    /// The health report, stamped `timestamp`: one entry per subsystem, healthy
    /// overall when every subsystem is.
    pub fn run_diagnostics(&self, timestamp: String) -> (r: SystemHealthReport)
        ensures
            r.timestamp@ == timestamp@,
            r.subsystems@.len() == self.registry().len(),
            forall|i: int|
                0 <= i < r.subsystems@.len() ==> {
                    let s = #[trigger] r.subsystems@[i];
                    let e = self.registry()[i];
                    &&& s.name@ == e.0
                    &&& s.status@ == e.1
                    &&& s.details@ == "Subsystem '"@ + e.0 + "' is "@ + e.1
                },
            (forall|i: int| 0 <= i < self.registry().len() ==> #[trigger] self.registry()[i].1 == "healthy"@)
                ==> r.overall_status@ == "healthy"@ && r.recommendation@ == "All systems operational"@,
            !(forall|i: int| 0 <= i < self.registry().len() ==> #[trigger] self.registry()[i].1 == "healthy"@)
                ==> r.overall_status@ == "degraded"@ && r.recommendation@ == "Review degraded subsystems"@,
    {
        let mut subs: Vec<SubsystemHealth> = Vec::new();
        let mut all_healthy = true;
        let mut i: usize = 0;
        while i < self.subsystems.len()
            invariant
                i <= self.subsystems.len(),
                subs@.len() == i,
                all_healthy == (forall|j: int| 0 <= j < i ==> #[trigger] self.registry()[j].1 == "healthy"@),
                forall|j: int|
                    0 <= j < i ==> {
                        let s = #[trigger] subs@[j];
                        let e = self.registry()[j];
                        &&& s.name@ == e.0
                        &&& s.status@ == e.1
                        &&& s.details@ == "Subsystem '"@ + e.0 + "' is "@ + e.1
                    },
            decreases self.subsystems.len() - i,
        {
            let (name, status) = (&self.subsystems[i].0, &self.subsystems[i].1);
            let mut details = String::new();
            push_str(&mut details, "Subsystem '");
            push_str(&mut details, name.as_str());
            push_str(&mut details, "' is ");
            push_str(&mut details, status.as_str());
            assert(self.registry()[i as int].1 == status@ && self.registry()[i as int].0 == name@);
            if !eq_str(status.as_str(), "healthy") {
                all_healthy = false;
            }
            subs.push(SubsystemHealth { name: name.clone(), status: status.clone(), details });
            i = i + 1;
        }
        SystemHealthReport {
            timestamp,
            overall_status: if all_healthy {
                "healthy".to_owned()
            } else {
                "degraded".to_owned()
            },
            subsystems: subs,
            recommendation: if all_healthy {
                "All systems operational".to_owned()
            } else {
                "Review degraded subsystems".to_owned()
            },
        }
    }
}

impl Default for DiagnosticEngine {
    fn default() -> (e: Self)
        ensures
            e.wf(),
            e.registry().len() == 0,
    {
        DiagnosticEngine::new()
    }
}

} // verus!
