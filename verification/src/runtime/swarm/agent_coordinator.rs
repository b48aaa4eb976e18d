//! The swarm coordinator: registered agents and the tasks handed to them.
use vstd::prelude::*;
use crate::keyed::{find_key, lemma_find_key_push, lemma_find_key_remove, lemma_find_key_scan, lemma_find_key_set};
use crate::text::{dec, eq_str, push_dec, push_str};

verus! {

/// Handle representing an agent in the swarm.
#[derive(Debug, Clone)]
pub struct AgentHandle {
    pub id: String,
    pub name: String,
    pub status: String,
    pub capabilities: Vec<String>,
}

/// A task to be executed by the swarm.
#[derive(Debug, Clone)]
pub struct SwarmTask {
    pub id: String,
    pub description: String,
    pub assigned_agent: Option<String>,
    pub status: String,
    pub result: Option<String>,
}

/// The texts of an agent handle: id, name, status, capabilities.
pub type AgentView = (Seq<char>, Seq<char>, Seq<char>, Seq<Seq<char>>);

/// The texts of a task: id, description, assigned agent, status, result.
pub type TaskView = (Seq<char>, Seq<char>, Option<Seq<char>>, Seq<char>, Option<Seq<char>>);

pub open spec fn opt_text(o: Option<String>) -> Option<Seq<char>> {
    match o {
        Some(s) => Some(s@),
        None => None,
    }
}

pub open spec fn agent_view(a: AgentHandle) -> AgentView {
    (a.id@, a.name@, a.status@, a.capabilities@.map_values(|c: String| c@))
}

pub open spec fn task_view(t: SwarmTask) -> TaskView {
    (t.id@, t.description@, opt_text(t.assigned_agent), t.status@, opt_text(t.result))
}

/// Registered agents keyed by id.
pub open spec fn agents_kv(s: Seq<AgentHandle>) -> Seq<(Seq<char>, AgentView)> {
    s.map_values(|a: AgentHandle| (a.id@, agent_view(a)))
}

/// Tasks keyed by id.
pub open spec fn tasks_kv(s: Seq<SwarmTask>) -> Seq<(Seq<char>, TaskView)> {
    s.map_values(|t: SwarmTask| (t.id@, task_view(t)))
}

/// Keys of `s` are distinct.
pub open spec fn unique_keys<V>(s: Seq<(Seq<char>, V)>) -> bool {
    forall|a: int, b: int| 0 <= a < b < s.len() ==> #[trigger] s[a].0 != #[trigger] s[b].0
}

fn copy_opt(o: &Option<String>) -> (c: Option<String>)
    ensures
        opt_text(c) == opt_text(*o),
{
    match o {
        Some(s) => Some(s.clone()),
        None => None,
    }
}

fn copy_agent(a: &AgentHandle) -> (c: AgentHandle)
    ensures
        agent_view(c) == agent_view(*a),
{
    let mut caps: Vec<String> = Vec::new();
    let mut i: usize = 0;
    while i < a.capabilities.len()
        invariant
            i <= a.capabilities.len(),
            caps@.map_values(|c: String| c@) == a.capabilities@.map_values(|c: String| c@).take(i as int),
        decreases a.capabilities.len() - i,
    {
        let ghost before = caps@.map_values(|c: String| c@);
        caps.push(a.capabilities[i].clone());
        assert(caps@.map_values(|c: String| c@) =~= before.push(a.capabilities@[i as int]@));
        assert(a.capabilities@.map_values(|c: String| c@).take(i + 1) =~= before.push(a.capabilities@[i as int]@));
        i = i + 1;
    }
    assert(a.capabilities@.map_values(|c: String| c@).take(a.capabilities.len() as int) =~= a.capabilities@.map_values(
        |c: String| c@,
    ));
    AgentHandle { id: a.id.clone(), name: a.name.clone(), status: a.status.clone(), capabilities: caps }
}

fn copy_task(t: &SwarmTask) -> (c: SwarmTask)
    ensures
        task_view(c) == task_view(*t),
{
    SwarmTask {
        id: t.id.clone(),
        description: t.description.clone(),
        assigned_agent: copy_opt(&t.assigned_agent),
        status: t.status.clone(),
        result: copy_opt(&t.result),
    }
}

/// Coordinates agents in the swarm.
pub struct SwarmCoordinator {
    agents: Vec<AgentHandle>,
    tasks: Vec<SwarmTask>,
    task_counter: u64,
}

impl SwarmCoordinator {
    /// Registered agents by id.
    pub closed spec fn agent_map(&self) -> Seq<(Seq<char>, AgentView)> {
        agents_kv(self.agents@)
    }

    /// Tasks by id.
    pub closed spec fn task_map(&self) -> Seq<(Seq<char>, TaskView)> {
        tasks_kv(self.tasks@)
    }

    /// The number the next task gets.
    pub closed spec fn next_task(&self) -> u64 {
        self.task_counter
    }

    /// The agent registered as `id`.
    pub open spec fn agent(&self, id: Seq<char>) -> Option<AgentView> {
        find_key(self.agent_map(), id)
    }

    /// The task with id `id`.
    pub open spec fn task(&self, id: Seq<char>) -> Option<TaskView> {
        find_key(self.task_map(), id)
    }

    /// Ids are unique among agents and among tasks.
    pub closed spec fn wf(&self) -> bool {
        unique_keys(self.agent_map()) && unique_keys(self.task_map())
    }

    pub fn new() -> (c: Self)
        ensures
            c.wf(),
            c.agent_map().len() == 0,
            c.task_map().len() == 0,
            c.next_task() == 1,
    {
        let c = SwarmCoordinator { agents: Vec::new(), tasks: Vec::new(), task_counter: 1 };
        assert(c.agent_map() =~= Seq::empty());
        assert(c.task_map() =~= Seq::empty());
        c
    }

    fn agent_index(&self, id: &str) -> (r: Option<usize>)
        requires
            self.wf(),
        ensures
            match r {
                Some(i) => i < self.agent_map().len() && self.agent_map()[i as int].0 == id@ && self.agent(id@)
                    == Some(self.agent_map()[i as int].1),
                None => self.agent(id@) is None && forall|j: int| 0 <= j < self.agent_map().len() ==> self.agent_map()[j].0 != id@,
            },
    {
        let ghost m = self.agent_map();
        let mut i: usize = 0;
        while i < self.agents.len()
            invariant
                i <= self.agents.len(),
                m == self.agent_map(),
                forall|j: int| 0 <= j < i ==> m[j].0 != id@,
            decreases self.agents.len() - i,
        {
            if eq_str(self.agents[i].id.as_str(), id) {
                proof {
                    lemma_find_key_scan(m, id@, i as int);
                }
                return Some(i);
            }
            i = i + 1;
        }
        proof {
            lemma_find_key_scan(m, id@, m.len() as int);
        }
        None
    }

    fn task_index(&self, id: &str) -> (r: Option<usize>)
        requires
            self.wf(),
        ensures
            match r {
                Some(i) => i < self.task_map().len() && self.task_map()[i as int].0 == id@ && self.task(id@)
                    == Some(self.task_map()[i as int].1),
                None => self.task(id@) is None && forall|j: int| 0 <= j < self.task_map().len() ==> self.task_map()[j].0 != id@,
            },
    {
        let ghost m = self.task_map();
        let mut i: usize = 0;
        while i < self.tasks.len()
            invariant
                i <= self.tasks.len(),
                m == self.task_map(),
                forall|j: int| 0 <= j < i ==> m[j].0 != id@,
            decreases self.tasks.len() - i,
        {
            if eq_str(self.tasks[i].id.as_str(), id) {
                proof {
                    lemma_find_key_scan(m, id@, i as int);
                }
                return Some(i);
            }
            i = i + 1;
        }
        proof {
            lemma_find_key_scan(m, id@, m.len() as int);
        }
        None
    }

    /// Registers `handle` under its id, replacing an agent with that id.
    pub fn register_agent(&mut self, handle: AgentHandle)
        requires
            old(self).wf(),
        ensures
            final(self).wf(),
            final(self).agent(handle.id@) == Some(agent_view(handle)),
            forall|id: Seq<char>| id != handle.id@ ==> #[trigger] final(self).agent(id) == old(self).agent(id),
            final(self).agent_map().len() == old(self).agent_map().len() + if old(self).agent(handle.id@) is Some {
                0int
            } else {
                1int
            },
            final(self).task_map() == old(self).task_map(),
            final(self).next_task() == old(self).next_task(),
    {
        let ghost m = self.agent_map();
        let ghost key = handle.id@;
        let ghost v = agent_view(handle);
        match self.agent_index(handle.id.as_str()) {
            Some(i) => {
                self.agents.set(i, handle);
                proof {
                    assert(self.agent_map() =~= m.update(i as int, (key, v)));
                    assert forall|q: Seq<char>| #[trigger] find_key(self.agent_map(), q) == (if q == key { Some(v) } else { find_key(m, q) }) by {
                        lemma_find_key_set(m, i as int, key, v, q);
                    }
                    assert forall|a: int, b: int| 0 <= a < b < self.agent_map().len() implies #[trigger] self.agent_map()[a].0
                        != #[trigger] self.agent_map()[b].0 by {
                        assert(self.agent_map()[a].0 == m[a].0 && self.agent_map()[b].0 == m[b].0);
                    }
                }
            },
            None => {
                self.agents.push(handle);
                proof {
                    assert(self.agent_map() =~= m.push((key, v)));
                    assert forall|q: Seq<char>| #[trigger] find_key(self.agent_map(), q) == (if q == key { Some(v) } else { find_key(m, q) }) by {
                        lemma_find_key_push(m, key, v, q);
                    }
                    assert forall|a: int, b: int| 0 <= a < b < self.agent_map().len() implies #[trigger] self.agent_map()[a].0
                        != #[trigger] self.agent_map()[b].0 by {
                        if b == m.len() {
                            assert(m[a].0 != key);
                        } else {
                            assert(self.agent_map()[a].0 == m[a].0 && self.agent_map()[b].0 == m[b].0);
                        }
                    }
                }
            },
        }
    }

    /// Removes the agent `id`; tells whether there was one.
    pub fn unregister_agent(&mut self, id: &str) -> (removed: bool)
        requires
            old(self).wf(),
        ensures
            final(self).wf(),
            removed == old(self).agent(id@) is Some,
            final(self).agent(id@) is None,
            forall|other: Seq<char>| other != id@ ==> #[trigger] final(self).agent(other) == old(self).agent(other),
            final(self).agent_map().len() == old(self).agent_map().len() - if removed {
                1int
            } else {
                0int
            },
            final(self).task_map() == old(self).task_map(),
            final(self).next_task() == old(self).next_task(),
    {
        let ghost m = self.agent_map();
        match self.agent_index(id) {
            Some(i) => {
                self.agents.remove(i);
                proof {
                    assert(self.agent_map() =~= m.remove(i as int));
                    assert forall|q: Seq<char>| #[trigger] find_key(self.agent_map(), q) == (if q == m[i as int].0 { None } else { find_key(m, q) }) by {
                        lemma_find_key_remove(m, i as int, q);
                    }
                    assert forall|a: int, b: int| 0 <= a < b < self.agent_map().len() implies #[trigger] self.agent_map()[a].0
                        != #[trigger] self.agent_map()[b].0 by {
                        let (a2, b2) = (if a < i { a } else { a + 1 }, if b < i { b } else { b + 1 });
                        assert(self.agent_map()[a].0 == m[a2].0 && self.agent_map()[b].0 == m[b2].0);
                    }
                }
                true
            },
            None => false,
        }
    }

    /// The agent registered as `id`.
    pub fn get_agent(&self, id: &str) -> (r: Option<AgentHandle>)
        requires
            self.wf(),
        ensures
            match r {
                Some(a) => self.agent(id@) == Some(agent_view(a)),
                None => self.agent(id@) is None,
            },
    {
        match self.agent_index(id) {
            Some(i) => Some(copy_agent(&self.agents[i])),
            None => None,
        }
    }

    /// The registered agents, in registration order.
    pub fn list_agents(&self) -> (r: Vec<AgentHandle>)
        ensures
            r@.map_values(|a: AgentHandle| agent_view(a)) == self.agent_map().map_values(
                |e: (Seq<char>, AgentView)| e.1,
            ),
    {
        let mut r: Vec<AgentHandle> = Vec::new();
        let mut i: usize = 0;
        while i < self.agents.len()
            invariant
                i <= self.agents.len(),
                r@.map_values(|a: AgentHandle| agent_view(a)) == self.agents@.take(i as int).map_values(
                    |a: AgentHandle| agent_view(a),
                ),
            decreases self.agents.len() - i,
        {
            let ghost before = r@;
            let c = copy_agent(&self.agents[i]);
            r.push(c);
            assert(r@.map_values(|a: AgentHandle| agent_view(a)) =~= before.map_values(|a: AgentHandle| agent_view(a)).push(
                agent_view(self.agents@[i as int]),
            ));
            assert(self.agents@.take(i + 1) =~= self.agents@.take(i as int).push(self.agents@[i as int]));
            assert(r@.map_values(|a: AgentHandle| agent_view(a)) =~= self.agents@.take(i + 1).map_values(
                |a: AgentHandle| agent_view(a),
            ));
            i = i + 1;
        }
        assert(self.agents@.take(self.agents.len() as int) =~= self.agents@);
        assert(r@.map_values(|a: AgentHandle| agent_view(a)) =~= self.agent_map().map_values(
            |e: (Seq<char>, AgentView)| e.1,
        ));
        r
    }

    /// Creates a pending task `task_<n>` for `description`, `n` being the task
    /// counter (which then advances, wrapping after `u64::MAX`); a task with that
    /// id is replaced.
    pub fn create_task(&mut self, description: &str) -> (t: SwarmTask)
        requires
            old(self).wf(),
        ensures
            final(self).wf(),
            t.id@ == "task_"@ + dec(old(self).next_task() as nat),
            t.description@ == description@,
            t.assigned_agent is None,
            t.status@ == "pending"@,
            t.result is None,
            final(self).task(t.id@) == Some(task_view(t)),
            forall|id: Seq<char>| id != t.id@ ==> #[trigger] final(self).task(id) == old(self).task(id),
            final(self).next_task() == old(self).next_task().wrapping_add(1),
            final(self).agent_map() == old(self).agent_map(),
    {
        let n = self.task_counter;
        self.task_counter = self.task_counter.wrapping_add(1);
        let mut id = String::new();
        push_str(&mut id, "task_");
        push_dec(&mut id, n);
        let task = SwarmTask {
            id,
            description: description.to_owned(),
            assigned_agent: None,
            status: "pending".to_owned(),
            result: None,
        };
        let ghost m = self.task_map();
        let ghost key = task.id@;
        let ghost v = task_view(task);
        let kept = copy_task(&task);
        match self.task_index(task.id.as_str()) {
            Some(i) => {
                self.tasks.set(i, kept);
                proof {
                    assert(self.task_map() =~= m.update(i as int, (key, v)));
                    assert forall|q: Seq<char>| #[trigger] find_key(self.task_map(), q) == (if q == key { Some(v) } else { find_key(m, q) }) by {
                        lemma_find_key_set(m, i as int, key, v, q);
                    }
                    assert forall|a: int, b: int| 0 <= a < b < self.task_map().len() implies #[trigger] self.task_map()[a].0
                        != #[trigger] self.task_map()[b].0 by {
                        assert(self.task_map()[a].0 == m[a].0 && self.task_map()[b].0 == m[b].0);
                    }
                }
            },
            None => {
                self.tasks.push(kept);
                proof {
                    assert(self.task_map() =~= m.push((key, v)));
                    assert forall|q: Seq<char>| #[trigger] find_key(self.task_map(), q) == (if q == key { Some(v) } else { find_key(m, q) }) by {
                        lemma_find_key_push(m, key, v, q);
                    }
                    assert forall|a: int, b: int| 0 <= a < b < self.task_map().len() implies #[trigger] self.task_map()[a].0
                        != #[trigger] self.task_map()[b].0 by {
                        if b == m.len() {
                            assert(m[a].0 != key);
                        } else {
                            assert(self.task_map()[a].0 == m[a].0 && self.task_map()[b].0 == m[b].0);
                        }
                    }
                }
            },
        }
        task
    }

    /// Replaces the task at `i` by `t`, which keeps its id.
    fn replace_task(&mut self, i: usize, t: SwarmTask)
        requires
            old(self).wf(),
            i < old(self).task_map().len(),
            t.id@ == old(self).task_map()[i as int].0,
            old(self).task(t.id@) == Some(old(self).task_map()[i as int].1),
        ensures
            final(self).wf(),
            final(self).task(t.id@) == Some(task_view(t)),
            forall|id: Seq<char>| id != t.id@ ==> #[trigger] final(self).task(id) == old(self).task(id),
            final(self).task_map().len() == old(self).task_map().len(),
            final(self).agent_map() == old(self).agent_map(),
            final(self).next_task() == old(self).next_task(),
    {
        let ghost m = self.task_map();
        let ghost key = t.id@;
        let ghost v = task_view(t);
        proof {
            assert forall|j: int| 0 <= j < i implies m[j].0 != key by {
                assert(m[j].0 != m[i as int].0);
            }
        }
        self.tasks.set(i, t);
        proof {
            assert(self.task_map() =~= m.update(i as int, (key, v)));
            assert forall|q: Seq<char>| #[trigger] find_key(self.task_map(), q) == (if q == key { Some(v) } else { find_key(m, q) }) by {
                lemma_find_key_set(m, i as int, key, v, q);
            }
            assert forall|a: int, b: int| 0 <= a < b < self.task_map().len() implies #[trigger] self.task_map()[a].0
                != #[trigger] self.task_map()[b].0 by {
                assert(self.task_map()[a].0 == m[a].0 && self.task_map()[b].0 == m[b].0);
            }
        }
    }

    /// Assigns the task `task_id` to `agent_id`; tells whether the task exists.
    pub fn assign_task(&mut self, task_id: &str, agent_id: &str) -> (found: bool)
        requires
            old(self).wf(),
        ensures
            final(self).wf(),
            found == old(self).task(task_id@) is Some,
            found ==> (final(self).task(task_id@) matches Some(t) && old(self).task(task_id@) matches Some(o) && t
                == (o.0, o.1, Some(agent_id@), "assigned"@, o.4)),
            !found ==> final(self).task(task_id@) is None,
            forall|id: Seq<char>| id != task_id@ ==> #[trigger] final(self).task(id) == old(self).task(id),
            final(self).agent_map() == old(self).agent_map(),
            final(self).next_task() == old(self).next_task(),
    {
        match self.task_index(task_id) {
            Some(i) => {
                let mut t = copy_task(&self.tasks[i]);
                t.assigned_agent = Some(agent_id.to_owned());
                t.status = "assigned".to_owned();
                self.replace_task(i, t);
                true
            },
            None => false,
        }
    }

    /// Completes the task `task_id` with `result`; tells whether the task exists.
    pub fn complete_task(&mut self, task_id: &str, result: &str) -> (found: bool)
        requires
            old(self).wf(),
        ensures
            final(self).wf(),
            found == old(self).task(task_id@) is Some,
            found ==> (final(self).task(task_id@) matches Some(t) && old(self).task(task_id@) matches Some(o) && t
                == (o.0, o.1, o.2, "completed"@, Some(result@))),
            !found ==> final(self).task(task_id@) is None,
            forall|id: Seq<char>| id != task_id@ ==> #[trigger] final(self).task(id) == old(self).task(id),
            final(self).agent_map() == old(self).agent_map(),
            final(self).next_task() == old(self).next_task(),
    {
        match self.task_index(task_id) {
            Some(i) => {
                let mut t = copy_task(&self.tasks[i]);
                t.status = "completed".to_owned();
                t.result = Some(result.to_owned());
                self.replace_task(i, t);
                true
            },
            None => false,
        }
    }

    /// The task `id`.
    pub fn get_task(&self, id: &str) -> (r: Option<SwarmTask>)
        requires
            self.wf(),
        ensures
            match r {
                Some(t) => self.task(id@) == Some(task_view(t)),
                None => self.task(id@) is None,
            },
    {
        match self.task_index(id) {
            Some(i) => Some(copy_task(&self.tasks[i])),
            None => None,
        }
    }

    pub fn agent_count(&self) -> (n: usize)
        ensures
            n == self.agent_map().len(),
    {
        self.agents.len()
    }

    pub fn task_count(&self) -> (n: usize)
        ensures
            n == self.task_map().len(),
    {
        self.tasks.len()
    }
}

} // verus!
