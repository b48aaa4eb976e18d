//! Quality gates grouped by phase, and the verdict each phase reaches.
use vstd::prelude::*;
use crate::clock::now_rfc3339;
use crate::keyed::{find_key, lemma_find_key_scan};
use crate::text::{dec, eq_str, push_dec, push_str};

verus! {

/// Result of a single quality gate check.
#[derive(Debug, Clone)]
pub struct GateResult {
    pub gate_name: String,
    pub passed: bool,
    pub severity: String,
    pub details: String,
    /// When the check ran, as an RFC 3339 timestamp.
    pub timestamp: String,
}

/// Context handed to quality gates. Each metadata entry is a key and, where the
/// value under it is an unsigned integer, that integer.
#[derive(Debug, Clone)]
pub struct GateContext {
    pub phase: u32,
    pub artifact_type: String,
    pub artifact_path: String,
    pub metadata: Vec<(String, Option<u64>)>,
}

impl GateContext {
    /// The metadata as keys and values.
    pub open spec fn meta(&self) -> Seq<(Seq<char>, Option<u64>)> {
        self.metadata@.map_values(|e: (String, Option<u64>)| (e.0@, e.1))
    }
}

impl Default for GateContext {
    fn default() -> (c: Self)
        ensures
            c.phase == 0,
            c.artifact_type@ == Seq::<char>::empty(),
            c.artifact_path@ == Seq::<char>::empty(),
            c.metadata@.len() == 0,
    {
        GateContext {
            phase: 0,
            artifact_type: String::new(),
            artifact_path: String::new(),
            metadata: Vec::new(),
        }
    }
}

/// What a gate checks of its context.
#[derive(Debug, Clone)]
pub enum GateCheck {
    /// Passes when the metadata holds the key.
    HasKey(String),
    /// Passes when the value under the key is an unsigned integer of at least the bound.
    AtLeast(String, u64),
    /// Always gives the stated verdict.
    Fixed(bool),
}

impl GateCheck {
    /// Whether the check passes on metadata `md`.
    pub open spec fn holds(&self, md: Seq<(Seq<char>, Option<u64>)>) -> bool {
        match self {
            GateCheck::HasKey(k) => find_key(md, k@) is Some,
            GateCheck::AtLeast(k, n) => match find_key(md, k@) {
                Some(Some(c)) => c >= *n,
                _ => false,
            },
            GateCheck::Fixed(b) => *b,
        }
    }

    /// The key the check reads (empty for a fixed verdict).
    pub open spec fn key(&self) -> Seq<char> {
        match self {
            GateCheck::HasKey(k) => k@,
            GateCheck::AtLeast(k, _) => k@,
            GateCheck::Fixed(_) => Seq::empty(),
        }
    }

    /// Whether the check passes on the context's metadata.
    pub fn evaluate(&self, ctx: &GateContext) -> (b: bool)
        ensures
            b == self.holds(ctx.meta()),
    {
        match self {
            GateCheck::HasKey(k) => lookup(&ctx.metadata, k.as_str()).is_some(),
            GateCheck::AtLeast(k, n) => match lookup(&ctx.metadata, k.as_str()) {
                Some(Some(c)) => c >= *n,
                _ => false,
            },
            GateCheck::Fixed(b) => *b,
        }
    }
}

/// The value under the first metadata entry keyed `key`.
fn lookup(md: &Vec<(String, Option<u64>)>, key: &str) -> (r: Option<Option<u64>>)
    ensures
        r == find_key(md@.map_values(|e: (String, Option<u64>)| (e.0@, e.1)), key@),
{
    let ghost m = md@.map_values(|e: (String, Option<u64>)| (e.0@, e.1));
    let mut i: usize = 0;
    while i < md.len()
        invariant
            i <= md.len(),
            m == md@.map_values(|e: (String, Option<u64>)| (e.0@, e.1)),
            forall|j: int| 0 <= j < i ==> m[j].0 != key@,
        decreases md.len() - i,
    {
        if eq_str(md[i].0.as_str(), key) {
            proof {
                lemma_find_key_scan(m, key@, i as int);
            }
            return Some(md[i].1);
        }
        i = i + 1;
    }
    proof {
        lemma_find_key_scan(m, key@, i as int);
    }
    None
}

/// A quality gate: its name, phase, severity, description and check.
#[derive(Debug, Clone)]
pub struct BasicQualityGate {
    pub name: String,
    pub phase: u32,
    pub severity: String,
    pub description: String,
    pub check: GateCheck,
}

/// The details line of a gate's result.
pub open spec fn details_text(name: Seq<char>, passed: bool, description: Seq<char>) -> Seq<char> {
    if passed {
        "Gate '"@ + name + "' passed"@
    } else {
        "Gate '"@ + name + "' failed: "@ + description
    }
}

/// `r` is what gate `g` reports on metadata `md` (the timestamp aside).
pub open spec fn reports(r: GateResult, g: BasicQualityGate, md: Seq<(Seq<char>, Option<u64>)>) -> bool {
    &&& r.gate_name@ == g.name@
    &&& r.passed == g.check.holds(md)
    &&& r.severity@ == g.severity@
    &&& r.details@ == details_text(g.name@, r.passed, g.description@)
}

impl BasicQualityGate {
    /// A gate with the given name, phase, severity, description and check.
    pub fn new(name: &str, phase: u32, severity: &str, description: &str, check: GateCheck) -> (g: Self)
        ensures
            g.name@ == name@,
            g.phase == phase,
            g.severity@ == severity@,
            g.description@ == description@,
            g.check == check,
    {
        BasicQualityGate {
            name: name.to_string(),
            phase,
            severity: severity.to_string(),
            description: description.to_string(),
            check,
        }
    }

    /// Applies this gate's rule to `context`.
    pub fn check(&self, context: &GateContext) -> (r: GateResult)
        ensures
            reports(r, *self, context.meta()),
    {
        let passed = self.check.evaluate(context);
        let mut details = String::new();
        push_str(&mut details, "Gate '");
        push_str(&mut details, self.name.as_str());
        if passed {
            push_str(&mut details, "' passed");
        } else {
            push_str(&mut details, "' failed: ");
            push_str(&mut details, self.description.as_str());
        }
        GateResult {
            gate_name: self.name.clone(),
            passed,
            severity: self.severity.clone(),
            details,
            timestamp: now_rfc3339(),
        }
    }
}

/// The gates of `gs` that belong to `phase`, in registration order.
pub open spec fn phase_gates(gs: Seq<BasicQualityGate>, phase: u32) -> Seq<BasicQualityGate>
    decreases gs.len(),
{
    if gs.len() == 0 {
        Seq::empty()
    } else if gs.last().phase == phase {
        phase_gates(gs.drop_last(), phase).push(gs.last())
    } else {
        phase_gates(gs.drop_last(), phase)
    }
}

/// How many of the gates `gs` pass on metadata `md`.
pub open spec fn passed_count(gs: Seq<BasicQualityGate>, md: Seq<(Seq<char>, Option<u64>)>) -> nat
    decreases gs.len(),
{
    if gs.len() == 0 {
        0
    } else {
        passed_count(gs.drop_last(), md) + if gs.last().check.holds(md) {
            1nat
        } else {
            0nat
        }
    }
}

/// Whether a gate of severity "blocking" among `gs` fails on metadata `md`.
pub open spec fn blocking_failure(gs: Seq<BasicQualityGate>, md: Seq<(Seq<char>, Option<u64>)>) -> bool {
    exists|j: int| 0 <= j < gs.len() && !gs[j].check.holds(md) && gs[j].severity@ == "blocking"@
}

/// The summary line of a phase.
pub open spec fn summary_text(phase: u32, passed: nat, total: nat, blocking: bool) -> Seq<char> {
    "Phase "@ + dec(phase as nat) + " Quality Gates: "@ + dec(passed) + "/"@ + dec(total)
        + " passed"@ + if blocking {
        " (BLOCKING FAILURE)"@
    } else {
        Seq::empty()
    }
}

proof fn lemma_passed_count_bound(gs: Seq<BasicQualityGate>, md: Seq<(Seq<char>, Option<u64>)>)
    ensures
        passed_count(gs, md) <= gs.len(),
    decreases gs.len(),
{
    if gs.len() > 0 {
        lemma_passed_count_bound(gs.drop_last(), md);
    }
}

proof fn lemma_phase_gates_bound(gs: Seq<BasicQualityGate>, phase: u32)
    ensures
        phase_gates(gs, phase).len() <= gs.len(),
        forall|j: int| 0 <= j < phase_gates(gs, phase).len() ==> (#[trigger] phase_gates(gs, phase)[j]).phase == phase,
        forall|i: int| 0 <= i < gs.len() && gs[i].phase == phase ==> phase_gates(gs, phase).contains(gs[i]),
    decreases gs.len(),
{
    if gs.len() > 0 {
        lemma_phase_gates_bound(gs.drop_last(), phase);
        let rest = phase_gates(gs.drop_last(), phase);
        assert forall|i: int| 0 <= i < gs.len() && gs[i].phase == phase implies phase_gates(gs, phase).contains(gs[i]) by {
            if i < gs.len() - 1 {
                assert(gs.drop_last()[i] == gs[i]);
                let k = choose|k: int| 0 <= k < rest.len() && rest[k] == gs[i];
                if gs.last().phase == phase {
                    assert(rest.push(gs.last())[k] == gs[i]);
                }
            } else {
                assert(rest.push(gs.last())[rest.len() as int] == gs[i]);
            }
        }
    }
}

/// Result of executing a full phase of quality gates.
#[derive(Debug, Clone)]
pub struct PhaseResult {
    pub phase: u32,
    pub total: usize,
    pub passed: usize,
    pub failed: usize,
    pub blocking_failed: bool,
    pub results: Vec<GateResult>,
    pub summary: String,
}

/// `r` is the verdict of phase `phase` over gates `gs` on metadata `md`.
pub open spec fn is_phase_result(
    r: PhaseResult,
    phase: u32,
    gs: Seq<BasicQualityGate>,
    md: Seq<(Seq<char>, Option<u64>)>,
) -> bool {
    let pg = phase_gates(gs, phase);
    &&& r.phase == phase
    &&& r.total == pg.len()
    &&& r.results@.len() == pg.len()
    &&& forall|j: int| 0 <= j < pg.len() ==> reports(#[trigger] r.results@[j], pg[j], md)
    &&& r.passed == passed_count(pg, md)
    &&& r.failed == pg.len() - passed_count(pg, md)
    &&& r.blocking_failed == blocking_failure(pg, md)
    &&& r.summary@ == summary_text(phase, passed_count(pg, md), pg.len(), blocking_failure(pg, md))
}

/// Runs quality gates organized by phase; within a phase, gates run in the order
/// they were registered.
pub struct QualityGateRunner {
    gates: Vec<BasicQualityGate>,
}

/// `gs` is the built-in list of gates.
pub open spec fn is_default_list(gs: Seq<BasicQualityGate>) -> bool {
    &&& gs.len() == 7
    &&& gs[0].name@ == "PlanCompletenessGate"@ && gs[0].phase == 1 && gs[0].severity@ == "blocking"@
    &&& gs[0].description@ == "Every improvement must have all required fields"@
    &&& gs[0].check is HasKey && gs[0].check.key() == "complete"@
    &&& gs[1].name@ == "PlanMinImprovementsGate"@ && gs[1].phase == 1 && gs[1].severity@ == "blocking"@
    &&& gs[1].description@ == "Plan must contain at least 3 improvements"@
    &&& (gs[1].check matches GateCheck::AtLeast(_, n) && n == 3) && gs[1].check.key() == "improvement_count"@
    &&& gs[2].name@ == "CompilationGate"@ && gs[2].phase == 2 && gs[2].severity@ == "blocking"@
    &&& gs[2].description@ == "Code must compile without errors"@ && gs[2].check == GateCheck::Fixed(true)
    &&& gs[3].name@ == "RustTestGate"@ && gs[3].phase == 2 && gs[3].severity@ == "blocking"@
    &&& gs[3].description@ == "All Rust tests must pass"@ && gs[3].check == GateCheck::Fixed(true)
    &&& gs[4].name@ == "PythonTestGate"@ && gs[4].phase == 2 && gs[4].severity@ == "blocking"@
    &&& gs[4].description@ == "All Python tests must pass"@ && gs[4].check == GateCheck::Fixed(true)
    &&& gs[5].name@ == "NoRegressionGate"@ && gs[5].phase == 3 && gs[5].severity@ == "blocking"@
    &&& gs[5].description@ == "Performance must not regress"@ && gs[5].check == GateCheck::Fixed(true)
    &&& gs[6].name@ == "ImprovementGate"@ && gs[6].phase == 3 && gs[6].severity@ == "warning"@
    &&& gs[6].description@ == "Metrics must show improvement"@ && gs[6].check == GateCheck::Fixed(true)
}

impl QualityGateRunner {
    /// The registered gates, in registration order.
    pub closed spec fn gates(&self) -> Seq<BasicQualityGate> {
        self.gates@
    }

    /// A runner holding the built-in gates of the three phases.
    pub fn new() -> (r: Self)
        ensures
            is_default_list(r.gates()),
    {
        let mut r = QualityGateRunner { gates: Vec::new() };
        r.register_gate(BasicQualityGate::new(
            "PlanCompletenessGate", 1, "blocking",
            "Every improvement must have all required fields",
            GateCheck::HasKey("complete".to_string()),
        ));
        r.register_gate(BasicQualityGate::new(
            "PlanMinImprovementsGate", 1, "blocking",
            "Plan must contain at least 3 improvements",
            GateCheck::AtLeast("improvement_count".to_string(), 3),
        ));
        r.register_gate(BasicQualityGate::new(
            "CompilationGate", 2, "blocking",
            "Code must compile without errors",
            GateCheck::Fixed(true),
        ));
        r.register_gate(BasicQualityGate::new(
            "RustTestGate", 2, "blocking",
            "All Rust tests must pass",
            GateCheck::Fixed(true),
        ));
        r.register_gate(BasicQualityGate::new(
            "PythonTestGate", 2, "blocking",
            "All Python tests must pass",
            GateCheck::Fixed(true),
        ));
        r.register_gate(BasicQualityGate::new(
            "NoRegressionGate", 3, "blocking",
            "Performance must not regress",
            GateCheck::Fixed(true),
        ));
        r.register_gate(BasicQualityGate::new(
            "ImprovementGate", 3, "warning",
            "Metrics must show improvement",
            GateCheck::Fixed(true),
        ));
        r
    }

    /// Adds a gate after those already registered.
    pub fn register_gate(&mut self, gate: BasicQualityGate)
        ensures
            final(self).gates() == old(self).gates().push(gate),
    {
        self.gates.push(gate);
    }

    /// Runs every gate of `phase` on `context` and sums up the outcome.
    pub fn run_phase(&self, phase: u32, context: &GateContext) -> (r: PhaseResult)
        ensures
            is_phase_result(r, phase, self.gates(), context.meta()),
    {
        let ghost md = context.meta();
        let ghost gs = self.gates@;
        let mut results: Vec<GateResult> = Vec::new();
        let mut passed: usize = 0;
        let mut blocking = false;
        let mut i: usize = 0;
        while i < self.gates.len()
            invariant
                i <= self.gates.len(),
                gs == self.gates@,
                md == context.meta(),
                results@.len() == phase_gates(gs.take(i as int), phase).len(),
                forall|j: int| 0 <= j < results@.len() ==> reports(#[trigger] results@[j], phase_gates(gs.take(i as int), phase)[j], md),
                passed == passed_count(phase_gates(gs.take(i as int), phase), md),
                passed <= results@.len(),
                blocking == blocking_failure(phase_gates(gs.take(i as int), phase), md),
            decreases self.gates.len() - i,
        {
            let ghost before = phase_gates(gs.take(i as int), phase);
            assert(gs.take(i + 1).drop_last() == gs.take(i as int));
            assert(gs.take(i + 1).last() == gs[i as int]);
            proof {
                lemma_phase_gates_bound(gs.take(i as int), phase);
            }
            let gate = &self.gates[i];
            if gate.phase == phase {
                let res = gate.check(context);
                let ok = res.passed;
                let is_blocking = eq_str(res.severity.as_str(), "blocking");
                results.push(res);
                if ok {
                    passed = passed + 1;
                }
                if !ok && is_blocking {
                    blocking = true;
                }
                proof {
                    let after = before.push(gs[i as int]);
                    assert(phase_gates(gs.take(i + 1), phase) == after);
                    assert(after.drop_last() == before);
                    assert forall|j: int| 0 <= j < results@.len() implies reports(#[trigger] results@[j], after[j], md) by {
                        if j < before.len() {
                            assert(after[j] == before[j]);
                        }
                    }
                    if blocking_failure(after, md) {
                        let j = choose|j: int| 0 <= j < after.len() && !after[j].check.holds(md) && after[j].severity@ == "blocking"@;
                        if j < before.len() {
                            assert(before[j] == after[j]);
                        }
                    }
                    if blocking_failure(before, md) {
                        let j = choose|j: int| 0 <= j < before.len() && !before[j].check.holds(md) && before[j].severity@ == "blocking"@;
                        assert(after[j] == before[j]);
                    }
                    if !ok && is_blocking {
                        assert(after[before.len() as int] == gs[i as int]);
                    }
                }
            } else {
                assert(phase_gates(gs.take(i + 1), phase) == before);
            }
            i = i + 1;
        }
        assert(gs.take(i as int) == gs);
        let total = results.len();
        let failed = total - passed;
        let mut summary = String::new();
        push_str(&mut summary, "Phase ");
        push_dec(&mut summary, phase as u64);
        push_str(&mut summary, " Quality Gates: ");
        push_dec(&mut summary, passed as u64);
        push_str(&mut summary, "/");
        push_dec(&mut summary, total as u64);
        push_str(&mut summary, " passed");
        if blocking {
            push_str(&mut summary, " (BLOCKING FAILURE)");
        }
        assert(summary@ =~= summary_text(phase, passed as nat, total as nat, blocking));
        PhaseResult { phase, total, passed, failed, blocking_failed: blocking, results, summary }
    }

    /// The smallest phase of a registered gate above `lower` (any phase when
    /// `lower` is `None`).
    fn lowest_phase_above(&self, lower: Option<u32>) -> (r: Option<u32>)
        ensures
            r is None <==> forall|i: int| 0 <= i < self.gates@.len() ==> !above(#[trigger] self.gates@[i].phase, lower),
            r matches Some(p) ==> above(p, lower) && has_phase(self.gates@, p),
            r matches Some(p) ==> forall|i: int| 0 <= i < self.gates@.len() && above(#[trigger] self.gates@[i].phase, lower) ==> p <= self.gates@[i].phase,
    {
        let mut best: Option<u32> = None;
        let mut i: usize = 0;
        while i < self.gates.len()
            invariant
                i <= self.gates.len(),
                best is None <==> forall|j: int| 0 <= j < i ==> !above(#[trigger] self.gates@[j].phase, lower),
                best matches Some(p) ==> above(p, lower) && has_phase(self.gates@.take(i as int), p),
                best matches Some(p) ==> forall|j: int| 0 <= j < i && above(#[trigger] self.gates@[j].phase, lower) ==> p <= self.gates@[j].phase,
            decreases self.gates.len() - i,
        {
            let p = self.gates[i].phase;
            let is_above = match lower {
                None => true,
                Some(l) => p > l,
            };
            if is_above {
                match best {
                    None => {
                        best = Some(p);
                    },
                    Some(b) => {
                        if p < b {
                            best = Some(p);
                        }
                    },
                }
            }
            proof {
                let gs = self.gates@;
                if let Some(b) = best {
                    if b == gs[i as int].phase {
                        assert(gs.take(i + 1)[i as int] == gs[i as int]);
                    } else {
                        let j = choose|j: int| 0 <= j < i && (#[trigger] gs.take(i as int)[j]).phase == b;
                        assert(gs.take(i + 1)[j] == gs.take(i as int)[j]);
                    }
                }
            }
            i = i + 1;
        }
        assert(self.gates@.take(i as int) == self.gates@);
        best
    }

    /// Runs every phase that has gates, in ascending order of phase.
    pub fn run_all(&self, context: &GateContext) -> (rs: Vec<PhaseResult>)
        ensures
            forall|k: int| 0 <= k < rs@.len() ==> is_phase_result(#[trigger] rs@[k], rs@[k].phase, self.gates(), context.meta()),
            forall|k: int| 0 <= k < rs@.len() ==> has_phase(self.gates(), (#[trigger] rs@[k]).phase),
            forall|a: int, b: int| 0 <= a < b < rs@.len() ==> (#[trigger] rs@[a]).phase < (#[trigger] rs@[b]).phase,
            forall|i: int| 0 <= i < self.gates().len() ==> lists_phase(rs@, (#[trigger] self.gates()[i]).phase),
    {
        let mut out: Vec<PhaseResult> = Vec::new();
        let mut lower: Option<u32> = None;
        loop
            invariant
                forall|k: int| 0 <= k < out@.len() ==> is_phase_result(#[trigger] out@[k], out@[k].phase, self.gates@, context.meta()),
                forall|k: int| 0 <= k < out@.len() ==> has_phase(self.gates@, (#[trigger] out@[k]).phase),
                forall|a: int, b: int| 0 <= a < b < out@.len() ==> (#[trigger] out@[a]).phase < (#[trigger] out@[b]).phase,
                lower is None <==> out@.len() == 0,
                lower matches Some(l) ==> out@.last().phase == l,
                forall|i: int| 0 <= i < self.gates@.len() && !above((#[trigger] self.gates@[i]).phase, lower) ==> lists_phase(out@, self.gates@[i].phase),
            ensures
                forall|k: int| 0 <= k < out@.len() ==> is_phase_result(#[trigger] out@[k], out@[k].phase, self.gates@, context.meta()),
                forall|k: int| 0 <= k < out@.len() ==> has_phase(self.gates@, (#[trigger] out@[k]).phase),
                forall|a: int, b: int| 0 <= a < b < out@.len() ==> (#[trigger] out@[a]).phase < (#[trigger] out@[b]).phase,
                forall|i: int| 0 <= i < self.gates@.len() ==> lists_phase(out@, (#[trigger] self.gates@[i]).phase),
            decreases (match lower {
                None => 0x1_0000_0000int,
                Some(l) => u32::MAX - l,
            }),
        {
            let next = self.lowest_phase_above(lower);
            match next {
                None => {
                    assert forall|i: int| 0 <= i < self.gates@.len() implies lists_phase(out@, (#[trigger] self.gates@[i]).phase) by {
                        assert(!above(self.gates@[i].phase, lower));
                    }
                    break;
                },
                Some(p) => {
                    let res = self.run_phase(p, context);
                    let ghost old_out = out@;
                    out.push(res);
                    proof {
                        lemma_extend_phases(self.gates@, old_out, out@, lower, p);
                    }
                    lower = Some(p);
                },
            }
        }
        out
    }


    /// The names of the gates of `phase`, in registration order.
    pub fn get_gates_for_phase(&self, phase: u32) -> (names: Vec<String>)
        ensures
            names@.len() == phase_gates(self.gates(), phase).len(),
            forall|j: int| 0 <= j < names@.len() ==> (#[trigger] names@[j])@ == phase_gates(self.gates(), phase)[j].name@,
    {
        let ghost gs = self.gates@;
        let mut names: Vec<String> = Vec::new();
        let mut i: usize = 0;
        while i < self.gates.len()
            invariant
                i <= self.gates.len(),
                gs == self.gates@,
                names@.len() == phase_gates(gs.take(i as int), phase).len(),
                forall|j: int| 0 <= j < names@.len() ==> (#[trigger] names@[j])@ == phase_gates(gs.take(i as int), phase)[j].name@,
            decreases self.gates.len() - i,
        {
            let ghost before = phase_gates(gs.take(i as int), phase);
            assert(gs.take(i + 1).drop_last() == gs.take(i as int));
            assert(gs.take(i + 1).last() == gs[i as int]);
            if self.gates[i].phase == phase {
                names.push(self.gates[i].name.clone());
                proof {
                    let after = before.push(gs[i as int]);
                    assert(phase_gates(gs.take(i + 1), phase) == after);
                    assert forall|j: int| 0 <= j < names@.len() implies (#[trigger] names@[j])@ == after[j].name@ by {
                        if j < before.len() {
                            assert(after[j] == before[j]);
                        }
                    }
                }
            } else {
                assert(phase_gates(gs.take(i + 1), phase) == before);
            }
            i = i + 1;
        }
        assert(gs.take(i as int) == gs);
        names
    }
}

/// Some gate of `gs` belongs to phase `p`.
pub open spec fn has_phase(gs: Seq<BasicQualityGate>, p: u32) -> bool {
    exists|i: int| 0 <= i < gs.len() && (#[trigger] gs[i]).phase == p
}

/// Some result of `rs` is for phase `p`.
pub open spec fn lists_phase(rs: Seq<PhaseResult>, p: u32) -> bool {
    exists|k: int| 0 <= k < rs.len() && (#[trigger] rs[k]).phase == p
}

proof fn lemma_extend_phases(
    gs: Seq<BasicQualityGate>,
    old_out: Seq<PhaseResult>,
    out: Seq<PhaseResult>,
    lower: Option<u32>,
    p: u32,
)
    requires
        out.len() == old_out.len() + 1,
        forall|k: int| 0 <= k < old_out.len() ==> out[k] == old_out[k],
        out.last().phase == p,
        above(p, lower),
        has_phase(gs, p),
        forall|i: int| 0 <= i < gs.len() && above((#[trigger] gs[i]).phase, lower) ==> p <= gs[i].phase,
        forall|k: int| 0 <= k < old_out.len() ==> has_phase(gs, (#[trigger] old_out[k]).phase),
        forall|a: int, b: int| 0 <= a < b < old_out.len() ==> (#[trigger] old_out[a]).phase < (#[trigger] old_out[b]).phase,
        lower is None <==> old_out.len() == 0,
        lower matches Some(l) ==> old_out.last().phase == l,
        forall|i: int| 0 <= i < gs.len() && !above((#[trigger] gs[i]).phase, lower) ==> lists_phase(old_out, gs[i].phase),
    ensures
        forall|k: int| 0 <= k < out.len() ==> has_phase(gs, (#[trigger] out[k]).phase),
        forall|a: int, b: int| 0 <= a < b < out.len() ==> (#[trigger] out[a]).phase < (#[trigger] out[b]).phase,
        forall|i: int| 0 <= i < gs.len() && !above((#[trigger] gs[i]).phase, Some(p)) ==> lists_phase(out, gs[i].phase),
{
    assert forall|k: int| 0 <= k < out.len() implies has_phase(gs, (#[trigger] out[k]).phase) by {
        if k < old_out.len() {
            assert(out[k] == old_out[k]);
        }
    }
    assert forall|a: int, b: int| 0 <= a < b < out.len() implies (#[trigger] out[a]).phase < (#[trigger] out[b]).phase by {
        assert(out[a] == old_out[a]);
        if b < old_out.len() {
            assert(out[b] == old_out[b]);
        } else {
            let last = old_out.len() - 1;
            if a < last {
                assert(old_out[a].phase < old_out[last].phase);
            }
        }
    }
    assert forall|i: int| 0 <= i < gs.len() && !above((#[trigger] gs[i]).phase, Some(p)) implies lists_phase(out, gs[i].phase) by {
        if above(gs[i].phase, lower) {
            assert(out[out.len() - 1].phase == gs[i].phase);
        } else {
            let k = choose|k: int| 0 <= k < old_out.len() && (#[trigger] old_out[k]).phase == gs[i].phase;
            assert(out[k] == old_out[k]);
        }
    }
}

/// `p` lies above `lower` (every phase does when `lower` is `None`).
pub open spec fn above(p: u32, lower: Option<u32>) -> bool {
    match lower {
        None => true,
        Some(l) => p > l,
    }
}

impl Default for QualityGateRunner {
    fn default() -> (r: Self)
        ensures
            is_default_list(r.gates()),
    {
        Self::new()
    }
}

} // verus!
