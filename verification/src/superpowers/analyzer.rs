//! The system analyzer: what it inspects and what it reports.
use vstd::prelude::*;

verus! {

/// How risky the system's state is.
#[derive(Debug, Clone, Copy, PartialEq, Eq, Structural)]
pub enum RiskLevel {
    Low,
    Medium,
    High,
    Critical,
}

/// The findings of an analysis (the score is computed by the caller).
#[derive(Debug, Clone)]
pub struct Findings {
    pub layers_analyzed: Vec<String>,
    pub issues_found: Vec<String>,
    pub issues_pending: u32,
    pub recommendations: Vec<String>,
    pub strengths: Vec<String>,
    pub risk_level: RiskLevel,
}

/// The layers inspected.
pub open spec fn analyzed_layers() -> Seq<Seq<char>> {
    seq!["HyperCore (Layer 0)"@, "Runtime (Layer 1)"@, "Engineering (Layer 2)"@, "Evolution (Layer 3)"@, "Adapters (Layer 4)"@, "Agent (Layer 5)"@, "Research (Layer 6)"@, "Life-Harness (Layer 7)"@, "Superpowers (Layer 8)"@, "Avatar (Layer 9)"@]
}

/// The strengths reported.
pub open spec fn known_strengths() -> Seq<Seq<char>> {
    seq!["\u{3a6}_APEX*\u{221e} self-evolution engine active"@, "Ten-layer AGI architecture complete"@, "Autonomous self-healing capability"@, "Multi-protocol adapter support"@]
}

/// The issues reported.
pub open spec fn known_issues() -> Seq<Seq<char>> {
    seq!["Layer 4 adapters: Feishu not initialized"@, "Research: external API integration pending"@]
}

/// The recommendations at analysis depth `depth`: the full list from depth 2.
pub open spec fn recommendations_at(depth: u32) -> Seq<Seq<char>> {
    if depth >= 2 {
        seq!["Enable real LLM by setting OMEGA_API_KEY"@, "Integrate sysinfo crate for accurate resource monitoring"@, "Add external search API (SerpAPI/Brave) for live research"@, "Configure webhook alerts for Life-Harness critical events"@, "Set up automated avatar TUI for local interaction"@]
    } else {
        seq!["Run with depth >= 2 for full recommendations"@]
    }
}

/// Deep system analysis.
pub struct Analyzer {
    depth: u32,
    enabled: bool,
}

impl Analyzer {
    /// The analysis depth.
    pub closed spec fn depth_view(&self) -> u32 {
        self.depth
    }

    /// Whether analysis is enabled.
    pub closed spec fn enabled_view(&self) -> bool {
        self.enabled
    }

    pub fn new(depth: u32, enabled: bool) -> (a: Self)
        ensures
            a.depth_view() == depth,
            a.enabled_view() == enabled,
    {
        Analyzer { depth, enabled }
    }

    pub fn depth(&self) -> (d: u32)
        ensures
            d == self.depth_view(),
    {
        self.depth
    }

    /// The findings: every layer analyzed, the known strengths and issues, the
    /// recommendations for the depth, and a medium risk while issues remain.
    pub fn findings(&self) -> (f: Findings)
        ensures
            f.layers_analyzed@.map_values(|s: String| s@) == analyzed_layers(),
            f.strengths@.map_values(|s: String| s@) == known_strengths(),
            f.issues_found@.map_values(|s: String| s@) == known_issues(),
            f.issues_pending == known_issues().len(),
            f.recommendations@.map_values(|s: String| s@) == recommendations_at(self.depth_view()),
            f.risk_level == (if known_issues().len() == 0 {
                RiskLevel::Low
            } else {
                RiskLevel::Medium
            }),
    {
        let mut layers: Vec<String> = Vec::new();
        layers.push("HyperCore (Layer 0)".to_owned());
        layers.push("Runtime (Layer 1)".to_owned());
        layers.push("Engineering (Layer 2)".to_owned());
        layers.push("Evolution (Layer 3)".to_owned());
        layers.push("Adapters (Layer 4)".to_owned());
        layers.push("Agent (Layer 5)".to_owned());
        layers.push("Research (Layer 6)".to_owned());
        layers.push("Life-Harness (Layer 7)".to_owned());
        layers.push("Superpowers (Layer 8)".to_owned());
        layers.push("Avatar (Layer 9)".to_owned());
        let mut strengths: Vec<String> = Vec::new();
        strengths.push("\u{3a6}_APEX*\u{221e} self-evolution engine active".to_owned());
        strengths.push("Ten-layer AGI architecture complete".to_owned());
        strengths.push("Autonomous self-healing capability".to_owned());
        strengths.push("Multi-protocol adapter support".to_owned());
        let mut issues: Vec<String> = Vec::new();
        issues.push("Layer 4 adapters: Feishu not initialized".to_owned());
        issues.push("Research: external API integration pending".to_owned());
        let mut recommendations: Vec<String> = Vec::new();
        if self.depth >= 2 {
            recommendations.push("Enable real LLM by setting OMEGA_API_KEY".to_owned());
            recommendations.push("Integrate sysinfo crate for accurate resource monitoring".to_owned());
            recommendations.push("Add external search API (SerpAPI/Brave) for live research".to_owned());
            recommendations.push("Configure webhook alerts for Life-Harness critical events".to_owned());
            recommendations.push("Set up automated avatar TUI for local interaction".to_owned());
        } else {
            recommendations.push("Run with depth >= 2 for full recommendations".to_owned());
        }
        assert(layers@.map_values(|s: String| s@) =~= analyzed_layers());
        assert(strengths@.map_values(|s: String| s@) =~= known_strengths());
        assert(issues@.map_values(|s: String| s@) =~= known_issues());
        assert(recommendations@.map_values(|s: String| s@) =~= recommendations_at(self.depth));
        let pending = issues.len() as u32;
        let risk = if issues.len() == 0 {
            RiskLevel::Low
        } else {
            RiskLevel::Medium
        };
        Findings {
            layers_analyzed: layers,
            issues_found: issues,
            issues_pending: pending,
            recommendations,
            strengths,
            risk_level: risk,
        }
    }
}

} // verus!
