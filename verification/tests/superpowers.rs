use omega_agi::superpowers::analyzer::{Analyzer, RiskLevel};
use omega_agi::superpowers::boost::BoostMode;
use omega_agi::superpowers::optimizer::OptParams;
use omega_agi::superpowers::self_heal::{fast_random_bool, SelfHealEngine};
use omega_agi::superpowers::SuperpowerConfig;

fn hash_check(seed: &str) -> bool {
    let hash: u64 = seed.bytes().fold(0u64, |acc, b| acc.wrapping_mul(31).wrapping_add(b as u64));
    hash % 7 < 3
}

#[test]
fn boost_modes_cycle() {
    let mut m = BoostMode::Eco;
    for _ in 0..4 {
        m = m.next();
    }
    assert_eq!(m, BoostMode::Eco);
    assert_eq!(BoostMode::Turbo.next(), BoostMode::Overdrive);
    assert_eq!(BoostMode::Normal.name(), "\u{26a1} Normal");
    assert_eq!(BoostMode::Overdrive.description(), "Maximum performance, all resources allocated");
}

#[test]
fn seeded_checks_match_the_hash() {
    for seed in ["cache_integrity", "memory_usage", "temp_files", "connection_pool", "log_rotation", "", "x"] {
        assert_eq!(fast_random_bool(seed), hash_check(seed));
    }
}

#[test]
fn self_heal_applies_the_needed_fixes() {
    let mut engine = SelfHealEngine::new(3);
    let fixes = engine.run();
    let expected: Vec<&str> = [
        ("cache_integrity", "Cleared stale cache entries, rebuilt index"),
        ("memory_usage", "Released unused memory pools, optimized allocation"),
        ("temp_files", "Removed 12 temporary files, freed 45 MB"),
        ("connection_pool", "Recycled 3 stale connections, pool healthy"),
        ("log_rotation", "Rotated logs, archived 2 files"),
    ]
    .iter()
    .filter(|(id, _)| hash_check(id))
    .map(|(_, fix)| *fix)
    .collect();
    assert_eq!(fixes, expected);
    assert_eq!(engine.heal_count() as usize, expected.len());
    assert_eq!(engine.diagnose_and_fix("zzz_custom", "Custom check").is_some(), hash_check("zzz_custom"));
}

#[test]
fn analyzer_findings_depend_on_depth() {
    let deep = Analyzer::new(3, true).findings();
    assert_eq!(deep.layers_analyzed.len(), 10);
    assert_eq!(deep.recommendations.len(), 5);
    assert_eq!(deep.issues_pending, 2);
    assert_eq!(deep.risk_level, RiskLevel::Medium);
    let shallow = Analyzer::new(1, true).findings();
    assert_eq!(shallow.recommendations, vec!["Run with depth >= 2 for full recommendations".to_string()]);
}

#[test]
fn optimizer_parameters() {
    let p = OptParams::default();
    assert_eq!((p.concurrency, p.batch_size, p.timeout_ms), (4, 16, 30000));
    let t = p.tuned(7);
    assert_eq!((t.concurrency, t.batch_size, t.cache_ttl_secs, t.timeout_ms), (5, 23, 307, 29993));
    let c = SuperpowerConfig::default();
    assert_eq!(c.default_boost, BoostMode::Normal);
    assert_eq!(c.analysis_depth, 3);
}
