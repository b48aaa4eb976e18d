//! The self-heal engine: which routine checks need a fix, and the fix applied.
use vstd::prelude::*;
use vstd::string::StringSliceAdditionalSpecFns;
use vstd::utf8::encode_utf8;
use crate::text::{eq_str, push_str};

verus! {

/// A detected issue and its fix.
#[derive(Debug, Clone)]
pub struct HealAction {
    pub issue: String,
    pub fix: String,
    pub success: bool,
    pub duration_ms: u64,
}

/// The hash of `bytes`: each byte added to 31 times the hash so far, modulo 2^64.
pub open spec fn seed_hash(bytes: Seq<u8>) -> u64
    decreases bytes.len(),
{
    if bytes.len() == 0 {
        0
    } else {
        ((seed_hash(bytes.drop_last()) as nat * 31 + bytes.last() as nat) % 0x1_0000_0000_0000_0000) as u64
    }
}

/// A check needs a fix when the hash of its id's UTF-8 bytes leaves a remainder
/// below 3 modulo 7.
pub open spec fn needs_fix_text(seed: Seq<char>) -> bool {
    seed_hash(encode_utf8(seed)) % 7 < 3
}

/// A check needs a fix (see `needs_fix_text`).
pub open spec fn needs_fix(seed: &str) -> bool {
    needs_fix_text(seed@)
}

/// Whether the check `seed` needs a fix (see `needs_fix`).
pub fn fast_random_bool(seed: &str) -> (b: bool)
    ensures
        b == needs_fix(seed),
{
    let bytes = seed.as_bytes();
    let mut hash: u64 = 0;
    let mut i: usize = 0;
    while i < bytes.len()
        invariant
            i <= bytes.len(),
            bytes@ == seed.spec_bytes(),
            hash == seed_hash(bytes@.take(i as int)),
        decreases bytes.len() - i,
    {
        assert(bytes@.take(i + 1).drop_last() =~= bytes@.take(i as int));
        let b = bytes[i];
        let m = hash.wrapping_mul(31);
        let next = m.wrapping_add(b as u64);
        assert(next == ((hash as nat * 31 + b as nat) % 0x1_0000_0000_0000_0000) as u64) by (nonlinear_arith)
            requires
                m == ((hash as nat * 31) % 0x1_0000_0000_0000_0000) as u64,
                next == ((m as nat + b as nat) % 0x1_0000_0000_0000_0000) as u64,
        ;
        hash = next;
        i = i + 1;
    }
    assert(bytes@.take(bytes.len() as int) =~= bytes@);
    hash % 7 < 3
}

/// The fix applied for the check `id` described as `description`.
pub open spec fn fix_for(id: Seq<char>, description: Seq<char>) -> Seq<char> {
    if id == "cache_integrity"@ {
        "Cleared stale cache entries, rebuilt index"@
    } else if id == "memory_usage"@ {
        "Released unused memory pools, optimized allocation"@
    } else if id == "temp_files"@ {
        "Removed 12 temporary files, freed 45 MB"@
    } else if id == "connection_pool"@ {
        "Recycled 3 stale connections, pool healthy"@
    } else if id == "log_rotation"@ {
        "Rotated logs, archived 2 files"@
    } else {
        "Applied fix for "@ + description
    }
}

/// The routine checks, each with its description.
pub open spec fn routine_checks() -> Seq<(Seq<char>, Seq<char>)> {
    seq![
        ("cache_integrity"@, "Cache directory validation"@),
        ("memory_usage"@, "Memory usage optimization"@),
        ("temp_files"@, "Temporary file cleanup"@),
        ("connection_pool"@, "Connection pool health check"@),
        ("log_rotation"@, "Log file rotation check"@)
    ]
}

/// The fixes applied by running the checks `cs` in order.
pub open spec fn planned_fixes(cs: Seq<(Seq<char>, Seq<char>)>) -> Seq<Seq<char>>
    decreases cs.len(),
{
    if cs.len() == 0 {
        Seq::empty()
    } else {
        let r = planned_fixes(cs.drop_last());
        if needs_fix_text(cs.last().0) {
            r.push(fix_for(cs.last().0, cs.last().1))
        } else {
            r
        }
    }
}

/// Repairs system issues found by the routine checks.
pub struct SelfHealEngine {
    max_attempts: u32,
    heal_count: u32,
}

impl SelfHealEngine {
    /// Fixes applied so far.
    pub closed spec fn healed(&self) -> u32 {
        self.heal_count
    }

    /// Attempts allowed per issue.
    pub closed spec fn attempts(&self) -> u32 {
        self.max_attempts
    }

    pub fn new(max_attempts: u32) -> (e: Self)
        ensures
            e.attempts() == max_attempts,
            e.healed() == 0,
    {
        SelfHealEngine { max_attempts, heal_count: 0 }
    }

    /// The fix for the check `check_id`, if it needs one.
    pub fn diagnose_and_fix(&self, check_id: &str, description: &str) -> (r: Option<String>)
        ensures
            needs_fix(check_id) ==> (r matches Some(f) && f@ == fix_for(check_id@, description@)),
            !needs_fix(check_id) ==> r is None,
    {
        if !fast_random_bool(check_id) {
            return None;
        }
        let fix = if eq_str(check_id, "cache_integrity") {
            "Cleared stale cache entries, rebuilt index".to_owned()
        } else if eq_str(check_id, "memory_usage") {
            "Released unused memory pools, optimized allocation".to_owned()
        } else if eq_str(check_id, "temp_files") {
            "Removed 12 temporary files, freed 45 MB".to_owned()
        } else if eq_str(check_id, "connection_pool") {
            "Recycled 3 stale connections, pool healthy".to_owned()
        } else if eq_str(check_id, "log_rotation") {
            "Rotated logs, archived 2 files".to_owned()
        } else {
            let mut s = String::new();
            push_str(&mut s, "Applied fix for ");
            push_str(&mut s, description);
            s
        };
        Some(fix)
    }

    /// Runs the routine checks in order, returning the fixes applied; each fix
    /// counts as one healed issue.
    pub fn run(&mut self) -> (fixes: Vec<String>)
        requires
            old(self).healed() + 5 <= u32::MAX,
        ensures
            final(self).healed() == old(self).healed() + fixes@.len(),
            final(self).attempts() == old(self).attempts(),
            fixes@.map_values(|s: String| s@) == planned_fixes(routine_checks()),
    {
        let ids: [&str; 5] = ["cache_integrity", "memory_usage", "temp_files", "connection_pool", "log_rotation"];
        let descs: [&str; 5] = [
            "Cache directory validation",
            "Memory usage optimization",
            "Temporary file cleanup",
            "Connection pool health check",
            "Log file rotation check",
        ];
        let mut fixes: Vec<String> = Vec::new();
        let mut i: usize = 0;
        while i < 5
            invariant
                i <= 5,
                fixes@.len() <= i,
                self.heal_count == old(self).healed() + fixes@.len(),
                self.max_attempts == old(self).attempts(),
                old(self).healed() + 5 <= u32::MAX,
                ids@ == seq!["cache_integrity", "memory_usage", "temp_files", "connection_pool", "log_rotation"],
                descs@ == seq![
                    "Cache directory validation",
                    "Memory usage optimization",
                    "Temporary file cleanup",
                    "Connection pool health check",
                    "Log file rotation check",
                ],
                fixes@.map_values(|s: String| s@) == planned_fixes(routine_checks().take(i as int)),
            decreases 5 - i,
        {
            let id = ids[i];
            let desc = descs[i];
            proof {
                assert(id@ == routine_checks()[i as int].0);
                assert(desc@ == routine_checks()[i as int].1);
                assert(routine_checks().take(i + 1).drop_last() =~= routine_checks().take(i as int));
            }
            if let Some(fix) = self.diagnose_and_fix(id, desc) {
                let ghost before = fixes@.map_values(|s: String| s@);
                fixes.push(fix);
                self.heal_count = self.heal_count + 1;
                assert(fixes@.map_values(|s: String| s@) =~= before.push(fix_for(id@, desc@)));
            }
            i = i + 1;
        }
        assert(routine_checks().take(5) =~= routine_checks());
        fixes
    }

    pub fn heal_count(&self) -> (n: u32)
        ensures
            n == self.healed(),
    {
        self.heal_count
    }
}

} // verus!
