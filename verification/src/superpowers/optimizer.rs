//! Tuned runtime parameters.
use vstd::prelude::*;

verus! {

/// Runtime parameters that the optimizer tunes.
#[derive(Debug, Clone, Copy)]
pub struct OptParams {
    pub concurrency: u32,
    pub batch_size: u32,
    pub cache_ttl_secs: u64,
    pub timeout_ms: u64,
    pub retry_count: u32,
    pub memory_limit_mb: u64,
}

impl Default for OptParams {
    fn default() -> (p: Self)
        ensures
            p.concurrency == 4,
            p.batch_size == 16,
            p.cache_ttl_secs == 300,
            p.timeout_ms == 30000,
            p.retry_count == 3,
            p.memory_limit_mb == 1024,
    {
        OptParams {
            concurrency: 4,
            batch_size: 16,
            cache_ttl_secs: 300,
            timeout_ms: 30000,
            retry_count: 3,
            memory_limit_mb: 1024,
        }
    }
}

impl OptParams {
    /// The parameters after the `count`-th optimization cycle: concurrency, batch
    /// size, cache lifetime and timeout follow the cycle number (taken modulo 2^32
    /// where it is narrowed to `u32`), the rest is kept.
    pub fn tuned(&self, count: u64) -> (p: OptParams)
        ensures
            p.concurrency == 4 + ((count % 0x1_0000_0000) % 3),
            p.batch_size == 16 + ((count % 0x1_0000_0000) % 8),
            p.cache_ttl_secs == 300 + count % 60,
            p.timeout_ms == 30000 - ((count % 0x1_0000_0000) % 5000),
            p.retry_count == self.retry_count,
            p.memory_limit_mb == self.memory_limit_mb,
    {
        let c32: u32 = (count % 0x1_0000_0000) as u32;
        let concurrency: u32 = 4 + c32 % 3;
        let batch_size: u32 = 16 + c32 % 8;
        let timeout: u32 = 30000 - c32 % 5000;
        OptParams {
            concurrency: if concurrency < 2 {
                2
            } else {
                concurrency
            },
            batch_size: if batch_size < 4 {
                4
            } else {
                batch_size
            },
            cache_ttl_secs: 300 + count % 60,
            timeout_ms: if timeout < 5000 {
                5000
            } else {
                timeout as u64
            },
            retry_count: self.retry_count,
            memory_limit_mb: self.memory_limit_mb,
        }
    }
}

} // verus!
