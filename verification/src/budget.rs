//! The cost budget an entry point must stay within: a guard against large
//! regressions in what one contract invocation costs the host.
use vstd::prelude::*;

verus! {

/// CPU instructions one invocation may cost, exclusive.
pub const CPU_INSTRUCTION_COST_LIMIT: u64 = 10_000_000;

/// Memory bytes one invocation may cost, exclusive.
pub const MEMORY_BYTES_COST_LIMIT: u64 = 1_000_000;

/// The limit an invocation went over, with what it cost.
#[derive(Clone, Copy, Debug, PartialEq, Eq, Structural)]
pub enum CostLimitExceeded {
    /// It cost `cost` CPU instructions, at least the limit `limit`.
    CpuInstructions { cost: u64, limit: u64 },
    /// It cost `cost` memory bytes, at least the limit `limit`.
    MemoryBytes { cost: u64, limit: u64 },
}

/// What checking an invocation's cost against the limits gives: the CPU
/// limit is checked first, then the memory limit.
pub open spec fn cost_check(cpu: u64, memory: u64) -> Result<(), CostLimitExceeded> {
    if cpu >= CPU_INSTRUCTION_COST_LIMIT {
        Err(CostLimitExceeded::CpuInstructions { cost: cpu, limit: CPU_INSTRUCTION_COST_LIMIT })
    } else if memory >= MEMORY_BYTES_COST_LIMIT {
        Err(CostLimitExceeded::MemoryBytes { cost: memory, limit: MEMORY_BYTES_COST_LIMIT })
    } else {
        Ok(())
    }
}

/// Checks an invocation that cost `cpu` instructions and `memory` bytes, as
/// the host metered it, against both limits; refused, it names the limit
/// that was reached, the CPU limit first.
pub fn check_cost_thresholds(cpu: u64, memory: u64) -> (r: Result<(), CostLimitExceeded>)
    ensures
        r == cost_check(cpu, memory),
        r is Ok <==> (cpu < CPU_INSTRUCTION_COST_LIMIT && memory < MEMORY_BYTES_COST_LIMIT),
{
    if cpu >= CPU_INSTRUCTION_COST_LIMIT {
        Err(CostLimitExceeded::CpuInstructions { cost: cpu, limit: CPU_INSTRUCTION_COST_LIMIT })
    } else if memory >= MEMORY_BYTES_COST_LIMIT {
        Err(CostLimitExceeded::MemoryBytes { cost: memory, limit: MEMORY_BYTES_COST_LIMIT })
    } else {
        Ok(())
    }
}

} // verus!
