//! Process-priority heuristic: bump a base priority according to CPU load and
//! memory usage, then clamp the result to a small fixed band.

use vstd::prelude::*;

verus! {

/// Extra priority earned from CPU load (load in hundredths of a percent).
pub open spec fn cpu_load_bonus(cpu_load: int) -> int {
    if cpu_load > 8000 {
        2
    } else if cpu_load > 6000 {
        1
    } else {
        0
    }
}

/// Extra priority earned from memory usage (usage in hundredths of a percent).
pub open spec fn memory_usage_bonus(memory_usage: int) -> int {
    if memory_usage > 8500 {
        2
    } else if memory_usage > 7000 {
        1
    } else {
        0
    }
}

/// The adjusted priority: base plus both bonuses, clamped to [-10, 10].
pub open spec fn adjusted_priority(cpu_load: int, memory_usage: int, base_priority: int) -> int {
    let raw = base_priority + cpu_load_bonus(cpu_load) + memory_usage_bonus(memory_usage);
    if raw < -10 {
        -10
    } else if raw > 10 {
        10
    } else {
        raw
    }
}

/// Computes an adjusted process priority from the current CPU load and memory
/// usage, both given in hundredths of a percent. High CPU load adds up to 2,
/// high memory usage independently adds up to 2, and the total is clamped to
/// the closed range [-10, 10], so every input is acceptable.
pub fn calculate_process_priority(cpu_load: i64, memory_usage: i64, base_priority: i32) -> (r: i32)
    ensures
        r == adjusted_priority(cpu_load as int, memory_usage as int, base_priority as int),
        -10 <= r <= 10,
{
    let mut priority: i64 = base_priority as i64;

    if cpu_load > 8000 {
        priority = priority + 2;
    } else if cpu_load > 6000 {
        priority = priority + 1;
    }

    if memory_usage > 8500 {
        priority = priority + 2;
    } else if memory_usage > 7000 {
        priority = priority + 1;
    }

    let clamped: i64 = if priority < -10 {
        -10
    } else if priority > 10 {
        10
    } else {
        priority
    };
    clamped as i32
}

} // verus!
