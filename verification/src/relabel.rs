//! Process-list relabeler: tag idle or background work as optimized, boost
//! long-named processes under a high CPU threshold, and pass the rest through.

use vstd::prelude::*;
use vstd::string::StrSliceExecFns;
use crate::text::contains_seq;
use crate::text::str_contains;
use crate::text::prepend;

verus! {

/// The label a single process receives. A name containing "idle" or
/// "background" gains the prefix "optimized_"; otherwise, when the CPU
/// threshold (in hundredths of a percent) exceeds 75 and the name is longer
/// than 5 characters, it gains "boosted_"; otherwise it is unchanged.
pub open spec fn relabeled(name: Seq<char>, cpu_threshold: int) -> Seq<char> {
    if contains_seq(name, "idle"@) || contains_seq(name, "background"@) {
        "optimized_"@ + name
    } else if cpu_threshold > 7500 && name.len() > 5 {
        "boosted_"@ + name
    } else {
        name
    }
}

/// Relabels every process name, keeping length and order: element `i` of the
/// result is exactly `relabeled` of element `i` of the input. The input list
/// is left untouched.
pub fn optimize_system_resources(processes: &Vec<String>, cpu_threshold: i64) -> (r: Vec<String>)
    ensures
        r@.len() == processes@.len(),
        forall|i: int|
            0 <= i < processes@.len() ==> #[trigger] r@[i]@ == relabeled(
                processes@[i]@,
                cpu_threshold as int,
            ),
{
    let mut optimized: Vec<String> = Vec::new();
    let mut idx: usize = 0;
    while idx < processes.len()
        invariant
            idx <= processes.len(),
            optimized@.len() == idx,
            forall|i: int|
                0 <= i < idx ==> #[trigger] optimized@[i]@ == relabeled(
                    processes@[i]@,
                    cpu_threshold as int,
                ),
        decreases processes.len() - idx,
    {
        let process: &String = &processes[idx];
        let name: &str = process.as_str();
        let label: String = if str_contains(name, "idle") || str_contains(name, "background") {
            prepend("optimized_", name)
        } else if cpu_threshold > 7500 && name.unicode_len() > 5 {
            prepend("boosted_", name)
        } else {
            process.clone()
        };
        optimized.push(label);
        idx = idx + 1;
    }
    optimized
}

} // verus!
