use vstd::prelude::*;

verus! {

/// Relies on `num_cpus::get_physical`, which documents that it always
/// returns at least one.
#[verifier::external_body]
fn physical_cpus() -> (r: usize)
    ensures
        r >= 1,
{
    num_cpus::get_physical()
}

/// The number of task workers: the configured number where it is given (one
/// where it is negative or too large), else one less than the physical
/// cores.
pub fn get_thread_number(num_config: Option<i64>) -> (r: usize)
    ensures
        match num_config {
            Some(n) => if 0 <= n <= usize::MAX {
                r as int == n
            } else {
                r == 1
            },
            None => r < usize::MAX,
        },
{
    match num_config {
        Some(n) => {
            if n >= 0 && (n as u64) <= (usize::MAX as u64) {
                n as usize
            } else {
                1
            }
        },
        None => physical_cpus() - 1,
    }
}

} // verus!
