//! The host side of the probes: service presence, processor load and memory
//! usage, each read from a freshly refreshed snapshot.

use crate::error::HealthError;
use crate::indicators::ServiceState;
use crate::percentage::{f32_hundredths, f32_is_readable, ratio_hundredths, Percentage};
use vstd::prelude::*;

verus! {

#[verifier::external_type_specification]
#[verifier::external_body]
pub struct ExSystem(sysinfo::System);

/// Relies on sysinfo::System::refresh_all: brings every reading of the
/// snapshot up to date.
#[verifier::external_body]
fn refresh_all(system: &mut sysinfo::System) {
    system.refresh_all()
}

/// Relies on sysinfo::System::global_cpu_usage: the load of all processors
/// together, handed over as the bit pattern of the `f32` it returns.
#[verifier::external_body]
fn global_cpu_usage_bits(system: &sysinfo::System) -> u32 {
    system.global_cpu_usage().to_bits()
}

/// Relies on sysinfo::System::used_memory: the RAM in use, in bytes.
#[verifier::external_body]
fn used_memory(system: &sysinfo::System) -> u64 {
    system.used_memory()
}

/// Relies on sysinfo::System::total_memory: the RAM size, in bytes.
#[verifier::external_body]
fn total_memory(system: &sysinfo::System) -> u64 {
    system.total_memory()
}

/// The names of the processes that a snapshot holds (those that are text).
pub uninterp spec fn process_names(system: sysinfo::System) -> Set<Seq<char>>;

/// Relies on sysinfo::System::processes_by_exact_name: whether a process
/// whose name is exactly `name` (case-sensitive, no substring) runs.
#[verifier::external_body]
fn has_process_named(system: &sysinfo::System, name: &str) -> (r: bool)
    ensures
        r == process_names(*system).contains(name@),
{
    system.processes_by_exact_name(name.as_ref()).next().is_some()
}

/// The processor load as a percentage, rounded up to two decimal places,
/// from the bit pattern of the measured `f32`. A pattern that is no
/// percentage (infinite, NaN, negative, or `2^24` and above) is a
/// conversion error.
pub fn cpu_load_from_bits(bits: u32) -> (r: Result<Percentage, HealthError>)
    ensures
        r is Ok <==> f32_is_readable(bits),
        r matches Ok(p) ==> p.hundredths == f32_hundredths(bits),
        r matches Err(e) ==> e is Conversion,
{
    match Percentage::from_f32_bits(bits) {
        Some(p) => Ok(p),
        None => Err(HealthError::Conversion("The processor load is not a percentage".to_owned())),
    }
}

/// The memory usage `used / total * 100`, rounded up to two decimal places.
/// A zero total, or a usage that does not fit, is a conversion error.
pub fn ram_load_from(used: u64, total: u64) -> (r: Result<Percentage, HealthError>)
    ensures
        r is Ok <==> (total > 0 && ratio_hundredths(used as int, total as int) <= u64::MAX),
        r matches Ok(p) ==> p.hundredths == ratio_hundredths(used as int, total as int),
        r matches Err(e) ==> e is Conversion,
{
    match Percentage::from_ratio(used, total) {
        Some(p) => Ok(p),
        None => Err(HealthError::Conversion("The memory usage is not a percentage".to_owned())),
    }
}

/// Refreshes the snapshot and reads the processor load.
pub fn get_cpu_load(system: &mut sysinfo::System) -> (r: Result<Percentage, HealthError>)
    ensures
        r matches Ok(p) ==> exists|b: u32| f32_is_readable(b) && p.hundredths == #[trigger] f32_hundredths(b),
        r matches Err(e) ==> e is Conversion,
{
    refresh_all(system);
    let bits = global_cpu_usage_bits(system);
    let r = cpu_load_from_bits(bits);
    proof {
        if r is Ok {
            assert(f32_is_readable(bits) && r->Ok_0.hundredths == f32_hundredths(bits));
        }
    }
    r
}

/// Refreshes the snapshot and reads the memory usage.
pub fn get_ram_load(system: &mut sysinfo::System) -> (r: Result<Percentage, HealthError>)
    ensures
        r matches Ok(p) ==> exists|used: u64, total: u64|
            total > 0 && p.hundredths == #[trigger] ratio_hundredths(used as int, total as int),
        r matches Err(e) ==> e is Conversion,
{
    refresh_all(system);
    let used = used_memory(system);
    let total = total_memory(system);
    let r = ram_load_from(used, total);
    proof {
        if r is Ok {
            assert(total > 0 && r->Ok_0.hundredths == ratio_hundredths(used as int, total as int));
        }
    }
    r
}

/// Refreshes the snapshot and tells whether the service named `service_name`
/// has a running process.
pub fn check_local_service(system: &mut sysinfo::System, service_name: &str) -> (r: ServiceState)
    ensures
        r == (if process_names(*final(system)).contains(service_name@) {
            ServiceState::Up
        } else {
            ServiceState::Down
        }),
{
    refresh_all(system);
    ServiceState::from_presence(has_process_named(system, service_name))
}

} // verus!
