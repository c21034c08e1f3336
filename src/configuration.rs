//! The application settings, loaded once at start-up, and the threshold
//! policy that decides which checks run and what passes.

use crate::percentage::Percentage;
use vstd::prelude::*;

verus! {

/// Where the service listens and what it watches on its own host.
#[derive(Clone, Debug)]
pub struct ApplicationSettings {
    pub port: u16,
    pub host: String,
    pub logfile_path: String,
    pub service_name: String,
    pub expose_config: bool,
}

/// The threshold policy: for each check, a limit, or the sentinel that
/// disables the check (`0` for the numeric ones, `false` for the service).
#[derive(Clone, Copy, Debug, PartialEq, Eq, Structural)]
pub struct LimitSettings {
    pub hi_queue_count: i32,
    pub spool_file_count: i32,
    pub max_cpu_percentage: Percentage,
    pub max_ram_percentage: Percentage,
    pub check_local_service: bool,
}

/// The status code of a successful response.
pub const OK: u16 = 200;

/// The status code of a resource that is not offered.
pub const NOT_FOUND: u16 = 404;

impl LimitSettings {
    pub open spec fn queue_enabled(self) -> bool {
        self.hi_queue_count != 0
    }

    pub open spec fn spool_enabled(self) -> bool {
        self.spool_file_count != 0
    }

    pub open spec fn service_enabled(self) -> bool {
        self.check_local_service
    }

    pub open spec fn cpu_enabled(self) -> bool {
        self.max_cpu_percentage.hundredths != 0
    }

    pub open spec fn ram_enabled(self) -> bool {
        self.max_ram_percentage.hundredths != 0
    }

    /// Whether the queue-depth check runs.
    pub fn queue_check_enabled(&self) -> (r: bool)
        ensures
            r == self.queue_enabled(),
    {
        self.hi_queue_count != 0
    }

    /// Whether the unhealthy-channel check runs.
    pub fn spool_check_enabled(&self) -> (r: bool)
        ensures
            r == self.spool_enabled(),
    {
        self.spool_file_count != 0
    }

    /// Whether the service-presence check runs.
    pub fn service_check_enabled(&self) -> (r: bool)
        ensures
            r == self.service_enabled(),
    {
        self.check_local_service
    }

    /// Whether the processor-load check runs.
    pub fn cpu_check_enabled(&self) -> (r: bool)
        ensures
            r == self.cpu_enabled(),
    {
        !self.max_cpu_percentage.is_zero()
    }

    /// Whether the memory-usage check runs.
    pub fn ram_check_enabled(&self) -> (r: bool)
        ensures
            r == self.ram_enabled(),
    {
        !self.max_ram_percentage.is_zero()
    }
}

impl Default for ApplicationSettings {
    fn default() -> (r: Self)
        ensures
            r.port == 3000,
            r.host@ == "0.0.0.0"@,
            r.logfile_path@ == "./maedic.log"@,
            r.service_name@ == "micserver.exe"@,
            !r.expose_config,
    {
        ApplicationSettings {
            port: 3000,
            host: "0.0.0.0".to_owned(),
            logfile_path: "./maedic.log".to_owned(),
            service_name: "micserver.exe".to_owned(),
            expose_config: false,
        }
    }
}

impl Default for LimitSettings {
    fn default() -> (r: Self)
        ensures
            r.hi_queue_count == 1000,
            r.spool_file_count == 10,
            r.max_cpu_percentage.hundredths == 8000,
            r.max_ram_percentage.hundredths == 8000,
            !r.check_local_service,
    {
        LimitSettings {
            hi_queue_count: 1000,
            spool_file_count: 10,
            max_cpu_percentage: Percentage { hundredths: 8000 },
            max_ram_percentage: Percentage { hundredths: 8000 },
            check_local_service: false,
        }
    }
}

/// The answer to a request for the threshold policy: the policy with `OK`
/// when the application settings allow exposing it, `NOT_FOUND` otherwise.
pub fn get_config_handler(application: &ApplicationSettings, limits: &LimitSettings) -> (r: Result<
    (u16, LimitSettings),
    u16,
>)
    ensures
        application.expose_config ==> r == Ok::<(u16, LimitSettings), u16>((OK, *limits)),
        !application.expose_config ==> r == Err::<(u16, LimitSettings), u16>(NOT_FOUND),
{
    if application.expose_config {
        Ok((OK, *limits))
    } else {
        Err(NOT_FOUND)
    }
}

} // verus!
