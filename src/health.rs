//! The health aggregator: it turns the outcome of each check into one report
//! and reduces the report to healthy or unhealthy under the threshold policy.

use crate::configuration::LimitSettings;
use crate::database::{cell_explains, column_i32, i32_cell_of, read_cell};
use crate::error::{unexpected_error, HealthError};
use crate::indicators::{
    is_channel_of, row_error_explains, row_is_full_channel, ServiceState, SpoolFileCount,
};
use crate::percentage::Percentage;
use vstd::prelude::*;

verus! {

/// The report of one health request. A field is `None` exactly when its check
/// is disabled by the policy.
#[derive(Debug)]
pub struct Health {
    pub hi_queue_size: Option<i32>,
    pub unhealthy_spool_files: Option<Vec<SpoolFileCount>>,
    pub service_state: Option<ServiceState>,
    pub global_cpu_usage_percentage: Option<Percentage>,
    pub used_memory_percentage: Option<Percentage>,
}

/// What became of one check.
#[derive(Debug)]
pub enum CheckOutcome<T> {
    /// The check was not run.
    Skipped,
    /// The check ran and measured this value.
    Value(T),
    /// The check could not be run to its end.
    ProbeFailed(HealthError),
}

/// The outcome of every check of one request.
#[derive(Debug)]
pub struct ProbeOutcomes {
    pub hi_queue_size: CheckOutcome<i32>,
    pub unhealthy_spool_files: CheckOutcome<Vec<SpoolFileCount>>,
    pub service_state: CheckOutcome<ServiceState>,
    pub global_cpu_usage_percentage: CheckOutcome<Percentage>,
    pub used_memory_percentage: CheckOutcome<Percentage>,
}

/// The status code of a healthy report.
pub const OK: u16 = 200;

/// The status code of an unhealthy report.
pub const SERVICE_UNAVAILABLE: u16 = 503;

pub open spec fn queue_passes(h: Health, limits: LimitSettings) -> bool {
    h.hi_queue_size matches Some(q) ==> q <= limits.hi_queue_count
}

pub open spec fn spool_passes(h: Health) -> bool {
    h.unhealthy_spool_files matches Some(v) ==> v@.len() == 0
}

pub open spec fn service_passes(h: Health) -> bool {
    h.service_state matches Some(s) ==> s == ServiceState::Up
}

pub open spec fn cpu_passes(h: Health, limits: LimitSettings) -> bool {
    h.global_cpu_usage_percentage matches Some(c) ==> c.hundredths
        <= limits.max_cpu_percentage.hundredths
}

pub open spec fn ram_passes(h: Health, limits: LimitSettings) -> bool {
    h.used_memory_percentage matches Some(m) ==> m.hundredths
        <= limits.max_ram_percentage.hundredths
}

/// Healthy exactly when every present field is within its
/// threshold. An absent field passes.
pub open spec fn is_healthy(h: Health, limits: LimitSettings) -> bool {
    &&& queue_passes(h, limits)
    &&& spool_passes(h)
    &&& service_passes(h)
    &&& cpu_passes(h, limits)
    &&& ram_passes(h, limits)
}

/// The transport status of a report.
pub open spec fn status_of(h: Health, limits: LimitSettings) -> u16 {
    if is_healthy(h, limits) {
        OK
    } else {
        SERVICE_UNAVAILABLE
    }
}

/// A check is settled when it is disabled or has measured a value.
pub open spec fn settled<T>(enabled: bool, o: CheckOutcome<T>) -> bool {
    !enabled || o is Value
}

/// What the report holds for a check.
pub open spec fn reported<T>(enabled: bool, o: CheckOutcome<T>) -> Option<T> {
    if enabled && o is Value {
        Some(o->Value_0)
    } else {
        None
    }
}

/// `e` is the error that an unsettled check stands for: the probe's own
/// error, or an unexpected one for a check that was not run.
pub open spec fn explains<T>(o: CheckOutcome<T>, e: HealthError) -> bool {
    match o {
        CheckOutcome::ProbeFailed(x) => e == x,
        CheckOutcome::Skipped => e is Unexpected,
        CheckOutcome::Value(_) => false,
    }
}

/// Every enabled check has measured a value.
pub open spec fn all_settled(limits: LimitSettings, o: ProbeOutcomes) -> bool {
    &&& settled(limits.queue_enabled(), o.hi_queue_size)
    &&& settled(limits.spool_enabled(), o.unhealthy_spool_files)
    &&& settled(limits.service_enabled(), o.service_state)
    &&& settled(limits.cpu_enabled(), o.global_cpu_usage_percentage)
    &&& settled(limits.ram_enabled(), o.used_memory_percentage)
}

/// `e` is explained by the first unsettled check, in report order.
pub open spec fn is_first_failure(limits: LimitSettings, o: ProbeOutcomes, e: HealthError) -> bool {
    if !settled(limits.queue_enabled(), o.hi_queue_size) {
        explains(o.hi_queue_size, e)
    } else if !settled(limits.spool_enabled(), o.unhealthy_spool_files) {
        explains(o.unhealthy_spool_files, e)
    } else if !settled(limits.service_enabled(), o.service_state) {
        explains(o.service_state, e)
    } else if !settled(limits.cpu_enabled(), o.global_cpu_usage_percentage) {
        explains(o.global_cpu_usage_percentage, e)
    } else if !settled(limits.ram_enabled(), o.used_memory_percentage) {
        explains(o.used_memory_percentage, e)
    } else {
        false
    }
}

/// The report built from the outcomes: each enabled check's value, nothing
/// for a disabled one.
pub open spec fn report_of(limits: LimitSettings, o: ProbeOutcomes) -> Health {
    Health {
        hi_queue_size: reported(limits.queue_enabled(), o.hi_queue_size),
        unhealthy_spool_files: reported(limits.spool_enabled(), o.unhealthy_spool_files),
        service_state: reported(limits.service_enabled(), o.service_state),
        global_cpu_usage_percentage: reported(limits.cpu_enabled(), o.global_cpu_usage_percentage),
        used_memory_percentage: reported(limits.ram_enabled(), o.used_memory_percentage),
    }
}

/// `b` is `a`, or nothing.
pub open spec fn kept_or_dropped<T>(a: Option<T>, b: Option<T>) -> bool {
    b == a || b is None
}

/// `part` holds some of the fields of `whole`, unchanged, and none other.
pub open spec fn is_part_of(part: Health, whole: Health) -> bool {
    &&& kept_or_dropped(whole.hi_queue_size, part.hi_queue_size)
    &&& kept_or_dropped(whole.unhealthy_spool_files, part.unhealthy_spool_files)
    &&& kept_or_dropped(whole.service_state, part.service_state)
    &&& kept_or_dropped(whole.global_cpu_usage_percentage, part.global_cpu_usage_percentage)
    &&& kept_or_dropped(whole.used_memory_percentage, part.used_memory_percentage)
}

/// A check that the policy disables is absent from the report, and one that
/// it enables is present.
pub proof fn lemma_report_absent_iff_disabled(limits: LimitSettings, o: ProbeOutcomes)
    requires
        all_settled(limits, o),
    ensures
        report_of(limits, o).hi_queue_size is None <==> !limits.queue_enabled(),
        report_of(limits, o).unhealthy_spool_files is None <==> !limits.spool_enabled(),
        report_of(limits, o).service_state is None <==> !limits.service_enabled(),
        report_of(limits, o).global_cpu_usage_percentage is None <==> !limits.cpu_enabled(),
        report_of(limits, o).used_memory_percentage is None <==> !limits.ram_enabled(),
{
}

/// Absence never makes a report unhealthy: leaving out any set of fields of
/// a healthy report keeps it healthy.
pub proof fn lemma_dropping_fields_keeps_health(whole: Health, part: Health, limits: LimitSettings)
    requires
        is_part_of(part, whole),
        is_healthy(whole, limits),
    ensures
        is_healthy(part, limits),
{
}

/// `narrow` keeps each check of `wide` with the same limit, or disables it.
pub open spec fn disables_some_of(narrow: LimitSettings, wide: LimitSettings) -> bool {
    &&& (narrow.hi_queue_count == wide.hi_queue_count || !narrow.queue_enabled())
    &&& (narrow.spool_file_count == wide.spool_file_count || !narrow.spool_enabled())
    &&& (narrow.check_local_service == wide.check_local_service || !narrow.service_enabled())
    &&& (narrow.max_cpu_percentage == wide.max_cpu_percentage || !narrow.cpu_enabled())
    &&& (narrow.max_ram_percentage == wide.max_ram_percentage || !narrow.ram_enabled())
}

/// Disabling any set of checks never turns a healthy report unhealthy, nor
/// a completed request into a failed one: with the same outcomes, the
/// narrower policy's report is complete and healthy too.
pub proof fn lemma_disabling_checks_keeps_health(wide: LimitSettings, narrow: LimitSettings, o: ProbeOutcomes)
    requires
        disables_some_of(narrow, wide),
        all_settled(wide, o),
        is_healthy(report_of(wide, o), wide),
    ensures
        all_settled(narrow, o),
        is_part_of(report_of(narrow, o), report_of(wide, o)),
        is_healthy(report_of(narrow, o), narrow),
{
}

/// A report with every check disabled is healthy, under any policy.
pub proof fn lemma_empty_report_is_healthy(h: Health, limits: LimitSettings)
    requires
        h.hi_queue_size is None,
        h.unhealthy_spool_files is None,
        h.service_state is None,
        h.global_cpu_usage_percentage is None,
        h.used_memory_percentage is None,
    ensures
        is_healthy(h, limits),
{
}

/// The numeric thresholds are inclusive: a value equal to its limit passes,
/// and only a value strictly above it makes the report unhealthy.
pub proof fn lemma_threshold_is_inclusive(h: Health, limits: LimitSettings)
    ensures
        h.hi_queue_size == Some(limits.hi_queue_count) ==> queue_passes(h, limits),
        h.global_cpu_usage_percentage == Some(limits.max_cpu_percentage) ==> cpu_passes(h, limits),
        h.used_memory_percentage == Some(limits.max_ram_percentage) ==> ram_passes(h, limits),
        (h.hi_queue_size matches Some(q) && q > limits.hi_queue_count) ==> !is_healthy(h, limits),
        (h.global_cpu_usage_percentage matches Some(c) && c.hundredths
            > limits.max_cpu_percentage.hundredths) ==> !is_healthy(h, limits),
        (h.used_memory_percentage matches Some(m) && m.hundredths
            > limits.max_ram_percentage.hundredths) ==> !is_healthy(h, limits),
{
}

/// One unhealthy channel is as bad as many: any report that lists at least
/// one is unhealthy, however many it lists.
pub proof fn lemma_any_unhealthy_channel_fails(h: Health, limits: LimitSettings)
    requires
        h.unhealthy_spool_files matches Some(v) && v@.len() > 0,
    ensures
        !is_healthy(h, limits),
{
}

/// Reduces a report to healthy or not: `false` exactly when a present field
/// breaks its threshold (the queue, the processor or the memory above its
/// limit, any unhealthy channel, the service down).
pub fn health_is_good(health: &Health, limits: &LimitSettings) -> (r: bool)
    ensures
        r == is_healthy(*health, *limits),
{
    if let Some(hi_queue_size) = health.hi_queue_size {
        if hi_queue_size > limits.hi_queue_count {
            return false;
        }
    }
    if let Some(unhealthy_spool_files) = &health.unhealthy_spool_files {
        if unhealthy_spool_files.len() != 0 {
            return false;
        }
    }
    if let Some(service_state) = health.service_state {
        if service_state != ServiceState::Up {
            return false;
        }
    }
    if let Some(cpu_value) = health.global_cpu_usage_percentage {
        if cpu_value.exceeds(&limits.max_cpu_percentage) {
            return false;
        }
    }
    if let Some(ram_value) = health.used_memory_percentage {
        if ram_value.exceeds(&limits.max_ram_percentage) {
            return false;
        }
    }
    true
}

/// Takes the outcome of one check into the report: nothing when the check is
/// disabled, its value when it measured one, an error otherwise.
fn settle<T>(enabled: bool, outcome: CheckOutcome<T>) -> (r: Result<Option<T>, HealthError>)
    ensures
        settled(enabled, outcome) ==> r == Ok::<Option<T>, HealthError>(reported(enabled, outcome)),
        !settled(enabled, outcome) ==> (r matches Err(e) && explains(outcome, e)),
{
    if !enabled {
        return Ok(None);
    }
    match outcome {
        CheckOutcome::Value(v) => Ok(Some(v)),
        CheckOutcome::ProbeFailed(e) => Err(e),
        CheckOutcome::Skipped => Err(HealthError::Unexpected(unexpected_error("an enabled check did not run"))),
    }
}

/// Builds the report of one request and its transport status. It fails with
/// the error of the first enabled check that has no value, in report order;
/// otherwise the report holds exactly the enabled checks' values, and the
/// status is `OK` when it is healthy, `SERVICE_UNAVAILABLE` when not.
pub fn check_health(limits: &LimitSettings, outcomes: ProbeOutcomes) -> (r: Result<(u16, Health), HealthError>)
    ensures
        r is Ok <==> all_settled(*limits, outcomes),
        r matches Ok((status, h)) ==> h == report_of(*limits, outcomes) && status == status_of(h, *limits),
        r matches Err(e) ==> is_first_failure(*limits, outcomes, e),
{
    let ProbeOutcomes {
        hi_queue_size,
        unhealthy_spool_files,
        service_state,
        global_cpu_usage_percentage,
        used_memory_percentage,
    } = outcomes;
    let hi_queue_size = settle(limits.queue_check_enabled(), hi_queue_size)?;
    let unhealthy_spool_files = settle(limits.spool_check_enabled(), unhealthy_spool_files)?;
    let service_state = settle(limits.service_check_enabled(), service_state)?;
    let global_cpu_usage_percentage = settle(limits.cpu_check_enabled(), global_cpu_usage_percentage)?;
    let used_memory_percentage = settle(limits.ram_check_enabled(), used_memory_percentage)?;
    let health = Health {
        hi_queue_size,
        unhealthy_spool_files,
        service_state,
        global_cpu_usage_percentage,
        used_memory_percentage,
    };
    if health_is_good(&health, limits) {
        Ok((OK, health))
    } else {
        Ok((SERVICE_UNAVAILABLE, health))
    }
}

/// The queue depth read from the one row of the count query. A missing row
/// is a conversion error, like a NULL count.
pub fn get_hiqueue_count(row: Option<tiberius::Row>) -> (r: Result<i32, HealthError>)
    ensures
        row is None ==> r matches Err(HealthError::Conversion(_)),
        row matches Some(rw) ==> match i32_cell_of(rw, "HIQUEUECOUNT"@) {
            Ok(Some(v)) => r == Ok::<i32, HealthError>(v),
            _ => r matches Err(e) && cell_explains(i32_cell_of(rw, "HIQUEUECOUNT"@), e),
        },
{
    match row {
        None => Err(HealthError::Conversion("The queue count query returned no row".to_owned())),
        Some(row) => read_cell(column_i32(&row, "HIQUEUECOUNT"), "Failed to convert HIQUEUECOUNT"),
    }
}

/// The unhealthy channels read from the rows of the channel query, one for
/// each row, in the same order and field by field; the first row with a
/// NULL or unreadable cell fails the whole. No rows is no unhealthy channel.
pub fn get_unhealthy_spoolfiles(rows: Vec<tiberius::Row>) -> (r: Result<Vec<SpoolFileCount>, HealthError>)
    ensures
        r is Ok <==> (forall|i: int| 0 <= i < rows@.len() ==> row_is_full_channel(#[trigger] rows@[i])),
        r matches Ok(v) ==> {
            &&& v@.len() == rows@.len()
            &&& forall|i: int| 0 <= i < rows@.len() ==> is_channel_of(#[trigger] v@[i], rows@[i])
        },
        r matches Err(e) ==> exists|i: int|
            0 <= i < rows@.len() && !row_is_full_channel(#[trigger] rows@[i]) && row_error_explains(rows@[i], e)
                && forall|j: int| 0 <= j < i ==> row_is_full_channel(#[trigger] rows@[j]),
{
    let mut spool_file_counts: Vec<SpoolFileCount> = Vec::new();
    let mut i: usize = 0;
    while i < rows.len()
        invariant
            i <= rows@.len(),
            spool_file_counts@.len() == i,
            forall|j: int| 0 <= j < i ==> row_is_full_channel(#[trigger] rows@[j]),
            forall|j: int| 0 <= j < i ==> is_channel_of(#[trigger] spool_file_counts@[j], rows@[j]),
        decreases rows@.len() - i,
    {
        match SpoolFileCount::from_row(&rows[i]) {
            Ok(count) => {
                spool_file_counts.push(count);
                i = i + 1;
            },
            Err(e) => {
                assert(!row_is_full_channel(rows@[i as int]));
                return Err(e);
            },
        }
    }
    Ok(spool_file_counts)
}

} // verus!
