use maedic::configuration::LimitSettings;
use maedic::error::HealthError;
use maedic::health::{
    check_health, health_is_good, CheckOutcome, Health, ProbeOutcomes, OK, SERVICE_UNAVAILABLE,
};
use maedic::indicators::{ServiceState, SpoolFileCount};
use maedic::percentage::Percentage;

fn pct(hundredths: u64) -> Percentage {
    Percentage { hundredths }
}

fn nominal_health() -> Health {
    Health {
        hi_queue_size: Some(0),
        unhealthy_spool_files: Some(Vec::new()),
        service_state: Some(ServiceState::Up),
        global_cpu_usage_percentage: Some(pct(500)),
        used_memory_percentage: Some(pct(500)),
    }
}

fn one_unhealthy_channel() -> Vec<SpoolFileCount> {
    vec![SpoolFileCount {
        spool_file_count: 11,
        description: "yeet".to_string(),
        directory: "C:\\Yeet\\ProWatch".to_string(),
    }]
}

fn full_policy() -> LimitSettings {
    LimitSettings {
        hi_queue_count: 1000,
        spool_file_count: 10,
        max_cpu_percentage: pct(8000),
        max_ram_percentage: pct(8000),
        check_local_service: true,
    }
}

fn nominal_outcomes() -> ProbeOutcomes {
    ProbeOutcomes {
        hi_queue_size: CheckOutcome::Value(0),
        unhealthy_spool_files: CheckOutcome::Value(Vec::new()),
        service_state: CheckOutcome::Value(ServiceState::Up),
        global_cpu_usage_percentage: CheckOutcome::Value(pct(500)),
        used_memory_percentage: CheckOutcome::Value(pct(500)),
    }
}

fn status_of(limits: &LimitSettings, outcomes: ProbeOutcomes) -> u16 {
    match check_health(limits, outcomes) {
        Ok((status, _)) => status,
        Err(_) => panic!("the check failed"),
    }
}

#[test]
fn is_good_with_perfect_health() {
    assert!(health_is_good(&nominal_health(), &LimitSettings::default()));
}

#[test]
fn should_error_on_service_down() {
    assert!(!health_is_good(
        &Health {
            service_state: Some(ServiceState::Down),
            ..nominal_health()
        },
        &LimitSettings::default()
    ));
}

#[test]
fn should_error_on_big_hi_queue() {
    assert!(!health_is_good(
        &Health {
            hi_queue_size: Some(1001),
            ..nominal_health()
        },
        &LimitSettings::default()
    ));
}

#[test]
fn should_error_on_unhealthy_spool_files() {
    assert!(!health_is_good(
        &Health {
            unhealthy_spool_files: Some(one_unhealthy_channel()),
            ..nominal_health()
        },
        &LimitSettings::default()
    ));
}

#[test]
fn should_error_on_high_cpu_usage() {
    assert!(!health_is_good(
        &Health {
            used_memory_percentage: Some(pct(8100)),
            ..nominal_health()
        },
        &LimitSettings::default()
    ));
}

#[test]
fn should_error_on_high_ram_usage() {
    assert!(!health_is_good(
        &Health {
            global_cpu_usage_percentage: Some(pct(8100)),
            ..nominal_health()
        },
        &LimitSettings::default()
    ));
}

#[test]
fn ignoring_spool_files_yields_healthy_results() {
    let health = Health { unhealthy_spool_files: None, ..nominal_health() };
    assert!(health_is_good(&health, &LimitSettings::default()));
}

#[test]
fn ignoring_hi_queue_yields_healthy_results() {
    let health = Health { hi_queue_size: None, ..nominal_health() };
    assert!(health_is_good(&health, &LimitSettings::default()));
}

#[test]
fn ignoring_service_state_yields_healthy_results() {
    let health = Health { service_state: None, ..nominal_health() };
    assert!(health_is_good(&health, &LimitSettings::default()));
}

#[test]
fn ignoring_cpu_yields_healthy_results() {
    let health = Health { global_cpu_usage_percentage: None, ..nominal_health() };
    assert!(health_is_good(&health, &LimitSettings::default()));
}

#[test]
fn ignoring_ram_yields_healthy_results() {
    let health = Health { used_memory_percentage: None, ..nominal_health() };
    assert!(health_is_good(&health, &LimitSettings::default()));
}

#[test]
fn nominal_report_is_healthy() {
    let limits = full_policy();
    match check_health(&limits, nominal_outcomes()) {
        Ok((status, health)) => {
            assert_eq!(status, OK);
            assert_eq!(health.hi_queue_size, Some(0));
            assert_eq!(health.unhealthy_spool_files.map(|v| v.len()), Some(0));
            assert_eq!(health.service_state, Some(ServiceState::Up));
            assert_eq!(health.global_cpu_usage_percentage, Some(pct(500)));
            assert_eq!(health.used_memory_percentage, Some(pct(500)));
        }
        Err(_) => panic!("the check failed"),
    }
}

#[test]
fn queue_above_limit_is_unhealthy() {
    let outcomes = ProbeOutcomes { hi_queue_size: CheckOutcome::Value(1001), ..nominal_outcomes() };
    assert_eq!(status_of(&full_policy(), outcomes), SERVICE_UNAVAILABLE);
}

#[test]
fn one_unhealthy_channel_is_unhealthy() {
    let outcomes = ProbeOutcomes {
        unhealthy_spool_files: CheckOutcome::Value(one_unhealthy_channel()),
        ..nominal_outcomes()
    };
    assert_eq!(status_of(&full_policy(), outcomes), SERVICE_UNAVAILABLE);
}

#[test]
fn many_unhealthy_channels_are_as_unhealthy_as_one() {
    let mut channels = one_unhealthy_channel();
    channels.extend(one_unhealthy_channel());
    channels.extend(one_unhealthy_channel());
    let outcomes = ProbeOutcomes {
        unhealthy_spool_files: CheckOutcome::Value(channels),
        ..nominal_outcomes()
    };
    assert_eq!(status_of(&full_policy(), outcomes), SERVICE_UNAVAILABLE);
}

#[test]
fn service_down_is_unhealthy() {
    let outcomes = ProbeOutcomes {
        service_state: CheckOutcome::Value(ServiceState::Down),
        ..nominal_outcomes()
    };
    assert_eq!(status_of(&full_policy(), outcomes), SERVICE_UNAVAILABLE);
}

#[test]
fn cpu_and_ram_above_limit_are_unhealthy() {
    let cpu = ProbeOutcomes {
        global_cpu_usage_percentage: CheckOutcome::Value(pct(8001)),
        ..nominal_outcomes()
    };
    assert_eq!(status_of(&full_policy(), cpu), SERVICE_UNAVAILABLE);
    let ram = ProbeOutcomes {
        used_memory_percentage: CheckOutcome::Value(pct(8001)),
        ..nominal_outcomes()
    };
    assert_eq!(status_of(&full_policy(), ram), SERVICE_UNAVAILABLE);
}

#[test]
fn values_equal_to_their_limits_are_healthy() {
    let outcomes = ProbeOutcomes {
        hi_queue_size: CheckOutcome::Value(1000),
        global_cpu_usage_percentage: CheckOutcome::Value(pct(8000)),
        used_memory_percentage: CheckOutcome::Value(pct(8000)),
        ..nominal_outcomes()
    };
    assert_eq!(status_of(&full_policy(), outcomes), OK);
}

#[test]
fn all_checks_disabled_is_healthy_whatever_the_readings() {
    let limits = LimitSettings {
        hi_queue_count: 0,
        spool_file_count: 0,
        max_cpu_percentage: pct(0),
        max_ram_percentage: pct(0),
        check_local_service: false,
    };
    let outcomes = ProbeOutcomes {
        hi_queue_size: CheckOutcome::Value(5000),
        unhealthy_spool_files: CheckOutcome::Value(one_unhealthy_channel()),
        service_state: CheckOutcome::Value(ServiceState::Down),
        global_cpu_usage_percentage: CheckOutcome::Value(pct(9999)),
        used_memory_percentage: CheckOutcome::Value(pct(9999)),
    };
    match check_health(&limits, outcomes) {
        Ok((status, health)) => {
            assert_eq!(status, OK);
            assert!(health.hi_queue_size.is_none());
            assert!(health.unhealthy_spool_files.is_none());
            assert!(health.service_state.is_none());
            assert!(health.global_cpu_usage_percentage.is_none());
            assert!(health.used_memory_percentage.is_none());
        }
        Err(_) => panic!("the check failed"),
    }
}

#[test]
fn all_fields_absent_is_healthy_under_any_policy() {
    let health = Health {
        hi_queue_size: None,
        unhealthy_spool_files: None,
        service_state: None,
        global_cpu_usage_percentage: None,
        used_memory_percentage: None,
    };
    assert!(health_is_good(&health, &full_policy()));
    assert!(health_is_good(&health, &LimitSettings::default()));
}

#[test]
fn disabling_a_failing_check_makes_it_absent_and_healthy() {
    let limits = LimitSettings { hi_queue_count: 0, ..full_policy() };
    let outcomes = ProbeOutcomes { hi_queue_size: CheckOutcome::Skipped, ..nominal_outcomes() };
    match check_health(&limits, outcomes) {
        Ok((status, health)) => {
            assert_eq!(status, OK);
            assert!(health.hi_queue_size.is_none());
            assert_eq!(health.service_state, Some(ServiceState::Up));
        }
        Err(_) => panic!("the check failed"),
    }
}

#[test]
fn probe_failure_is_a_request_error() {
    let outcomes = ProbeOutcomes {
        unhealthy_spool_files: CheckOutcome::ProbeFailed(HealthError::Conversion("bad row".to_string())),
        ..nominal_outcomes()
    };
    match check_health(&full_policy(), outcomes) {
        Err(HealthError::Conversion(m)) => assert_eq!(m, "bad row"),
        _ => panic!("expected the probe's error"),
    }
}

#[test]
fn first_failing_check_gives_the_error() {
    let outcomes = ProbeOutcomes {
        hi_queue_size: CheckOutcome::ProbeFailed(HealthError::Database(
            tiberius::error::Error::Conversion("lost".into()),
        )),
        used_memory_percentage: CheckOutcome::ProbeFailed(HealthError::Conversion("later".to_string())),
        ..nominal_outcomes()
    };
    assert!(matches!(check_health(&full_policy(), outcomes), Err(HealthError::Database(_))));
}

#[test]
fn enabled_check_that_did_not_run_is_an_error() {
    let outcomes = ProbeOutcomes { service_state: CheckOutcome::Skipped, ..nominal_outcomes() };
    assert!(matches!(check_health(&full_policy(), outcomes), Err(HealthError::Unexpected(_))));
}

#[test]
fn failure_of_a_disabled_check_is_ignored() {
    let limits = LimitSettings { check_local_service: false, ..full_policy() };
    let outcomes = ProbeOutcomes {
        service_state: CheckOutcome::ProbeFailed(HealthError::Conversion("x".to_string())),
        ..nominal_outcomes()
    };
    assert_eq!(status_of(&limits, outcomes), OK);
}

#[test]
fn policy_reports_which_checks_run() {
    let limits = LimitSettings { spool_file_count: 0, max_ram_percentage: pct(0), ..full_policy() };
    assert!(limits.queue_check_enabled());
    assert!(!limits.spool_check_enabled());
    assert!(limits.service_check_enabled());
    assert!(limits.cpu_check_enabled());
    assert!(!limits.ram_check_enabled());
    let defaults = LimitSettings::default();
    assert!(!defaults.service_check_enabled());
    assert_eq!(defaults.hi_queue_count, 1000);
    assert_eq!(defaults.spool_file_count, 10);
    assert_eq!(defaults.max_cpu_percentage, pct(8000));
    assert_eq!(defaults.max_ram_percentage, pct(8000));
}

#[test]
fn no_unhealthy_channel_rows_is_an_empty_list() {
    match maedic::health::get_unhealthy_spoolfiles(Vec::new()) {
        Ok(v) => assert!(v.is_empty()),
        Err(_) => panic!("no rows is no error"),
    }
}

#[test]
fn missing_queue_count_row_is_a_conversion_error() {
    assert!(matches!(maedic::health::get_hiqueue_count(None), Err(HealthError::Conversion(_))));
}
