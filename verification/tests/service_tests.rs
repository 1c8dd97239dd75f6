use daily_update_service::DailyUpdateServiceV2;
use daily_update_service::PollDecision;
use daily_update_service::ProductData;
use daily_update_service::ServiceError;
use daily_update_service::config::ServiceConfig;
use daily_update_service::go_integration::ExecOutcome;

fn sample_record(name: &str, now: i64) -> ProductData {
    ProductData::new_at(
        name.to_string(),
        "slug".to_string(),
        "protein".to_string(),
        "user".to_string(),
        now,
    )
}

#[test]
fn test_service_creation() {
    let config = ServiceConfig::default();
    let service = DailyUpdateServiceV2::new(config);

    assert!(!service.get_service_stats().is_running);
}

#[test]
fn test_service_initialization() {
    let config = ServiceConfig::default();
    let mut service = DailyUpdateServiceV2::new_at(config, 1000);

    // Both backend diagnostics pass: initialization succeeds.
    let result = service.initialize(1000, true, true);
    assert!(result.is_ok());
    assert!(service.get_service_stats().go_stats.is_initialized);

    // A failing diagnostic is reported and nothing starts.
    let mut second = DailyUpdateServiceV2::new_at(ServiceConfig::default(), 1000);
    let failed = second.initialize(1000, false, true);
    assert_eq!(failed.unwrap_err(), ServiceError::NotInitialized);
    let stats = second.get_service_stats();
    assert!(!stats.go_stats.is_initialized);
    assert!(!stats.is_running);
}

#[test]
fn test_product_data_creation() {
    let product = ProductData::new(
        "Test Protein".to_string(),
        "test-protein".to_string(),
        "protein".to_string(),
        "test-user-id".to_string(),
    );

    assert_eq!(product.name, "Test Protein");
    assert_eq!(product.slug, "test-protein");
    assert_eq!(product.category, "protein");
    assert_eq!(product.submitted_by, "test-user-id");
    assert_eq!(product.approval_status, 0);
    assert!(product.is_pending());
    assert!(!product.is_approved());
    assert!(!product.is_denied());
    assert_eq!(product.created_at, product.updated_at);
}

#[test]
fn test_product_data_approval_status() {
    let mut product = ProductData::new(
        "Test Product".to_string(),
        "test-product".to_string(),
        "preworkout".to_string(),
        "test-user-id".to_string(),
    );

    assert!(product.is_pending());
    assert!(!product.is_approved());
    assert!(!product.is_denied());

    product.approval_status = 1;
    assert!(!product.is_pending());
    assert!(product.is_approved());
    assert!(!product.is_denied());

    product.approval_status = -1;
    assert!(!product.is_pending());
    assert!(!product.is_approved());
    assert!(product.is_denied());
}

#[test]
fn test_service_stats() {
    let config = ServiceConfig::default();
    let service = DailyUpdateServiceV2::new(config);

    let stats = service.get_service_stats();

    assert!(!stats.is_running);
    assert_eq!(stats.total_processed, 0);
    assert_eq!(stats.total_accepted, 0);
    assert_eq!(stats.total_denied, 0);
    assert_eq!(stats.cache_stats.total_entries, 0);
    assert_eq!(stats.go_stats.go_calls, 0);
}

#[test]
fn test_service_start_stop() {
    let config = ServiceConfig::default();
    let mut service = DailyUpdateServiceV2::new(config);

    assert!(!service.get_service_stats().is_running);

    // The first start flips the running flag and asks for a loop.
    assert!(service.start());
    assert!(service.get_service_stats().is_running);

    // A repeated start is a safe no-op.
    assert!(!service.start());
    assert!(service.get_service_stats().is_running);

    service.stop();
    assert!(!service.get_service_stats().is_running);

    // A repeated stop is a safe no-op too.
    service.stop();
    assert!(!service.get_service_stats().is_running);
}

#[test]
fn test_service_config_default() {
    let config = ServiceConfig::default();

    assert_eq!(config.base_directory, "./data/daily-update");
    assert_eq!(config.cache_config.max_capacity, 10000);
    assert_eq!(config.cache_config.ttl_seconds, 3600);
    assert_eq!(config.cache_config.idle_seconds, 1800);
    assert_eq!(config.go_config.binary_path, "go-supabase/main");
    assert_eq!(config.go_config.working_directory, "go-supabase");
    assert_eq!(config.go_config.command_timeout, 30);
    assert_eq!(config.update_config.update_interval_hours, 1);
    assert_eq!(config.update_config.check_interval_minutes, 5);
    assert!(config.update_config.enable_automatic_updates);
}

#[test]
fn test_get_accepted_products() {
    let mut service = DailyUpdateServiceV2::new_at(ServiceConfig::default(), 0);

    // Before initialization the call is refused.
    let refused = service.get_accepted_products(&ExecOutcome::Exited(0), Vec::new());
    assert_eq!(refused.unwrap_err(), ServiceError::NotInitialized);

    service.initialize(0, true, true).unwrap();
    let records = vec![sample_record("A", 0), sample_record("B", 0)];
    let fetched = service.get_accepted_products(&ExecOutcome::Exited(0), records);
    assert_eq!(fetched.unwrap().len(), 2);
}

#[test]
fn test_force_hourly_update() {
    let t0: i64 = 1_000_000;
    let mut service = DailyUpdateServiceV2::new_at(ServiceConfig::default(), t0);
    service.initialize(t0, true, true).unwrap();

    // A forced cycle at the very moment of the last update still runs:
    // the forced path never asks whether a cycle is due.
    let result = service.force_hourly_update(&ExecOutcome::Exited(0), Vec::new(), &Vec::new(), t0);
    assert!(result.is_ok());
    assert_eq!(service.get_service_stats().last_update_time, t0);
}

#[test]
fn test_error_handling() {
    let mut service = DailyUpdateServiceV2::new_at(ServiceConfig::default(), 0);

    // Cycles before initialization are refused and change no counter.
    let result = service.perform_hourly_update(&ExecOutcome::Exited(0), Vec::new(), &Vec::new(), 0);
    assert_eq!(result.unwrap_err(), ServiceError::NotInitialized);
    let stats = service.get_service_stats();
    assert_eq!(stats.total_processed, 0);
    assert_eq!(stats.go_stats.go_calls, 0);
}

#[test]
fn test_hourly_scheduling_scenario() {
    // With the clock at T0 and a one-hour interval: a wake half an hour
    // later runs nothing; a wake after 61 minutes runs exactly one cycle
    // and advances the last update time to that wake.
    let t0: i64 = 1_700_000_000;
    let mut service = DailyUpdateServiceV2::new_at(ServiceConfig::default(), t0);
    service.initialize(t0, true, true).unwrap();
    assert!(service.start());

    assert!(!service.is_time_for_hourly_update(t0 + 30 * 60));
    assert_eq!(service.poll_step(t0 + 30 * 60), PollDecision::Idle);

    let wake = t0 + 61 * 60;
    assert!(service.is_time_for_hourly_update(wake));
    assert_eq!(service.poll_step(wake), PollDecision::RunCycle);

    let result = service.perform_hourly_update(&ExecOutcome::Exited(0), Vec::new(), &Vec::new(), wake);
    assert!(result.is_ok());
    assert_eq!(service.get_service_stats().last_update_time, wake);

    // Right after the cycle nothing further is due.
    assert_eq!(service.poll_step(wake), PollDecision::Idle);

    // A stop request wins over everything at the next wake.
    service.stop();
    assert_eq!(service.poll_step(wake + 2 * 3600), PollDecision::Finish);
}

#[test]
fn test_fetch_failure_aborts_cycle() {
    // A failed fetch aborts the cycle: the counters, the cache and the last
    // update time stay exactly as they were, and no reset happens.
    let t0: i64 = 50_000;
    let mut service = DailyUpdateServiceV2::new_at(ServiceConfig::default(), t0);
    service.initialize(t0, true, true).unwrap();

    service.cache_manager.insert("k".to_string(), "v".to_string());
    assert_eq!(service.cache_manager.get("k"), Some("v".to_string()));

    let before = service.get_service_stats();

    let result =
        service.perform_hourly_update(&ExecOutcome::SpawnFailed, Vec::new(), &Vec::new(), t0 + 7200);
    assert_eq!(result.unwrap_err(), ServiceError::BackendUnavailable);

    let after = service.get_service_stats();
    assert_eq!(after.last_update_time, before.last_update_time);
    assert_eq!(after.total_processed, 0);
    assert_eq!(after.total_accepted, 0);
    assert_eq!(after.total_denied, 0);
    // No reset: the cached entry and the hit counter survive.
    assert_eq!(after.cache_stats.total_entries, 1);
    assert_eq!(after.cache_stats.hit_count, 1);
    // The failed cycle shortens the next sleep to the backoff.
    assert_eq!(service.sleep_seconds(), 60);
}

#[test]
fn test_cycle_counts_three_records() {
    // Three fetched records, two clean migrations and one failure: the
    // counters step by processed 3, accepted 2, denied 1.
    let t0: i64 = 10_000;
    let mut service = DailyUpdateServiceV2::new_at(ServiceConfig::default(), t0);
    service.initialize(t0, true, true).unwrap();

    let records = vec![sample_record("A", t0), sample_record("B", t0), sample_record("C", t0)];
    let migrations =
        vec![ExecOutcome::Exited(0), ExecOutcome::Exited(0), ExecOutcome::Exited(1)];

    let result =
        service.perform_hourly_update(&ExecOutcome::Exited(0), records, &migrations, t0 + 3600);
    assert!(result.is_ok());

    let stats = service.get_service_stats();
    assert_eq!(stats.total_processed, 3);
    assert_eq!(stats.total_accepted, 2);
    assert_eq!(stats.total_denied, 1);
    assert_eq!(stats.last_update_time, t0 + 3600);
    // The backend counters follow: one fetch and three migrations.
    assert_eq!(stats.go_stats.go_calls, 4);
    assert_eq!(stats.go_stats.successful_inserts, 2);
    assert_eq!(stats.go_stats.failed_inserts, 1);
    // The cycle ends with the periodic reset.
    assert_eq!(stats.cache_stats.total_entries, 0);
    assert_eq!(stats.cache_stats.last_reset_time, t0 + 3600);
    // After a completed cycle the sleep is the configured poll interval.
    assert_eq!(service.sleep_seconds(), 5 * 60);
}

#[test]
fn test_cycle_reset_spares_admin_cache() {
    // The reset at the end of a cycle leaves the admin store intact.
    let t0: i64 = 0;
    let mut service = DailyUpdateServiceV2::new_at(ServiceConfig::default(), t0);
    service.initialize(t0, true, true).unwrap();

    service.cache_manager.insert_admin("a".to_string(), "keep".to_string());
    service.cache_manager.insert("p".to_string(), "drop".to_string());

    service
        .perform_hourly_update(&ExecOutcome::Exited(0), Vec::new(), &Vec::new(), 3600)
        .unwrap();

    assert_eq!(service.cache_manager.get_admin("a"), Some("keep".to_string()));
    assert_eq!(service.cache_manager.get("p"), None);
}

#[test]
fn test_sleep_seconds_follows_config() {
    let mut config = ServiceConfig::default();
    config.update_config.check_interval_minutes = 2;
    let service = DailyUpdateServiceV2::new_at(config, 0);
    assert_eq!(service.sleep_seconds(), 120);
}

#[test]
fn test_migration_failures_do_not_abort_cycle() {
    // A per-record failure increments denied and the cycle continues.
    let mut service = DailyUpdateServiceV2::new_at(ServiceConfig::default(), 0);
    service.initialize(0, true, true).unwrap();

    let records = vec![sample_record("A", 0), sample_record("B", 0)];
    let migrations = vec![ExecOutcome::SpawnFailed, ExecOutcome::Exited(0)];

    let result = service.perform_hourly_update(&ExecOutcome::Exited(0), records, &migrations, 100);
    assert!(result.is_ok());

    let stats = service.get_service_stats();
    assert_eq!(stats.total_processed, 2);
    assert_eq!(stats.total_accepted, 1);
    assert_eq!(stats.total_denied, 1);
    assert_eq!(stats.last_update_time, 100);
}
