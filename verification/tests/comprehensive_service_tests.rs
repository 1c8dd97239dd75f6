use daily_update_service::DailyUpdateServiceV2;
use daily_update_service::ProductData;
use daily_update_service::config::CacheConfig;
use daily_update_service::config::GoConfig;
use daily_update_service::config::ServiceConfig;
use daily_update_service::config::UpdateConfig;
use daily_update_service::go_integration::ExecOutcome;

#[test]
fn test_service_creation_and_initialization_branches() {
    let config = ServiceConfig::default();
    let mut service = DailyUpdateServiceV2::new(config);

    let stats = service.get_service_stats();
    assert!(!stats.is_running);
    assert_eq!(stats.total_processed, 0);
    assert_eq!(stats.total_accepted, 0);
    assert_eq!(stats.total_denied, 0);

    // With both diagnostics failing, initialization reports the failure.
    let init_result = service.initialize(0, false, false);
    assert!(init_result.is_err());
    // With both passing, it succeeds.
    let init_result = service.initialize(0, true, true);
    assert!(init_result.is_ok());
}

#[test]
fn test_service_start_stop_branches() {
    let config = ServiceConfig::default();
    let mut service = DailyUpdateServiceV2::new(config);

    let stats = service.get_service_stats();
    assert!(!stats.is_running);

    assert!(service.start());
    assert!(service.get_service_stats().is_running);

    service.stop();
    assert!(!service.get_service_stats().is_running);
}

#[test]
fn test_service_stats_branches() {
    let config = ServiceConfig::default();
    let mut service = DailyUpdateServiceV2::new(config);

    let stats = service.get_service_stats();
    assert!(!stats.is_running);
    assert_eq!(stats.total_processed, 0);
    assert_eq!(stats.total_accepted, 0);
    assert_eq!(stats.total_denied, 0);

    service.initialize(0, true, true).ok();

    let stats = service.get_service_stats();
    assert_eq!(stats.total_processed, 0);
    assert_eq!(stats.total_accepted, 0);
    assert_eq!(stats.total_denied, 0);
}

#[test]
fn test_service_force_update_branches() {
    let t0: i64 = 100;
    let mut service = DailyUpdateServiceV2::new_at(ServiceConfig::default(), t0);

    // Before initialization the forced cycle is refused.
    let refused = service.force_hourly_update(&ExecOutcome::Exited(0), Vec::new(), &Vec::new(), t0);
    assert!(refused.is_err());

    service.initialize(t0, true, true).unwrap();

    // A failed backend run aborts the cycle.
    let aborted =
        service.force_hourly_update(&ExecOutcome::SpawnFailed, Vec::new(), &Vec::new(), t0);
    assert!(aborted.is_err());

    // A clean run completes it.
    let completed =
        service.force_hourly_update(&ExecOutcome::Exited(0), Vec::new(), &Vec::new(), t0 + 1);
    assert!(completed.is_ok());
    assert_eq!(service.get_service_stats().last_update_time, t0 + 1);
}

#[test]
fn test_service_get_accepted_products_branches() {
    let mut service = DailyUpdateServiceV2::new_at(ServiceConfig::default(), 0);

    let refused = service.get_accepted_products(&ExecOutcome::Exited(0), Vec::new());
    assert!(refused.is_err());

    service.initialize(0, true, true).unwrap();
    let fetched = service.get_accepted_products(&ExecOutcome::Exited(0), Vec::new());
    assert!(fetched.is_ok());
    let failed = service.get_accepted_products(&ExecOutcome::Exited(1), Vec::new());
    assert!(failed.is_err());
}

#[test]
fn test_service_multiple_start_stop_cycles() {
    let config = ServiceConfig::default();
    let mut service = DailyUpdateServiceV2::new(config);

    for _ in 0..3 {
        assert!(service.start());
        assert!(service.get_service_stats().is_running);

        service.stop();
        assert!(!service.get_service_stats().is_running);
    }
}

#[test]
fn test_service_config_variations() {
    let default_config = ServiceConfig::default();
    let mut service1 = DailyUpdateServiceV2::new(default_config);
    assert!(service1.initialize(0, true, true).is_ok());

    let custom_config = ServiceConfig {
        base_directory: "./custom-data".to_string(),
        cache_config: CacheConfig { max_capacity: 5000, ttl_seconds: 1800, idle_seconds: 900 },
        go_config: GoConfig {
            binary_path: "custom-go-binary".to_string(),
            working_directory: "custom-working-dir".to_string(),
            command_timeout: 60,
        },
        update_config: UpdateConfig {
            update_interval_hours: 2,
            check_interval_minutes: 10,
            enable_automatic_updates: false,
        },
    };

    let mut service2 = DailyUpdateServiceV2::new_at(custom_config, 1000);
    assert!(service2.initialize(1000, true, true).is_ok());

    // The two-hour interval governs the schedule.
    assert!(!service2.is_time_for_hourly_update(1000 + 3600));
    assert!(service2.is_time_for_hourly_update(1000 + 2 * 3600));
    // The ten-minute poll interval governs the sleep.
    assert_eq!(service2.sleep_seconds(), 600);
}

#[test]
fn test_service_component_interaction_branches() {
    let config = ServiceConfig::default();
    let mut service = DailyUpdateServiceV2::new(config);

    let cache_stats = service.cache_manager.get_cache_stats();
    assert_eq!(cache_stats.total_entries, 0);

    let go_stats = service.go_integration.get_go_stats();
    assert_eq!(go_stats.go_calls, 0);
    assert_eq!(go_stats.is_initialized, false);

    let init_result = service.cache_manager.initialize(0);
    assert!(init_result.is_ok());
}

#[test]
fn test_service_update_time_branches() {
    let t0: i64 = 500;
    let mut service = DailyUpdateServiceV2::new_at(ServiceConfig::default(), t0);
    service.initialize(t0, true, true).unwrap();

    let initial_time = service.get_service_stats().last_update_time;
    assert_eq!(initial_time, t0);

    // The time moves only when a cycle completes.
    let _ = service.force_hourly_update(&ExecOutcome::SpawnFailed, Vec::new(), &Vec::new(), t0 + 5);
    assert_eq!(service.get_service_stats().last_update_time, t0);

    let _ = service.force_hourly_update(&ExecOutcome::Exited(0), Vec::new(), &Vec::new(), t0 + 5);
    let updated_time = service.get_service_stats().last_update_time;
    assert!(updated_time >= initial_time);
    assert_eq!(updated_time, t0 + 5);
}

#[test]
fn test_service_statistics_tracking() {
    let config = ServiceConfig::default();
    let service = DailyUpdateServiceV2::new(config);

    let stats = service.get_service_stats();
    assert_eq!(stats.total_processed, 0);
    assert_eq!(stats.total_accepted, 0);
    assert_eq!(stats.total_denied, 0);
}

#[test]
fn test_service_edge_cases() {
    let mut service = DailyUpdateServiceV2::new_at(ServiceConfig::default(), 0);

    // Repeated initialization attempts are safe.
    assert!(service.initialize(0, true, true).is_ok());
    assert!(service.initialize(1, true, true).is_ok());

    // Repeated starts: the second is a no-op.
    assert!(service.start());
    assert!(!service.start());

    // Repeated stops both leave the service stopped.
    service.stop();
    service.stop();
    assert!(!service.get_service_stats().is_running);
}

#[test]
fn test_service_product_data_handling() {
    let products = vec![
        ProductData::new(
            "Test Product 1".to_string(),
            "test-product-1".to_string(),
            "protein".to_string(),
            "user-1".to_string(),
        ),
        ProductData::new(
            "Test Product 2".to_string(),
            "test-product-2".to_string(),
            "preworkout".to_string(),
            "user-2".to_string(),
        ),
        ProductData::new(
            "Test Product 3".to_string(),
            "test-product-3".to_string(),
            "multivitamin".to_string(),
            "user-3".to_string(),
        ),
    ];

    for product in &products {
        assert!(product.is_pending());

        let mut product_clone = product.clone();
        product_clone.approval_status = 1;
        assert!(product_clone.is_approved());
        assert!(!product_clone.is_pending());
        assert!(!product_clone.is_denied());

        product_clone.approval_status = -1;
        assert!(product_clone.is_denied());
        assert!(!product_clone.is_approved());
        assert!(!product_clone.is_pending());
    }
}

#[test]
fn test_service_comprehensive_workflow() {
    let t0: i64 = 10;
    let mut service = DailyUpdateServiceV2::new_at(ServiceConfig::default(), t0);

    let init_result = service.initialize(t0, true, true);
    assert!(init_result.is_ok());

    let initial_stats = service.get_service_stats();
    assert_eq!(initial_stats.total_processed, 0);

    assert!(service.start());

    let records = vec![ProductData::new_at(
        "P".to_string(),
        "p".to_string(),
        "protein".to_string(),
        "u".to_string(),
        t0,
    )];
    let update_result = service.force_hourly_update(
        &ExecOutcome::Exited(0),
        records,
        &vec![ExecOutcome::Exited(0)],
        t0 + 3600,
    );
    assert!(update_result.is_ok());

    let after_update = service.get_service_stats();
    assert_eq!(after_update.total_processed, 1);
    assert_eq!(after_update.total_accepted, 1);
    assert_eq!(after_update.total_denied, 0);

    let products_result = service.get_accepted_products(&ExecOutcome::Exited(0), Vec::new());
    assert!(products_result.is_ok());

    service.stop();

    let final_stats = service.get_service_stats();
    assert!(!final_stats.is_running);
}
