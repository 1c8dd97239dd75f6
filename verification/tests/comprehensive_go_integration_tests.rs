use daily_update_service::ProductData;
use daily_update_service::go_integration::ExecOutcome;
use daily_update_service::go_integration::GoIntegration;

#[test]
fn test_go_integration_all_branches() {
    let go_integration = GoIntegration::new();

    assert!(!go_integration.is_initialized);
    assert_eq!(go_integration.go_calls, 0);

    let stats = go_integration.get_go_stats();
    assert_eq!(stats.go_calls, 0);
    assert_eq!(stats.is_initialized, false);
    assert_eq!(stats.go_binary_path, "");
    assert_eq!(stats.working_directory, "");
}

#[test]
fn test_go_integration_initialization_branches() {
    let mut go_integration = GoIntegration::new();

    // Failure path: setup does not complete.
    let completed = go_integration.initialize(false, false);
    assert!(!completed);
    assert!(!go_integration.is_initialized);

    // Success path: setup completes.
    let completed = go_integration.initialize(true, true);
    assert!(completed);
    assert!(go_integration.is_initialized);

    // A later failing attempt does not undo an earlier success.
    let completed = go_integration.initialize(false, true);
    assert!(!completed);
    assert!(go_integration.is_initialized);
}

#[test]
fn test_go_integration_operations_when_uninitialized() {
    let mut go_integration = GoIntegration::new();

    let get_products_result =
        go_integration.get_accepted_products(&ExecOutcome::Exited(0), Vec::new());
    assert!(get_products_result.is_err());

    let migrate_result = go_integration.migrate_product(&ExecOutcome::Exited(0));
    assert!(migrate_result.is_err());

    let check_product_result = go_integration.check_product_exists(&ExecOutcome::Exited(0));
    assert!(check_product_result.is_err());

    let check_brand_result = go_integration.check_brand_exists(&ExecOutcome::Exited(0));
    assert!(check_brand_result.is_err());

    // Verification never needs setup; it only reads the outcome.
    assert!(go_integration.verify_go_component(&ExecOutcome::Exited(0)));
}

#[test]
fn test_go_integration_batch_products_json_generation() {
    let go_integration = GoIntegration::new();

    let empty_products = vec![];
    let empty_json = go_integration.generate_batch_products_json(&empty_products);
    assert_eq!(empty_json, "[]");

    let single_product = vec![ProductData::new(
        "Single Product".to_string(),
        "single-product".to_string(),
        "protein".to_string(),
        "user-1".to_string(),
    )];
    let single_json = go_integration.generate_batch_products_json(&single_product);
    assert!(single_json.contains("Single Product"));
    assert!(single_json.contains("single-product"));
    assert!(single_json.contains("protein"));
    assert!(single_json.contains("user-1"));
    assert_eq!(single_json, format!("[{}]", single_product[0].to_json()));

    let multiple_products = vec![
        ProductData::new(
            "Product 1".to_string(),
            "product-1".to_string(),
            "protein".to_string(),
            "user-1".to_string(),
        ),
        ProductData::new(
            "Product 2".to_string(),
            "product-2".to_string(),
            "preworkout".to_string(),
            "user-2".to_string(),
        ),
        ProductData::new(
            "Product 3".to_string(),
            "product-3".to_string(),
            "multivitamin".to_string(),
            "user-3".to_string(),
        ),
    ];
    let multiple_json = go_integration.generate_batch_products_json(&multiple_products);
    assert!(multiple_json.starts_with('['));
    assert!(multiple_json.ends_with(']'));
    assert!(multiple_json.contains("Product 1"));
    assert!(multiple_json.contains("Product 2"));
    assert!(multiple_json.contains("Product 3"));
}

#[test]
fn test_go_integration_response_parsing_branches() {
    let go_integration = GoIntegration::new();

    let success_cases = vec![
        ("{\"success\": true, \"message\": \"Operation completed\"}", true),
        ("{\"success\":true}", true),
        ("{\"success\": true, \"data\": {}}", true),
    ];

    for (response, expected) in success_cases {
        let result = go_integration.parse_go_response(response);
        assert_eq!(result, expected, "failed for response: {}", response);
    }

    // These all still mention "success", so they all parse as success.
    let failure_cases = vec![
        ("{\"success\": false, \"message\": \"Operation failed\"}", true),
        ("{\"success\":false}", true),
        ("{\"success\": false, \"error\": \"Some error\"}", true),
    ];

    for (response, expected) in failure_cases {
        let result = go_integration.parse_go_response(response);
        assert_eq!(result, expected, "failed for response: {}", response);
    }

    let invalid_cases = vec!["invalid json", "{", "}", "null", ""];
    for response in invalid_cases {
        assert!(!go_integration.parse_go_response(response), "response: {}", response);
    }

    // Mentions "success" even though malformed.
    assert!(go_integration.parse_go_response("{\"success\":}"));
}

#[test]
fn test_go_integration_stats_accuracy() {
    let mut go_integration = GoIntegration::new();

    let initial_stats = go_integration.get_go_stats();
    assert_eq!(initial_stats.go_calls, 0);
    assert_eq!(initial_stats.is_initialized, false);

    // Refused calls are not counted.
    let _ = go_integration.get_accepted_products(&ExecOutcome::Exited(0), Vec::new());
    let _ = go_integration.get_accepted_products(&ExecOutcome::Exited(0), Vec::new());

    let updated_stats = go_integration.get_go_stats();
    assert_eq!(updated_stats.go_calls, 0);
    assert_eq!(updated_stats.is_initialized, false);

    // Counted once initialized.
    go_integration.initialize(true, true);
    let _ = go_integration.get_accepted_products(&ExecOutcome::Exited(0), Vec::new());
    let _ = go_integration.migrate_product(&ExecOutcome::Exited(0));
    let counted = go_integration.get_go_stats();
    assert_eq!(counted.go_calls, 2);
    assert_eq!(counted.successful_inserts, 1);
}

#[test]
fn test_go_integration_product_data_variations() {
    let go_integration = GoIntegration::new();

    let categories = vec!["protein", "preworkout", "multivitamin", "creatine", "omega3"];

    for category in categories {
        let product = ProductData::new(
            format!("Test {} Product", category),
            format!("test-{}-product", category),
            category.to_string(),
            "test-user-id".to_string(),
        );

        let products = vec![product];
        let json = go_integration.generate_batch_products_json(&products);
        assert!(json.contains(category));
    }
}

#[test]
fn test_go_integration_edge_cases() {
    let go_integration = GoIntegration::new();

    // Payload rendering copes with empty, long and special-character text.
    let empty_product = ProductData::new(
        "".to_string(),
        "".to_string(),
        "".to_string(),
        "".to_string(),
    );
    let json = go_integration.generate_batch_products_json(&vec![empty_product]);
    assert!(json.contains("\"name\":\"\""));

    let long_string = "a".repeat(1000);
    let long_product = ProductData::new(
        long_string.clone(),
        long_string.clone(),
        long_string.clone(),
        long_string.clone(),
    );
    let json = go_integration.generate_batch_products_json(&vec![long_product]);
    assert!(json.contains(&long_string));

    let special_product = ProductData::new(
        "Test Product with Special Chars: !@#$%^&*()".to_string(),
        "test-product-with-special-chars".to_string(),
        "protein".to_string(),
        "user-with-special-chars".to_string(),
    );
    let json = go_integration.generate_batch_products_json(&vec![special_product]);
    assert!(json.contains("!@#$%^&*()"));
}

#[test]
fn test_go_integration_concurrent_initialization() {
    // Two setups that raced in the original land one after the other here;
    // the integration ends up initialized either way.
    let mut go_integration = GoIntegration::new();
    go_integration.initialize(true, true);
    go_integration.initialize(true, true);
    assert!(go_integration.is_initialized);
}
