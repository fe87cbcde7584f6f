use onion_lifecycle::error::{
    exit_code, runtime_failure, startup_failure, ServiceError, EXIT_FAILURE, EXIT_SUCCESS,
};

#[test]
fn success_exits_with_zero() {
    assert_eq!(EXIT_SUCCESS, 0);
    assert_eq!(exit_code(&Ok(())), 0);
}

#[test]
fn every_failure_exits_with_one() {
    assert_eq!(EXIT_FAILURE, 1);
    assert_eq!(exit_code(&Err(ServiceError::Startup("a".to_string()))), 1);
    assert_eq!(exit_code(&Err(ServiceError::Runtime("b".to_string()))), 1);
    assert_eq!(exit_code(&Err(ServiceError::Runtime(String::new()))), 1);
}

#[test]
fn a_failure_message_is_what_then_detail() {
    assert_eq!(
        startup_failure("Unable to bind onion listener: ", "Os { code: 98 }"),
        ServiceError::Startup("Unable to bind onion listener: Os { code: 98 }".to_string())
    );
    assert_eq!(
        runtime_failure("onion endpoint service error: ", ""),
        ServiceError::Runtime("onion endpoint service error: ".to_string())
    );
}
