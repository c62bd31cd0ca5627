use std::sync::{Arc, RwLock};

use finam_bot::auth::{AuthInterceptor, AuthorizeError, FinamAuthGrpcClient};

#[test]
fn bearer_header_for_token() {
    assert_eq!(AuthInterceptor::authorization_for("abc.def"), Ok("Bearer abc.def".to_string()));
    assert_eq!(AuthInterceptor::authorization_for(""), Ok("Bearer ".to_string()));
    assert_eq!(AuthInterceptor::authorization_for("a\tb"), Ok("Bearer a\tb".to_string()));
    assert_eq!(AuthInterceptor::authorization_for("é"), Ok("Bearer é".to_string()));
}

#[test]
fn bearer_header_refuses_control_characters() {
    assert_eq!(AuthInterceptor::authorization_for("a\nb"), Err(AuthorizeError::InvalidHeader));
    assert_eq!(AuthInterceptor::authorization_for("a\u{7f}"), Err(AuthorizeError::InvalidHeader));
    assert_eq!(AuthInterceptor::authorization_for("\u{0}"), Err(AuthorizeError::InvalidHeader));
}

#[test]
fn interceptor_reads_current_token() {
    let holder = Arc::new(RwLock::new("first".to_string()));
    let interceptor = AuthInterceptor::new(holder.clone());
    assert_eq!(interceptor.authorize(), Ok("Bearer first".to_string()));
    *holder.write().unwrap() = "second".to_string();
    assert_eq!(interceptor.authorize(), Ok("Bearer second".to_string()));
    assert!(Arc::ptr_eq(interceptor.holder(), &holder));
}

#[test]
fn auth_requests() {
    let r = FinamAuthGrpcClient::auth_request("SECRET");
    assert_eq!(r.secret, "SECRET");
    assert_eq!(r.source_app_id, "market-data-service");
    let r = FinamAuthGrpcClient::renewal_request("SECRET");
    assert_eq!(r.secret, "SECRET");
    assert_eq!(r.source_app_id, "market_data_service");
}

#[test]
fn auth_errors() {
    let e = FinamAuthGrpcClient::connect_error("refused".to_string());
    assert_eq!(e.to_display_string(), "(message: Failed to create auth client., cause: refused)");
    let e = FinamAuthGrpcClient::auth_error("denied".to_string());
    assert_eq!(e.to_display_string(), "(message: Failed to authenticate, cause: denied)");
}

#[test]
fn authorization_key() {
    assert_eq!(finam_bot::auth::authorization_key_text(), "authorization");
}
