use clientes::model::{Authenticated, CustomerSummary, ServiceError};
use clientes::response::{
    error_message, list_response, listed, login_response, register_response, status_of, Body,
};

#[test]
fn status_codes() {
    assert_eq!(status_of(ServiceError::Unavailable), 503);
    assert_eq!(status_of(ServiceError::DuplicateEmail), 409);
    assert_eq!(status_of(ServiceError::DuplicateTaxId), 409);
    assert_eq!(status_of(ServiceError::InvalidCredentials), 401);
    assert_eq!(status_of(ServiceError::StoreError), 500);
}

#[test]
fn register_responses() {
    let r = register_response(Ok(()));
    assert_eq!(r.status, 200);
    assert!(matches!(r.body, Body::Message { success: true, message: "registered" }));
    let r = register_response(Err(ServiceError::DuplicateEmail));
    assert_eq!(r.status, 409);
    assert!(matches!(r.body, Body::Message { success: false, message: "email already registered" }));
    let r = register_response(Err(ServiceError::DuplicateTaxId));
    assert_eq!(r.status, 409);
    assert!(matches!(r.body, Body::Message { success: false, message: "taxId already registered" }));
}

#[test]
fn login_responses() {
    let r = login_response(Ok(Authenticated { id: 1, name: "Ana".to_string() }));
    assert_eq!(r.status, 200);
    match r.body {
        Body::LoggedIn { message, customer } => {
            assert_eq!(message, "login ok");
            assert_eq!(customer.id, 1);
            assert_eq!(customer.name, "Ana");
        }
        _ => panic!("expected a login body"),
    }
    let r = login_response(Err(ServiceError::InvalidCredentials));
    assert_eq!(r.status, 401);
}

#[test]
fn unavailable_and_store_error_responses() {
    let r = list_response(Err(ServiceError::Unavailable));
    assert_eq!(r.status, 503);
    assert!(matches!(r.body, Body::Message { success: false, message: "database unavailable" }));
    let r = list_response(Err(ServiceError::StoreError));
    assert_eq!(r.status, 500);
    assert!(matches!(r.body, Body::Message { success: false, message: "internal error" }));
    assert_eq!(error_message(ServiceError::InvalidCredentials), "invalid email or password");
}

#[test]
fn listing_response_keeps_rows() {
    let r = list_response(Ok(Vec::new()));
    assert_eq!(r.status, 200);
    assert!(matches!(r.body, Body::Listing(ref v) if v.is_empty()));
}

fn summary(id: i32, created_at: i64) -> CustomerSummary {
    CustomerSummary {
        id,
        name: "Ana".to_string(),
        tax_id: "111.111.111-11".to_string(),
        address: "Rua A".to_string(),
        email: "ana@x.com".to_string(),
        created_at,
    }
}

#[test]
fn listing_rows_write_creation_time() {
    let r = list_response(Ok(vec![summary(1, 0), summary(2, 1_500_000), summary(3, 1_662_921_288_000_000)]));
    assert_eq!(r.status, 200);
    match r.body {
        Body::Listing(rows) => {
            assert_eq!(rows.len(), 3);
            assert_eq!(rows[0].id, 1);
            assert_eq!(rows[0].name, "Ana");
            assert_eq!(rows[0].tax_id, "111.111.111-11");
            assert_eq!(rows[0].address, "Rua A");
            assert_eq!(rows[0].email, "ana@x.com");
            assert_eq!(rows[0].created_at, "1970-01-01 00:00:00");
            assert_eq!(rows[1].created_at, "1970-01-01 00:00:01.500");
            assert_eq!(rows[2].id, 3);
            assert_eq!(rows[2].created_at, "2022-09-11 18:34:48");
        }
        _ => panic!("expected a listing"),
    }
}

#[test]
fn creation_time_outside_range_is_empty() {
    let row = listed(&summary(1, i64::MIN));
    assert_eq!(row.created_at, "");
    assert_eq!(row.id, 1);
}
