use settleone_backend::api::ens::{LookupResponse, ResolveResponse};
use settleone_backend::api::error::AppError;
use settleone_backend::api::health_check;
use settleone_backend::api::session::{
    add_payment, create_session, finalize_session, get_session, remove_payment,
    AddPaymentRequest, CreateSessionRequest,
};
use settleone_backend::models::session::SessionStatus;
use settleone_backend::services::ens::{EnsError, EnsResult, EnsService, ResolveAction, ReverseAction};
use settleone_backend::services::session::SessionService;

fn new_session(state: &mut SessionService, user: &str) -> String {
    let response = create_session(state, CreateSessionRequest { user_address: user.to_string() });
    response.session_id
}

fn pay(recipient: &str, ens: Option<&str>, amount: &str) -> AddPaymentRequest {
    AddPaymentRequest {
        recipient: recipient.to_string(),
        recipient_ens: ens.map(|n| n.to_string()),
        amount: amount.to_string(),
    }
}

#[test]
fn test_health_check() {
    let response = health_check("0.1.0");
    assert_eq!(response.status, "ok");
    assert_eq!(response.version, "0.1.0");
    assert!(!response.version.is_empty());
}

#[test]
fn test_create_session() {
    let mut state = SessionService::new();
    let response = create_session(
        &mut state,
        CreateSessionRequest {
            user_address: "0xd8dA6BF26964aF9D7eEd9e03E53415D37aA96045".to_string(),
        },
    );
    assert_eq!(response.status, "active");
    assert!(!response.session_id.is_empty());
    assert_eq!(
        state.get_session(&response.session_id).unwrap().user,
        "0xd8dA6BF26964aF9D7eEd9e03E53415D37aA96045"
    );
}

#[test]
fn test_get_session() {
    let mut state = SessionService::new();
    let session_id = new_session(&mut state, "0xd8dA6BF26964aF9D7eEd9e03E53415D37aA96045");
    let response = get_session(&state, &session_id).unwrap();
    assert_eq!(response.session.id, session_id);
    assert_eq!(response.session.status, SessionStatus::Active);
    assert!(response.session.payments.is_empty());
}

#[test]
fn test_get_session_not_found() {
    let state = SessionService::new();
    let fault = get_session(&state, "nonexistent-id-12345").unwrap_err();
    assert_eq!(fault.status(), 404);
    assert_eq!(fault.message(), "Session nonexistent-id-12345 not found");
}

#[test]
fn test_add_payment() {
    let mut state = SessionService::new();
    let session_id = new_session(&mut state, "0xSender");
    let response =
        add_payment(&mut state, &session_id, pay("0xRecipient1", Some("alice.eth"), "1000000"))
            .unwrap();
    assert_eq!(response.session.payments.len(), 1);
    assert_eq!(response.session.total_amount, "1000000");
    assert_eq!(response.session.payments[0].recipient_ens.as_deref(), Some("alice.eth"));
    let response =
        add_payment(&mut state, &session_id, pay("0xRecipient2", None, "2000000")).unwrap();
    assert_eq!(response.session.payments.len(), 2);
    assert_eq!(response.session.total_amount, "3000000");
    assert_eq!(response.session.payments[0].recipient, "0xRecipient1");
    assert_eq!(response.session.payments[1].recipient, "0xRecipient2");
}

#[test]
fn test_add_payment_session_not_found() {
    let mut state = SessionService::new();
    let fault = add_payment(&mut state, "nonexistent", pay("0xRecipient", None, "1000000"))
        .unwrap_err();
    assert_eq!(fault.status(), 404);
    assert!(matches!(fault, AppError::NotFound(_)));
}

#[test]
fn add_payment_with_bad_amount_is_a_bad_request() {
    let mut state = SessionService::new();
    let session_id = new_session(&mut state, "0xSender");
    let fault = add_payment(&mut state, &session_id, pay("0xR", None, "abc")).unwrap_err();
    assert_eq!(fault.status(), 400);
    assert_eq!(fault.message(), "Failed to parse payment amount: abc");
    let max = u128::MAX.to_string();
    add_payment(&mut state, &session_id, pay("0xR", None, &max)).unwrap();
    let fault = add_payment(&mut state, &session_id, pay("0xR", None, "1")).unwrap_err();
    assert_eq!(fault.status(), 400);
    assert_eq!(fault.message(), "Total amount overflow");
    let kept = get_session(&state, &session_id).unwrap().session;
    assert_eq!(kept.payments.len(), 1);
    assert_eq!(kept.total_amount, max);
}

#[test]
fn test_finalize_session() {
    let mut state = SessionService::new();
    let session_id = new_session(&mut state, "0xSender");
    add_payment(&mut state, &session_id, pay("0xRecipient", None, "5000000")).unwrap();
    let response = finalize_session(&mut state, &session_id).unwrap();
    assert_eq!(response.status, "pending");
    assert_eq!(response.session_id, session_id);
    assert_eq!(response.tx_hash, None);
    let kept = get_session(&state, &session_id).unwrap();
    assert_eq!(kept.session.status, SessionStatus::Pending);
}

#[test]
fn test_finalize_session_not_found() {
    let mut state = SessionService::new();
    let fault = finalize_session(&mut state, "nonexistent").unwrap_err();
    assert_eq!(fault.status(), 404);
    assert_eq!(fault.message(), "Session nonexistent not found");
}

#[test]
fn remove_payment_tells_session_from_payment() {
    let mut state = SessionService::new();
    let session_id = new_session(&mut state, "0xSender");
    let added = add_payment(&mut state, &session_id, pay("0xR", None, "5")).unwrap();
    let payment_id = added.session.payments[0].id.clone();
    let fault = remove_payment(&mut state, "nonexistent", &payment_id).unwrap_err();
    assert_eq!(fault.message(), "Session nonexistent not found");
    let fault = remove_payment(&mut state, &session_id, "pay-0").unwrap_err();
    assert_eq!(fault.status(), 404);
    assert_eq!(fault.message(), format!("Session {} has no payment pay-0", session_id));
    let response = remove_payment(&mut state, &session_id, &payment_id).unwrap();
    assert!(response.session.payments.is_empty());
    assert_eq!(response.session.total_amount, "0");
}

#[test]
fn test_ens_resolve_invalid_name() {
    let service = EnsService::new();
    let outcome = match service.begin_resolve("invalid", 0) {
        ResolveAction::Finish(outcome) => outcome,
        other => panic!("{:?}", other),
    };
    let response = ResolveResponse::from_outcome("invalid".to_string(), outcome);
    assert_eq!(response.name, "invalid");
    assert!(response.error.is_some());
    assert!(response.address.is_none());
    assert_eq!(
        response.error.as_deref(),
        Some("Invalid ENS name: ENS name must end with .eth")
    );
}

#[test]
fn test_ens_lookup_returns_response() {
    let mut service = EnsService::new();
    let address = "0x0000000000000000000000000000000000000000";
    assert!(matches!(service.begin_reverse(address, 0), ReverseAction::AskApi(_)));
    let outcome = service.reverse_answered(address, Ok(None), 0);
    let response = LookupResponse::from_outcome(address.to_string(), outcome);
    assert_eq!(response.address, "0x0000000000000000000000000000000000000000");
    assert_eq!(response.name, None);
    assert_eq!(response.error, None);
}

#[test]
fn responses_carry_what_was_found() {
    let found = EnsResult { address: "0xA".to_string(), avatar: Some("pic".to_string()) };
    let response = ResolveResponse::from_outcome("a.eth".to_string(), Ok(found));
    assert_eq!(response.name, "a.eth");
    assert_eq!(response.address.as_deref(), Some("0xA"));
    assert_eq!(response.avatar.as_deref(), Some("pic"));
    assert_eq!(response.error, None);
    let response =
        ResolveResponse::from_outcome("a.eth".to_string(), Err(EnsError::NotFound("a.eth".to_string())));
    assert_eq!(response.address, None);
    assert_eq!(response.avatar, None);
    assert_eq!(response.error.as_deref(), Some("ENS name not found: a.eth"));
    let response = LookupResponse::from_outcome("0xA".to_string(), Ok(Some("a.eth".to_string())));
    assert_eq!(response.name.as_deref(), Some("a.eth"));
    let response = LookupResponse::from_outcome(
        "0xA".to_string(),
        Err(EnsError::InvalidName("Address must start with 0x".to_string())),
    );
    assert_eq!(response.address, "0xA");
    assert_eq!(response.name, None);
    assert_eq!(response.error.as_deref(), Some("Invalid ENS name: Address must start with 0x"));
}

#[test]
fn app_errors_carry_status_and_words() {
    assert_eq!(AppError::NotFound("gone".to_string()).status(), 404);
    assert_eq!(AppError::BadRequest("bad".to_string()).status(), 400);
    assert_eq!(AppError::NotFound("gone".to_string()).message(), "gone");
    assert_eq!(AppError::BadRequest("bad".to_string()).message(), "bad");
}
