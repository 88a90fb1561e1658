//! Sessions, as callers ask for them and as they are answered.

use crate::api::error::{AppError, AppErrorView};
use crate::models::session::{
    amounts, index_of_payment, total_of, Session, SessionError, SessionErrorView, SessionStatus,
    SessionView,
};
use crate::services::session::{all_consistent, lookup, SessionService};
use crate::text::name_view;
use vstd::prelude::*;
use vstd::string::*;

verus! {

/// Who asks for a new session.
#[derive(Debug)]
pub struct CreateSessionRequest {
    pub user_address: String,
}

/// The answer to a request for a new session.
#[derive(Debug)]
pub struct CreateSessionResponse {
    pub session_id: String,
    pub status: String,
}

/// A payment to add to a session. The amount is text, so that it can be as
/// large as amounts get.
#[derive(Debug)]
pub struct AddPaymentRequest {
    pub recipient: String,
    pub recipient_ens: Option<String>,
    pub amount: String,
}

/// A session as it is answered.
#[derive(Debug)]
pub struct SessionResponse {
    pub session: Session,
}

/// The answer to a request to finalize a session.
#[derive(Debug)]
pub struct FinalizeResponse {
    pub session_id: String,
    pub status: String,
    pub tx_hash: Option<String>,
}

/// What is said of a session that does not exist.
pub open spec fn no_session(id: Seq<char>) -> AppErrorView {
    AppErrorView::NotFound("Session "@ + id + " not found"@)
}

/// What is said of a payment that its session does not hold.
pub open spec fn no_payment(id: Seq<char>, payment_id: Seq<char>) -> AppErrorView {
    AppErrorView::NotFound("Session "@ + id + " has no payment "@ + payment_id)
}

fn session_not_found(id: &str) -> (fault: AppError)
    ensures
        fault@ == no_session(id@),
{
    AppError::NotFound(String::from_str("Session ").concat(id).concat(" not found"))
}

/// Creates a session for the user who asks, under a fresh id, and answers
/// with the id and the status `active`.
pub fn create_session(state: &mut SessionService, payload: CreateSessionRequest) -> (response:
    CreateSessionResponse)
    ensures
        response.status@ == "active"@,
        response.session_id@.len() == 36,
        lookup(final(state)@, response.session_id@) is Some,
        final(state)@[response.session_id@].is_new(response.session_id@, payload.user_address@),
        final(state)@ == old(state)@.insert(
            response.session_id@,
            final(state)@[response.session_id@],
        ),
        all_consistent(final(state)@),
{
    let session = state.create_session(payload.user_address);
    CreateSessionResponse { session_id: session.id, status: String::from_str("active") }
}

/// Answers with the session kept under `id`, or says that there is none.
pub fn get_session(state: &SessionService, id: &str) -> (r: Result<SessionResponse, AppError>)
    ensures
        match lookup(state@, id@) {
            Some(kept) => r is Ok && r->Ok_0.session@ == kept && kept.consistent(),
            None => r is Err && r->Err_0@ == no_session(id@),
        },
{
    match state.get_session(id) {
        Some(session) => Ok(SessionResponse { session }),
        None => Err(session_not_found(id)),
    }
}

/// Adds the payment asked for to the session kept under `id` and answers
/// with the session as it then is. A session that does not exist is
/// `NotFound`; an amount that does not parse, or a total that overflows, is
/// `BadRequest` with the fault in words. In both cases nothing changes.
pub fn add_payment(state: &mut SessionService, id: &str, payload: AddPaymentRequest) -> (r: Result<
    SessionResponse,
    AppError,
>)
    ensures
        match lookup(old(state)@, id@) {
            None => r is Err && r->Err_0@ == no_session(id@) && final(state)@ == old(state)@,
            Some(before) => match total_of(amounts(before.payments).push(payload.amount@)) {
                Err(fault) => r is Err && r->Err_0@ == AppErrorView::BadRequest(fault.message())
                    && final(state)@ == old(state)@,
                Ok(_) => {
                    &&& r is Ok
                    &&& r->Ok_0.session@.payments.len() == before.payments.len() + 1
                    &&& r->Ok_0.session@.payments.last().is_request(
                        payload.recipient@,
                        name_view(payload.recipient_ens),
                        payload.amount@,
                    )
                    &&& before.add_payment(r->Ok_0.session@.payments.last()) == Ok::<
                        SessionView,
                        SessionErrorView,
                    >(r->Ok_0.session@)
                    &&& final(state)@ == old(state)@.insert(id@, r->Ok_0.session@)
                },
            },
        },
        all_consistent(final(state)@),
{
    match state.add_payment(id, payload.recipient, payload.recipient_ens, payload.amount) {
        Ok(session) => Ok(SessionResponse { session }),
        Err(SessionError::NotFound) => Err(session_not_found(id)),
        Err(fault) => Err(AppError::BadRequest(fault.message())),
    }
}

/// Takes the payment with the id `payment_id` out of the session kept under
/// `id` and answers with the session as it then is; `NotFound`, with nothing
/// changed, where the session or the payment does not exist.
pub fn remove_payment(state: &mut SessionService, id: &str, payment_id: &str) -> (r: Result<
    SessionResponse,
    AppError,
>)
    ensures
        match lookup(old(state)@, id@) {
            None => r is Err && r->Err_0@ == no_session(id@) && final(state)@ == old(state)@,
            Some(before) => if index_of_payment(before.payments, payment_id@)
                == before.payments.len() {
                r is Err && r->Err_0@ == no_payment(id@, payment_id@) && final(state)@ == old(
                    state,
                )@
            } else {
                &&& before.remove_payment(payment_id@) is Ok
                &&& r is Ok
                &&& r->Ok_0.session@ == before.remove_payment(payment_id@)->Ok_0
                &&& final(state)@ == old(state)@.insert(id@, r->Ok_0.session@)
            },
        },
        all_consistent(final(state)@),
{
    let known = state.get_session(id).is_some();
    match state.remove_payment(id, payment_id) {
        Some(session) => Ok(SessionResponse { session }),
        None => {
            if known {
                Err(
                    AppError::NotFound(
                        String::from_str("Session ").concat(id).concat(" has no payment ").concat(
                            payment_id,
                        ),
                    ),
                )
            } else {
                Err(session_not_found(id))
            }
        },
    }
}

/// Closes the session kept under `id` for settlement and answers with the
/// status `pending`; no transaction is made yet, so the answer names none.
pub fn finalize_session(state: &mut SessionService, id: &str) -> (r: Result<
    FinalizeResponse,
    AppError,
>)
    ensures
        match lookup(old(state)@, id@) {
            None => r is Err && r->Err_0@ == no_session(id@) && final(state)@ == old(state)@,
            Some(before) => {
                &&& r is Ok
                &&& r->Ok_0.session_id@ == id@
                &&& r->Ok_0.status@ == "pending"@
                &&& r->Ok_0.tx_hash is None
                &&& final(state)@ == old(state)@.insert(
                    id@,
                    before.with_status(SessionStatus::Pending),
                )
            },
        },
        all_consistent(final(state)@),
{
    match state.finalize(id) {
        Some(_) => Ok(
            FinalizeResponse {
                session_id: String::from_str(id),
                status: String::from_str("pending"),
                tx_hash: None,
            },
        ),
        None => Err(session_not_found(id)),
    }
}

} // verus!
