//! The registry of sessions: every session of the process, keyed by its id,
//! changed only through operations that keep each total equal to its sum.

use crate::decimal::{decimal_digits, parse_u128};
use crate::ident::fresh_id;
use crate::models::session::{
    add_all, all_valid, amounts, exact_sum, index_of_payment, lemma_add_all_counts_every_payment,
    lemma_index_of_payment, lemma_total_of_is_exact_sum, total_of, Payment, PaymentView, Session,
    SessionError, SessionErrorView, SessionStatus, SessionView,
};
use crate::text::name_view;
use vstd::hash_map::StringHashMap;
use vstd::prelude::*;
use vstd::string::*;

verus! {

/// The session kept under `id`, if there is one.
pub open spec fn lookup(sessions: Map<Seq<char>, SessionView>, id: Seq<char>) -> Option<
    SessionView,
> {
    if sessions.contains_key(id) {
        Some(sessions[id])
    } else {
        None
    }
}

/// The view of a session that was or was not found.
pub open spec fn found_view(found: Option<Session>) -> Option<SessionView> {
    match found {
        Some(session) => Some(session@),
        None => None,
    }
}

/// Every session kept is consistent and is kept under its own id.
pub open spec fn all_consistent(sessions: Map<Seq<char>, SessionView>) -> bool {
    forall|id: Seq<char>| #[trigger]
        sessions.contains_key(id) ==> sessions[id].consistent() && sessions[id].id == id
}

/// The sessions of the process, by id.
pub struct SessionStore {
    sessions: StringHashMap<Session>,
}

impl View for SessionStore {
    type V = Map<Seq<char>, SessionView>;

    closed spec fn view(&self) -> Map<Seq<char>, SessionView> {
        self.sessions@.map_values(|s: Session| s@)
    }
}

impl SessionStore {
    /// What holds of every store: each session is consistent and is kept
    /// under its own id.
    #[verifier::type_invariant]
    spec fn kept_consistent(self) -> bool {
        all_consistent(self@)
    }

    /// A store without sessions.
    pub fn new() -> (store: SessionStore)
        ensures
            store@ == Map::<Seq<char>, SessionView>::empty(),
            all_consistent(store@),
    {
        let store = SessionStore { sessions: StringHashMap::new() };
        assert(store@ =~= Map::<Seq<char>, SessionView>::empty());
        store
    }

    /// Creates a session for `user` and keeps it under `id`, in place of any
    /// session kept there before. Returns a copy of it.
    pub fn create(&mut self, id: String, user: String) -> (session: Session)
        ensures
            session@.is_new(id@, user@),
            final(self)@ == old(self)@.insert(id@, session@),
            all_consistent(final(self)@),
    {
        let session = Session::new(id.clone(), user);
        let copy = session.clone();
        self.put(id, session);
        copy
    }

    /// A copy of the session kept under `id`, if there is one.
    pub fn get(&self, id: &str) -> (found: Option<Session>)
        ensures
            found_view(found) == lookup(self@, id@),
            all_consistent(self@),
    {
        proof {
            use_type_invariant(self);
        }
        match self.sessions.get(id) {
            Some(session) => Some(session.clone()),
            None => None,
        }
    }

    /// Appends `payment` to the session kept under `session_id` and returns a
    /// copy of the session as it then is. Without such a session the result is
    /// `NotFound`; where the new total cannot be had, it is that fault. In
    /// both cases nothing changes.
    pub fn add_payment(&mut self, session_id: &str, payment: Payment) -> (r: Result<
        Session,
        SessionError,
    >)
        ensures
            match lookup(old(self)@, session_id@) {
                None => r is Err && r->Err_0@ == SessionErrorView::NotFound && final(self)@
                    == old(self)@,
                Some(before) => match before.add_payment(payment@) {
                    Ok(next) => r is Ok && r->Ok_0@ == next && final(self)@ == old(self)@.insert(
                        session_id@,
                        next,
                    ),
                    Err(fault) => r is Err && r->Err_0@ == fault && fault
                        != SessionErrorView::NotFound && final(self)@ == old(self)@,
                },
            },
            all_consistent(final(self)@),
    {
        proof {
            use_type_invariant(&*self);
        }
        let mut session = match self.sessions.get(session_id) {
            Some(kept) => kept.clone(),
            None => {
                return Err(SessionError::NotFound);
            },
        };
        match session.add_payment(payment) {
            Ok(()) => {
                let copy = session.clone();
                self.put(session.id.clone(), session);
                Ok(copy)
            },
            Err(fault) => Err(fault),
        }
    }

    /// Takes the first payment with the id `payment_id` out of the session
    /// kept under `session_id` and returns a copy of the session as it then is.
    /// Without such a session or such a payment the result is `None` and
    /// nothing changes.
    pub fn remove_payment(&mut self, session_id: &str, payment_id: &str) -> (r: Option<Session>)
        ensures
            match lookup(old(self)@, session_id@) {
                None => r is None && final(self)@ == old(self)@,
                Some(before) => if index_of_payment(before.payments, payment_id@)
                    == before.payments.len() {
                    r is None && final(self)@ == old(self)@
                } else {
                    &&& before.remove_payment(payment_id@) is Ok
                    &&& r is Some
                    &&& r->Some_0@ == before.remove_payment(payment_id@)->Ok_0
                    &&& final(self)@ == old(self)@.insert(session_id@, r->Some_0@)
                },
            },
            all_consistent(final(self)@),
    {
        proof {
            use_type_invariant(&*self);
        }
        let mut session = match self.sessions.get(session_id) {
            Some(kept) => kept.clone(),
            None => {
                return None;
            },
        };
        proof {
            let before = session@;
            let at = index_of_payment(before.payments, payment_id@);
            lemma_index_of_payment(before.payments, payment_id@);
            if at < before.payments.len() {
                lemma_total_of_is_exact_sum(amounts(before.payments.remove(at)));
            }
        }
        match session.remove_payment(payment_id) {
            Ok(()) => {
                let copy = session.clone();
                self.put(session.id.clone(), session);
                Some(copy)
            },
            Err(_) => None,
        }
    }

    /// Sets the status of the session kept under `session_id`, whatever it
    /// was before, and returns a copy of the session as it then is; `None`,
    /// with nothing changed, without such a session.
    pub fn update_status(&mut self, session_id: &str, status: SessionStatus) -> (r: Option<
        Session,
    >)
        ensures
            match lookup(old(self)@, session_id@) {
                None => r is None && final(self)@ == old(self)@,
                Some(before) => {
                    &&& r is Some
                    &&& r->Some_0@ == before.with_status(status)
                    &&& final(self)@ == old(self)@.insert(session_id@, before.with_status(status))
                },
            },
            all_consistent(final(self)@),
    {
        proof {
            use_type_invariant(&*self);
        }
        let kept = match self.sessions.get(session_id) {
            Some(kept) => kept,
            None => {
                return None;
            },
        };
        let mut session = kept.clone();
        session.status = status;
        let copy = session.clone();
        self.put(session.id.clone(), session);
        Some(copy)
    }

    /// Keeps `session` under `id`.
    fn put(&mut self, id: String, session: Session)
        requires
            session@.consistent(),
            session@.id == id@,
        ensures
            final(self)@ == old(self)@.insert(id@, session@),
            all_consistent(final(self)@),
    {
        let mut taken = SessionStore::new();
        std::mem::swap(self, &mut taken);
        proof {
            use_type_invariant(&taken);
        }
        let ghost before = taken@;
        let SessionStore { mut sessions } = taken;
        sessions.insert(id, session);
        assert(sessions@.map_values(|s: Session| s@) =~= before.insert(id@, session@));
        *self = SessionStore { sessions };
    }
}

/// Reading twice gives the same: whatever two calls of `get` on one store
/// with one id return, they return equal sessions or both nothing.
pub proof fn lemma_get_is_repeatable(
    store: SessionStore,
    id: &str,
    first: Option<Session>,
    second: Option<Session>,
)
    requires
        call_ensures(SessionStore::get, (&store, id), first),
        call_ensures(SessionStore::get, (&store, id), second),
    ensures
        found_view(first) == found_view(second),
        found_view(first) == lookup(store@, id@),
{
}

/// A session just created is found under its id as it was created: where
/// `created` came of `create` with `id` and `user` and `store` is the store
/// that `create` left, `get` with the same id returns a session equal to
/// `created`, which is active, without payments, with total `0`.
pub proof fn lemma_created_session_is_found(
    before: Map<Seq<char>, SessionView>,
    store: SessionStore,
    id: &str,
    user: Seq<char>,
    created: SessionView,
    found: Option<Session>,
)
    requires
        created.is_new(id@, user),
        store@ == before.insert(id@, created),
        call_ensures(SessionStore::get, (&store, id), found),
    ensures
        found_view(found) == Some(created),
        found is Some,
        found->Some_0@.user == user,
        found->Some_0@.status == SessionStatus::Active,
        found->Some_0@.payments.len() == 0,
        found->Some_0@.total_amount == seq!['0'],
{
}

/// What is kept under other ids is not touched by a change under one id.
pub proof fn lemma_other_sessions_untouched(
    before: Map<Seq<char>, SessionView>,
    id: Seq<char>,
    next: SessionView,
    other: Seq<char>,
)
    requires
        other != id,
    ensures
        lookup(before.insert(id, next), other) == lookup(before, other),
{
}

/// The sessions after each of `added` was handed to `add_payment` for the
/// session under `id`, one after another; a payment that is refused leaves
/// them as they are.
pub open spec fn after_payments(
    sessions: Map<Seq<char>, SessionView>,
    id: Seq<char>,
    added: Seq<PaymentView>,
) -> Map<Seq<char>, SessionView>
    decreases added.len(),
{
    if added.len() == 0 {
        sessions
    } else {
        let so_far = after_payments(sessions, id, added.drop_last());
        match lookup(so_far, id) {
            Some(session) => match session.add_payment(added.last()) {
                Ok(next) => so_far.insert(id, next),
                Err(_) => so_far,
            },
            None => so_far,
        }
    }
}

/// No update is lost: where callers hand payments with amounts that parse
/// to one session, and the sum of all amounts fits in 128 bits, then in
/// whatever order the store takes them, the session ends with its old
/// payments followed by every new one, and with the exact sum as its total.
/// Other sessions are as they were.
pub proof fn lemma_after_payments_counts_every_payment(
    sessions: Map<Seq<char>, SessionView>,
    id: Seq<char>,
    added: Seq<PaymentView>,
)
    requires
        sessions.contains_key(id),
        sessions[id].consistent(),
        all_valid(amounts(added)),
        exact_sum(amounts(sessions[id].payments)) + exact_sum(amounts(added)) <= u128::MAX,
    ensures
        after_payments(sessions, id, added) == sessions.insert(
            id,
            add_all(sessions[id], added)->Ok_0,
        ),
        add_all(sessions[id], added) is Ok,
        after_payments(sessions, id, added)[id].payments == sessions[id].payments + added,
        after_payments(sessions, id, added)[id].payments.len() == sessions[id].payments.len()
            + added.len(),
        after_payments(sessions, id, added)[id].total_amount == decimal_digits(
            exact_sum(amounts(sessions[id].payments)) + exact_sum(amounts(added)),
        ),
    decreases added.len(),
{
    lemma_add_all_counts_every_payment(sessions[id], added);
    if added.len() == 0 {
        assert(sessions.insert(id, sessions[id]) =~= sessions);
    } else {
        let head = added.drop_last();
        assert(amounts(head) =~= amounts(added).drop_last());
        assert forall|i: int| 0 <= i < head.len() implies parse_u128(
            #[trigger] amounts(head)[i],
        ) is Some by {
            assert(amounts(head)[i] == amounts(added)[i]);
        }
        lemma_after_payments_counts_every_payment(sessions, id, head);
        lemma_add_all_counts_every_payment(sessions[id], head);
        let so_far = after_payments(sessions, id, head);
        let next = add_all(sessions[id], added)->Ok_0;
        assert(so_far.insert(id, next) =~= sessions.insert(id, next));
    }
}

/// The sessions of the process behind the operations that callers ask for:
/// ids and payments are made here, the store does the rest.
pub struct SessionService {
    store: SessionStore,
}

impl View for SessionService {
    type V = Map<Seq<char>, SessionView>;

    closed spec fn view(&self) -> Map<Seq<char>, SessionView> {
        self.store@
    }
}

impl SessionService {
    /// A service without sessions.
    pub fn new() -> (service: SessionService)
        ensures
            service@ == Map::<Seq<char>, SessionView>::empty(),
    {
        SessionService { store: SessionStore::new() }
    }

    /// Creates a session for `user` under a fresh id of 36 characters and
    /// returns a copy of it.
    pub fn create_session(&mut self, user: String) -> (session: Session)
        ensures
            session@.is_new(session@.id, user@),
            session@.id.len() == 36,
            final(self)@ == old(self)@.insert(session@.id, session@),
            all_consistent(final(self)@),
    {
        let id = fresh_id();
        self.store.create(id, user)
    }

    /// A copy of the session kept under `id`, if there is one.
    pub fn get_session(&self, id: &str) -> (found: Option<Session>)
        ensures
            found_view(found) == lookup(self@, id@),
            all_consistent(self@),
    {
        self.store.get(id)
    }

    /// Makes a pending payment of `amount` to `recipient` and appends it to
    /// the session kept under `id`. Without such a session the result is
    /// `NotFound`; where the amount does not parse or the total overflows, it
    /// is that fault. In both cases nothing changes. Otherwise the result is
    /// a copy of the session, whose last payment is the new one.
    pub fn add_payment(
        &mut self,
        id: &str,
        recipient: String,
        recipient_ens: Option<String>,
        amount: String,
    ) -> (r: Result<Session, SessionError>)
        ensures
            match lookup(old(self)@, id@) {
                None => r is Err && r->Err_0@ == SessionErrorView::NotFound && final(self)@
                    == old(self)@,
                Some(before) => match total_of(amounts(before.payments).push(amount@)) {
                    Err(fault) => r is Err && r->Err_0@ == fault && fault
                        != SessionErrorView::NotFound && final(self)@ == old(self)@,
                    Ok(_) => {
                        &&& r is Ok
                        &&& r->Ok_0@.payments.len() == before.payments.len() + 1
                        &&& r->Ok_0@.payments.last().is_request(
                            recipient@,
                            name_view(recipient_ens),
                            amount@,
                        )
                        &&& before.add_payment(r->Ok_0@.payments.last()) == Ok::<
                            SessionView,
                            SessionErrorView,
                        >(r->Ok_0@)
                        &&& final(self)@ == old(self)@.insert(id@, r->Ok_0@)
                    },
                },
            },
            all_consistent(final(self)@),
    {
        let payment = Payment::new(recipient, recipient_ens, amount);
        proof {
            let kept = lookup(self@, id@);
            if kept is Some {
                let before = kept->Some_0;
                assert(amounts(before.payments.push(payment@)) =~= amounts(before.payments).push(
                    amount@,
                ));
            }
        }
        self.store.add_payment(id, payment)
    }

    /// Takes the first payment with the id `payment_id` out of the session
    /// kept under `id`; `None`, with nothing changed, without such a session
    /// or such a payment.
    pub fn remove_payment(&mut self, id: &str, payment_id: &str) -> (r: Option<Session>)
        ensures
            match lookup(old(self)@, id@) {
                None => r is None && final(self)@ == old(self)@,
                Some(before) => if index_of_payment(before.payments, payment_id@)
                    == before.payments.len() {
                    r is None && final(self)@ == old(self)@
                } else {
                    &&& before.remove_payment(payment_id@) is Ok
                    &&& r is Some
                    &&& r->Some_0@ == before.remove_payment(payment_id@)->Ok_0
                    &&& final(self)@ == old(self)@.insert(id@, r->Some_0@)
                },
            },
            all_consistent(final(self)@),
    {
        self.store.remove_payment(id, payment_id)
    }

    /// Closes the session kept under `id` for settlement: its status becomes
    /// `Pending`, whatever it was. `None`, with nothing changed, without such
    /// a session.
    pub fn finalize(&mut self, id: &str) -> (r: Option<Session>)
        ensures
            match lookup(old(self)@, id@) {
                None => r is None && final(self)@ == old(self)@,
                Some(before) => r is Some && r->Some_0@ == before.with_status(
                    SessionStatus::Pending,
                ) && final(self)@ == old(self)@.insert(
                    id@,
                    before.with_status(SessionStatus::Pending),
                ),
            },
            all_consistent(final(self)@),
    {
        self.store.update_status(id, SessionStatus::Pending)
    }
}

} // verus!
