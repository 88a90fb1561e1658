//! Sessions and their payments: the data, the rule that a session's total is
//! the sum of its payments' amounts, and the operations that keep it.

use crate::clock::{current_time, Timestamp};
use crate::decimal::{
    decimal_digits, format_amount, lemma_parse_decimal_digits, parse_amount, parse_u128,
};
use crate::ident::fresh_id;
use crate::text::{copy_name, name_view, same_text};
use vstd::prelude::*;
use vstd::seq_lib::*;
use vstd::string::*;

verus! {

/// Where a session stands in its life.
#[derive(Debug, Clone, Copy, PartialEq, Eq, Structural)]
pub enum SessionStatus {
    Active,
    Pending,
    Settled,
    Cancelled,
}

/// Where a single payment stands.
#[derive(Debug, Clone, Copy, PartialEq, Eq, Structural)]
pub enum PaymentStatus {
    Pending,
    Confirmed,
    Settled,
}

/// Why an operation on a session did not apply.
#[derive(Debug)]
pub enum SessionError {
    /// No session, or no payment, has the given id.
    NotFound,
    /// A payment's amount is not decimal text within 128 bits; holds that text.
    InvalidAmount(String),
    /// The sum of the amounts does not fit in 128 bits.
    AmountOverflow,
}

/// A `SessionError` with its text as a sequence of characters.
pub enum SessionErrorView {
    NotFound,
    InvalidAmount(Seq<char>),
    AmountOverflow,
}

impl View for SessionError {
    type V = SessionErrorView;

    open spec fn view(&self) -> SessionErrorView {
        match self {
            SessionError::NotFound => SessionErrorView::NotFound,
            SessionError::InvalidAmount(text) => SessionErrorView::InvalidAmount(text@),
            SessionError::AmountOverflow => SessionErrorView::AmountOverflow,
        }
    }
}

impl SessionErrorView {
    /// The error in words.
    pub open spec fn message(self) -> Seq<char> {
        match self {
            SessionErrorView::NotFound => "Session or payment not found"@,
            SessionErrorView::InvalidAmount(text) => "Failed to parse payment amount: "@ + text,
            SessionErrorView::AmountOverflow => "Total amount overflow"@,
        }
    }
}

impl SessionError {
    /// The error in words.
    pub fn message(&self) -> (text: String)
        ensures
            text@ == self@.message(),
    {
        match self {
            SessionError::NotFound => String::from_str("Session or payment not found"),
            SessionError::InvalidAmount(amount) => String::from_str(
                "Failed to parse payment amount: ",
            ).concat(amount.as_str()),
            SessionError::AmountOverflow => String::from_str("Total amount overflow"),
        }
    }
}

/// One recipient and amount, attached to a session.
#[derive(Debug)]
pub struct Payment {
    pub id: String,
    pub recipient: String,
    pub recipient_ens: Option<String>,
    pub amount: String,
    pub status: PaymentStatus,
    pub created_at: Timestamp,
}

/// What a `Payment` holds, as mathematical values.
pub struct PaymentView {
    pub id: Seq<char>,
    pub recipient: Seq<char>,
    pub recipient_ens: Option<Seq<char>>,
    pub amount: Seq<char>,
    pub status: PaymentStatus,
    pub created_at: Timestamp,
}

impl View for Payment {
    type V = PaymentView;

    open spec fn view(&self) -> PaymentView {
        PaymentView {
            id: self.id@,
            recipient: self.recipient@,
            recipient_ens: name_view(self.recipient_ens),
            amount: self.amount@,
            status: self.status,
            created_at: self.created_at,
        }
    }
}

impl PaymentView {
    /// A payment as it is made for a request: pending, with the recipient,
    /// name and amount asked for, under an id of 36 characters.
    pub open spec fn is_request(
        self,
        recipient: Seq<char>,
        recipient_ens: Option<Seq<char>>,
        amount: Seq<char>,
    ) -> bool {
        &&& self.recipient == recipient
        &&& self.recipient_ens == recipient_ens
        &&& self.amount == amount
        &&& self.status == PaymentStatus::Pending
        &&& self.id.len() == 36
    }
}

impl Payment {
    /// A pending payment of `amount` to `recipient`, under a fresh id and
    /// stamped with the current time. The amount is not looked at here: the
    /// session that takes the payment does that.
    pub fn new(recipient: String, recipient_ens: Option<String>, amount: String) -> (payment:
        Payment)
        ensures
            payment@.is_request(recipient@, name_view(recipient_ens), amount@),
    {
        Payment {
            id: fresh_id(),
            recipient,
            recipient_ens,
            amount,
            status: PaymentStatus::Pending,
            created_at: current_time(),
        }
    }
}

impl Clone for Payment {
    fn clone(&self) -> (copy: Self)
        ensures
            copy == *self,
    {
        Payment {
            id: self.id.clone(),
            recipient: self.recipient.clone(),
            recipient_ens: copy_name(&self.recipient_ens),
            amount: self.amount.clone(),
            status: self.status,
            created_at: self.created_at,
        }
    }
}

/// A user's payments with their total and status.
#[derive(Debug)]
pub struct Session {
    pub id: String,
    pub user: String,
    pub status: SessionStatus,
    pub payments: Vec<Payment>,
    pub total_amount: String,
    pub created_at: Timestamp,
}

/// What a `Session` holds, as mathematical values.
pub struct SessionView {
    pub id: Seq<char>,
    pub user: Seq<char>,
    pub status: SessionStatus,
    pub payments: Seq<PaymentView>,
    pub total_amount: Seq<char>,
    pub created_at: Timestamp,
}

/// The views of a sequence of payments, in the same order.
pub open spec fn payment_views(payments: Seq<Payment>) -> Seq<PaymentView> {
    payments.map_values(|p: Payment| p@)
}

/// The amount texts of a sequence of payments, in the same order.
pub open spec fn amounts(payments: Seq<PaymentView>) -> Seq<Seq<char>> {
    payments.map_values(|p: PaymentView| p.amount)
}

/// The total of a list of amount texts, added left to right: the sum, or the
/// fault met first. An amount that does not parse is `InvalidAmount` with its
/// text; a partial sum beyond 128 bits is `AmountOverflow`.
pub open spec fn total_of(texts: Seq<Seq<char>>) -> Result<u128, SessionErrorView>
    decreases texts.len(),
{
    if texts.len() == 0 {
        Ok(0)
    } else {
        match total_of(texts.drop_last()) {
            Err(fault) => Err(fault),
            Ok(before) => match parse_u128(texts.last()) {
                None => Err(SessionErrorView::InvalidAmount(texts.last())),
                Some(amount) => if before + amount > u128::MAX {
                    Err(SessionErrorView::AmountOverflow)
                } else {
                    Ok((before + amount) as u128)
                },
            },
        }
    }
}

impl SessionView {
    /// The total is the decimal text of the sum of the payments' amounts.
    pub open spec fn consistent(self) -> bool {
        match total_of(amounts(self.payments)) {
            Ok(total) => self.total_amount == decimal_digits(total as nat),
            Err(_) => false,
        }
    }

    /// The session with `payments` in place of its own and the total that
    /// belongs to them, or the fault that stands in the way of that total.
    pub open spec fn with_payments(self, payments: Seq<PaymentView>) -> Result<
        SessionView,
        SessionErrorView,
    > {
        match total_of(amounts(payments)) {
            Ok(total) => Ok(
                SessionView { payments, total_amount: decimal_digits(total as nat), ..self },
            ),
            Err(fault) => Err(fault),
        }
    }

    /// The session after `payment` is appended.
    pub open spec fn add_payment(self, payment: PaymentView) -> Result<
        SessionView,
        SessionErrorView,
    > {
        self.with_payments(self.payments.push(payment))
    }

    /// The session after its first payment with the id `payment_id` is taken
    /// out; `NotFound` where it has none.
    pub open spec fn remove_payment(self, payment_id: Seq<char>) -> Result<
        SessionView,
        SessionErrorView,
    > {
        let at = index_of_payment(self.payments, payment_id);
        if at == self.payments.len() {
            Err(SessionErrorView::NotFound)
        } else {
            self.with_payments(self.payments.remove(at))
        }
    }

    /// The session with another status.
    pub open spec fn with_status(self, status: SessionStatus) -> SessionView {
        SessionView { status, ..self }
    }

    /// A session as it is created: active, without payments, with total `0`.
    pub open spec fn is_new(self, id: Seq<char>, user: Seq<char>) -> bool {
        &&& self.id == id
        &&& self.user == user
        &&& self.status == SessionStatus::Active
        &&& self.payments == Seq::<PaymentView>::empty()
        &&& self.total_amount == seq!['0']
    }
}

impl View for Session {
    type V = SessionView;

    open spec fn view(&self) -> SessionView {
        SessionView {
            id: self.id@,
            user: self.user@,
            status: self.status,
            payments: payment_views(self.payments@),
            total_amount: self.total_amount@,
            created_at: self.created_at,
        }
    }
}

/// A fault among the first `k` amounts is the fault of the whole list.
pub proof fn lemma_total_of_prefix_fault(texts: Seq<Seq<char>>, k: int)
    requires
        0 <= k <= texts.len(),
    ensures
        total_of(texts.take(k)) is Err ==> total_of(texts) == total_of(texts.take(k)),
    decreases texts.len(),
{
    if k == texts.len() {
        assert(texts.take(k) =~= texts);
    } else {
        assert(texts.drop_last().take(k) =~= texts.take(k));
        lemma_total_of_prefix_fault(texts.drop_last(), k);
    }
}

/// The number an amount text stands for, zero where it does not parse.
pub open spec fn amount_value(text: Seq<char>) -> nat {
    match parse_u128(text) {
        Some(amount) => amount as nat,
        None => 0,
    }
}

/// Every text in the list parses as an amount.
pub open spec fn all_valid(texts: Seq<Seq<char>>) -> bool {
    forall|i: int| 0 <= i < texts.len() ==> parse_u128(#[trigger] texts[i]) is Some
}

/// The sum of the amounts in the list, as an unbounded number.
pub open spec fn exact_sum(texts: Seq<Seq<char>>) -> nat
    decreases texts.len(),
{
    if texts.len() == 0 {
        0
    } else {
        exact_sum(texts.drop_last()) + amount_value(texts.last())
    }
}

/// The place of the first payment with the given id, or the number of
/// payments where none has it.
pub open spec fn index_of_payment(payments: Seq<PaymentView>, id: Seq<char>) -> int
    decreases payments.len(),
{
    if payments.len() == 0 {
        0
    } else if payments[0].id == id {
        0
    } else {
        1 + index_of_payment(payments.drop_first(), id)
    }
}

/// A total exists exactly when every amount parses and the exact sum fits in
/// 128 bits, and it is then that sum. No total fails with `NotFound`.
pub proof fn lemma_total_of_is_exact_sum(texts: Seq<Seq<char>>)
    ensures
        total_of(texts) is Ok <==> all_valid(texts) && exact_sum(texts) <= u128::MAX,
        total_of(texts) is Ok ==> total_of(texts)->Ok_0 == exact_sum(texts),
        total_of(texts) != Err::<u128, SessionErrorView>(SessionErrorView::NotFound),
    decreases texts.len(),
{
    if texts.len() > 0 {
        let head = texts.drop_last();
        lemma_total_of_is_exact_sum(head);
        if all_valid(texts) {
            assert forall|i: int| 0 <= i < head.len() implies parse_u128(
                #[trigger] head[i],
            ) is Some by {
                assert(head[i] == texts[i]);
            }
            assert(parse_u128(texts[texts.len() - 1]) is Some);
        }
        if all_valid(head) && parse_u128(texts.last()) is Some {
            assert forall|i: int| 0 <= i < texts.len() implies parse_u128(
                #[trigger] texts[i],
            ) is Some by {
                if i < head.len() {
                    assert(head[i] == texts[i]);
                }
            }
        }
    }
}

/// Taking one amount out lowers the exact sum by that amount.
pub proof fn lemma_exact_sum_remove(texts: Seq<Seq<char>>, i: int)
    requires
        0 <= i < texts.len(),
    ensures
        exact_sum(texts.remove(i)) + amount_value(texts[i]) == exact_sum(texts),
    decreases texts.len(),
{
    if i == texts.len() - 1 {
        assert(texts.remove(i) =~= texts.drop_last());
    } else {
        lemma_exact_sum_remove(texts.drop_last(), i);
        assert(texts.remove(i).drop_last() =~= texts.drop_last().remove(i));
        assert(texts.remove(i).last() == texts.last());
    }
}

/// Where a list has a total, the list without one of its amounts has one too:
/// the total less that amount.
pub proof fn lemma_total_of_remove(texts: Seq<Seq<char>>, i: int)
    requires
        0 <= i < texts.len(),
        total_of(texts) is Ok,
    ensures
        total_of(texts.remove(i)) is Ok,
        total_of(texts.remove(i))->Ok_0 + amount_value(texts[i]) == total_of(texts)->Ok_0,
{
    let rest = texts.remove(i);
    lemma_total_of_is_exact_sum(texts);
    lemma_total_of_is_exact_sum(rest);
    lemma_exact_sum_remove(texts, i);
    assert forall|j: int| 0 <= j < rest.len() implies parse_u128(#[trigger] rest[j]) is Some by {
        if j < i {
            assert(rest[j] == texts[j]);
        } else {
            assert(rest[j] == texts[j + 1]);
        }
    }
}

/// `index_of_payment` is the least place whose payment has the id.
pub proof fn lemma_index_of_payment(payments: Seq<PaymentView>, id: Seq<char>)
    ensures
        0 <= index_of_payment(payments, id) <= payments.len(),
        index_of_payment(payments, id) < payments.len() ==> payments[index_of_payment(
            payments,
            id,
        )].id == id,
        forall|j: int|
            0 <= j < index_of_payment(payments, id) ==> (#[trigger] payments[j]).id != id,
    decreases payments.len(),
{
    if payments.len() > 0 && payments[0].id != id {
        let rest = payments.drop_first();
        lemma_index_of_payment(rest, id);
        assert forall|j: int| 0 <= j < index_of_payment(payments, id) implies (
        #[trigger] payments[j]).id != id by {
            if j > 0 {
                assert(payments[j] == rest[j - 1]);
            }
        }
    }
}

/// A consistent session's total reads back as the exact sum of its payments'
/// amounts: every amount parses, the sum fits in 128 bits, and the total is
/// the decimal text of that sum.
pub proof fn lemma_consistent_total_is_exact_sum(session: SessionView)
    requires
        session.consistent(),
    ensures
        all_valid(amounts(session.payments)),
        exact_sum(amounts(session.payments)) <= u128::MAX,
        session.total_amount == decimal_digits(exact_sum(amounts(session.payments))),
        parse_u128(session.total_amount) == Some(exact_sum(amounts(session.payments)) as u128),
{
    lemma_total_of_is_exact_sum(amounts(session.payments));
    lemma_parse_decimal_digits(exact_sum(amounts(session.payments)) as u128);
}

/// The exact sum does not depend on the order of the amounts.
pub proof fn lemma_exact_sum_any_order(one: Seq<Seq<char>>, other: Seq<Seq<char>>)
    requires
        one.to_multiset() == other.to_multiset(),
    ensures
        exact_sum(one) == exact_sum(other),
    decreases one.len(),
{
    broadcast use group_to_multiset_ensures;

    if one.len() == 0 {
        assert(one.to_multiset().len() == 0);
        assert(other.to_multiset().len() == other.len());
    } else {
        let last = one.last();
        assert(one.drop_last().push(last) =~= one);
        assert(other.to_multiset().count(last) > 0);
        assert(other.contains(last));
        let at = choose|at: int| 0 <= at < other.len() && other[at] == last;
        assert(one.drop_last().to_multiset() =~= one.to_multiset().remove(last)) by {
            assert(one.drop_last() =~= one.remove(one.len() - 1));
        }
        lemma_exact_sum_any_order(one.drop_last(), other.remove(at));
        lemma_exact_sum_remove(other, at);
    }
}

/// The session after each of `added` is appended in turn, or the first fault.
pub open spec fn add_all(session: SessionView, added: Seq<PaymentView>) -> Result<
    SessionView,
    SessionErrorView,
>
    decreases added.len(),
{
    if added.len() == 0 {
        Ok(session)
    } else {
        match add_all(session, added.drop_last()) {
            Ok(so_far) => so_far.add_payment(added.last()),
            Err(fault) => Err(fault),
        }
    }
}

/// The exact sum of two lists in a row is the sum of their exact sums.
pub proof fn lemma_exact_sum_concat(first: Seq<Seq<char>>, second: Seq<Seq<char>>)
    ensures
        exact_sum(first + second) == exact_sum(first) + exact_sum(second),
    decreases second.len(),
{
    if second.len() == 0 {
        assert(first + second =~= first);
    } else {
        lemma_exact_sum_concat(first, second.drop_last());
        assert((first + second).drop_last() =~= first + second.drop_last());
    }
}

/// No payment is lost: where every amount of `added` parses and the sum of
/// all amounts fits in 128 bits, appending them one after another, in
/// whatever order they come, succeeds each time. The session then holds its
/// old payments followed by all of `added`, and its total is the exact sum.
pub proof fn lemma_add_all_counts_every_payment(session: SessionView, added: Seq<PaymentView>)
    requires
        session.consistent(),
        all_valid(amounts(added)),
        exact_sum(amounts(session.payments)) + exact_sum(amounts(added)) <= u128::MAX,
    ensures
        add_all(session, added) is Ok,
        add_all(session, added)->Ok_0.payments == session.payments + added,
        add_all(session, added)->Ok_0.total_amount == decimal_digits(
            exact_sum(amounts(session.payments)) + exact_sum(amounts(added)),
        ),
        add_all(session, added)->Ok_0.consistent(),
        add_all(session, added)->Ok_0 == (SessionView {
            payments: session.payments + added,
            total_amount: add_all(session, added)->Ok_0.total_amount,
            ..session
        }),
    decreases added.len(),
{
    let kept = amounts(session.payments);
    lemma_total_of_is_exact_sum(kept);
    if added.len() == 0 {
        assert(session.payments + added =~= session.payments);
        assert(amounts(added) =~= Seq::<Seq<char>>::empty());
    } else {
        let head = added.drop_last();
        assert(amounts(head) =~= amounts(added).drop_last());
        assert(amounts(added).last() == added.last().amount);
        assert forall|i: int| 0 <= i < head.len() implies parse_u128(
            #[trigger] amounts(head)[i],
        ) is Some by {
            assert(amounts(head)[i] == amounts(added)[i]);
        }
        lemma_add_all_counts_every_payment(session, head);
        let so_far = add_all(session, head)->Ok_0;
        let all = session.payments + added;
        assert(so_far.payments.push(added.last()) =~= all);
        assert(amounts(all) =~= kept + amounts(added));
        lemma_exact_sum_concat(kept, amounts(added));
        lemma_total_of_is_exact_sum(amounts(all));
        assert forall|i: int| 0 <= i < amounts(all).len() implies parse_u128(
            #[trigger] amounts(all)[i],
        ) is Some by {
            if i < kept.len() {
                assert(amounts(all)[i] == kept[i]);
            } else {
                assert(amounts(all)[i] == amounts(added)[i - kept.len()]);
            }
        }
    }
}

impl Clone for Session {
    fn clone(&self) -> (copy: Self)
        ensures
            copy@ == self@,
    {
        let mut payments: Vec<Payment> = Vec::new();
        let mut i: usize = 0;
        while i < self.payments.len()
            invariant
                i <= self.payments@.len(),
                payments@ == self.payments@.take(i as int),
            decreases self.payments@.len() - i,
        {
            payments.push(self.payments[i].clone());
            assert(payments@ =~= self.payments@.take(i + 1));
            i = i + 1;
        }
        assert(payments@ =~= self.payments@);
        Session {
            id: self.id.clone(),
            user: self.user.clone(),
            status: self.status,
            payments,
            total_amount: self.total_amount.clone(),
            created_at: self.created_at,
        }
    }
}

impl Session {
    /// A new session for `user` under `id`: active, without payments, with
    /// total `0`, stamped with the current time.
    pub fn new(id: String, user: String) -> (session: Session)
        ensures
            session@.is_new(id@, user@),
            session@.consistent(),
    {
        proof {
            reveal_strlit("0");
            assert(decimal_digits(0) =~= seq!['0']);
            assert("0"@ =~= seq!['0']);
        }
        let session = Session {
            id,
            user,
            status: SessionStatus::Active,
            payments: Vec::new(),
            total_amount: String::from_str("0"),
            created_at: current_time(),
        };
        assert(session@.payments =~= Seq::<PaymentView>::empty());
        assert(amounts(session@.payments) =~= Seq::<Seq<char>>::empty());
        session
    }

    /// Sets the total to the sum of the payments' amounts, computed afresh.
    /// Where an amount does not parse or the sum overflows, the session is
    /// left as it was and the fault met first is returned.
    pub fn recalculate_total(&mut self) -> (r: Result<(), SessionError>)
        ensures
            match old(self)@.with_payments(old(self)@.payments) {
                Ok(next) => r is Ok && final(self)@ == next,
                Err(fault) => r is Err && r->Err_0@ == fault && *final(self) == *old(self),
            },
    {
        let ghost texts = amounts(self@.payments);
        let mut total: u128 = 0;
        let mut i: usize = 0;
        assert(texts.take(0) =~= Seq::<Seq<char>>::empty());
        while i < self.payments.len()
            invariant
                i <= self.payments@.len(),
                *self == *old(self),
                texts == amounts(self@.payments),
                texts.len() == self.payments@.len(),
                total_of(texts.take(i as int)) == Ok::<u128, SessionErrorView>(total),
            decreases self.payments@.len() - i,
        {
            let payment = &self.payments[i];
            proof {
                assert(texts.take(i + 1).drop_last() =~= texts.take(i as int));
                assert(texts.take(i + 1).last() == payment@.amount);
                lemma_total_of_prefix_fault(texts, i + 1);
            }
            match parse_amount(payment.amount.as_str()) {
                Some(amount) => {
                    match total.checked_add(amount) {
                        Some(sum) => {
                            total = sum;
                        },
                        None => {
                            return Err(SessionError::AmountOverflow);
                        },
                    }
                },
                None => {
                    return Err(SessionError::InvalidAmount(payment.amount.clone()));
                },
            }
            i = i + 1;
        }
        assert(texts.take(i as int) =~= texts);
        self.total_amount = format_amount(total);
        Ok(())
    }

    /// Appends a payment and sets the total afresh. Where the total cannot be
    /// had, the payment is taken out again: the session is as it was, and the
    /// fault is returned.
    pub fn add_payment(&mut self, payment: Payment) -> (r: Result<(), SessionError>)
        ensures
            match old(self)@.add_payment(payment@) {
                Ok(next) => r is Ok && final(self)@ == next,
                Err(fault) => r is Err && r->Err_0@ == fault && final(self)@ == old(self)@,
            },
            r is Err ==> r->Err_0@ != SessionErrorView::NotFound,
            old(self)@.consistent() ==> final(self)@.consistent(),
    {
        proof {
            lemma_total_of_is_exact_sum(amounts(self@.payments.push(payment@)));
            assert(payment_views(self.payments@.push(payment)) =~= self@.payments.push(payment@));
        }
        self.payments.push(payment);
        match self.recalculate_total() {
            Ok(()) => Ok(()),
            Err(fault) => {
                self.payments.pop();
                assert(self.payments@ =~= old(self).payments@);
                Err(fault)
            },
        }
    }

    /// Takes out the first payment with the given id and sets the total
    /// afresh. Without such a payment the result is `NotFound`. Where the total
    /// of the rest cannot be had, the payment is put back and the fault is
    /// returned. In both cases the session is as it was.
    pub fn remove_payment(&mut self, payment_id: &str) -> (r: Result<(), SessionError>)
        ensures
            match old(self)@.remove_payment(payment_id@) {
                Ok(next) => r is Ok && final(self)@ == next,
                Err(fault) => r is Err && r->Err_0@ == fault && final(self)@ == old(self)@,
            },
            old(self)@.consistent() ==> final(self)@.consistent() && (r is Ok
                || r->Err_0@ == SessionErrorView::NotFound),
    {
        let ghost before = self@.payments;
        let mut at: usize = 0;
        assert(before.skip(0) =~= before);
        while at < self.payments.len() && !same_text(self.payments[at].id.as_str(), payment_id)
            invariant
                at <= self.payments@.len(),
                *self == *old(self),
                before == self@.payments,
                index_of_payment(before, payment_id@) == at + index_of_payment(
                    before.skip(at as int),
                    payment_id@,
                ),
            decreases self.payments@.len() - at,
        {
            assert(before.skip(at as int).drop_first() =~= before.skip(at + 1));
            at = at + 1;
        }
        if at == self.payments.len() {
            return Err(SessionError::NotFound);
        }
        proof {
            assert(before.skip(at as int)[0] == before[at as int]);
            assert(amounts(before.remove(at as int)) =~= amounts(before).remove(at as int));
            if old(self)@.consistent() {
                lemma_total_of_remove(amounts(before), at as int);
            }
            assert(payment_views(self.payments@.remove(at as int)) =~= before.remove(at as int));
        }
        let payment = self.payments.remove(at);
        match self.recalculate_total() {
            Ok(()) => Ok(()),
            Err(fault) => {
                self.payments.insert(at, payment);
                assert(self.payments@ =~= old(self).payments@);
                Err(fault)
            },
        }
    }
}

} // verus!
