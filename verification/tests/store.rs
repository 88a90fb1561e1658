use settleone_backend::clock::Timestamp;
use settleone_backend::models::session::{
    Payment, PaymentStatus, Session, SessionError, SessionStatus,
};
use settleone_backend::services::session::{SessionService, SessionStore};

fn payment(id: &str, recipient: &str, amount: &str) -> Payment {
    Payment {
        id: id.to_string(),
        recipient: recipient.to_string(),
        recipient_ens: None,
        amount: amount.to_string(),
        status: PaymentStatus::Pending,
        created_at: Timestamp { secs: 1_700_000_000, nanos: 5 },
    }
}

fn same(a: &Session, b: &Session) -> bool {
    a.id == b.id
        && a.user == b.user
        && a.status == b.status
        && a.total_amount == b.total_amount
        && a.created_at == b.created_at
        && a.payments.len() == b.payments.len()
        && a.payments.iter().zip(b.payments.iter()).all(|(x, y)| {
            x.id == y.id
                && x.recipient == y.recipient
                && x.recipient_ens == y.recipient_ens
                && x.amount == y.amount
                && x.status == y.status
                && x.created_at == y.created_at
        })
}

fn sum_of(session: &Session) -> u128 {
    session.payments.iter().map(|p| p.amount.parse::<u128>().unwrap()).sum()
}

#[test]
fn created_session_is_found_as_created() {
    let mut store = SessionStore::new();
    let created = store.create("id-1".to_string(), "u1".to_string());
    let found = store.get("id-1").expect("kept under its id");
    assert_eq!(found.status, SessionStatus::Active);
    assert!(found.payments.is_empty());
    assert_eq!(found.total_amount, "0");
    assert_eq!(found.user, "u1");
    assert_eq!(found.id, "id-1");
    assert!(same(&created, &found));
}

#[test]
fn get_of_unknown_id_is_none() {
    let mut store = SessionStore::new();
    assert!(store.get("id-1").is_none());
    store.create("id-1".to_string(), "u1".to_string());
    assert!(store.get("id-2").is_none());
    assert!(store.get("").is_none());
    assert!(store.get("ID-1").is_none());
}

#[test]
fn get_twice_gives_the_same() {
    let mut store = SessionStore::new();
    store.create("id-1".to_string(), "u1".to_string());
    store.add_payment("id-1", payment("pay1", "0xR1", "12")).unwrap();
    let first = store.get("id-1").unwrap();
    let second = store.get("id-1").unwrap();
    let third = store.get("id-1").unwrap();
    assert!(same(&first, &second));
    assert!(same(&second, &third));
    assert!(store.get("nope").is_none());
    assert!(store.get("nope").is_none());
}

#[test]
fn snapshot_is_a_copy() {
    let mut store = SessionStore::new();
    let mut copy = store.create("id-1".to_string(), "u1".to_string());
    copy.total_amount = "77".to_string();
    copy.payments.push(payment("x", "0xR", "77"));
    copy.status = SessionStatus::Cancelled;
    let kept = store.get("id-1").unwrap();
    assert_eq!(kept.total_amount, "0");
    assert!(kept.payments.is_empty());
    assert_eq!(kept.status, SessionStatus::Active);
}

#[test]
fn create_under_a_used_id_replaces_the_session() {
    let mut store = SessionStore::new();
    store.create("id-1".to_string(), "u1".to_string());
    store.add_payment("id-1", payment("pay1", "0xR1", "12")).unwrap();
    store.create("id-1".to_string(), "u2".to_string());
    let kept = store.get("id-1").unwrap();
    assert_eq!(kept.user, "u2");
    assert!(kept.payments.is_empty());
    assert_eq!(kept.total_amount, "0");
}

#[test]
fn two_payments_for_alice_add_up() {
    let mut store = SessionStore::new();
    store.create("s".to_string(), "alice".to_string());
    let after_one = store.add_payment("s", payment("pay1", "0xR1", "1000000")).unwrap();
    assert_eq!(after_one.payments.len(), 1);
    assert_eq!(after_one.total_amount, "1000000");
    let after_two = store.add_payment("s", payment("pay2", "0xR2", "2000000")).unwrap();
    assert_eq!(after_two.payments.len(), 2);
    assert_eq!(after_two.total_amount, "3000000");
    assert_eq!(after_two.payments[0].recipient, "0xR1");
    assert_eq!(after_two.payments[1].recipient, "0xR2");
    assert!(same(&after_two, &store.get("s").unwrap()));
}

#[test]
fn bad_amount_is_invalid_and_total_stays() {
    let mut store = SessionStore::new();
    store.create("s".to_string(), "alice".to_string());
    store.add_payment("s", payment("pay1", "0xR1", "1000000")).unwrap();
    let before = store.get("s").unwrap();
    match store.add_payment("s", payment("pay2", "0xR2", "abc")) {
        Err(SessionError::InvalidAmount(text)) => assert_eq!(text, "abc"),
        other => panic!("{:?}", other),
    }
    let after = store.get("s").unwrap();
    assert_eq!(after.total_amount, "1000000");
    assert!(same(&before, &after));
}

#[test]
fn unknown_session_is_not_found() {
    let mut store = SessionStore::new();
    store.create("s".to_string(), "alice".to_string());
    let missing = store.add_payment("t", payment("pay1", "0xR1", "1"));
    assert!(matches!(missing, Err(SessionError::NotFound)));
    // even with an amount that would not parse
    let missing = store.add_payment("t", payment("pay1", "0xR1", "abc"));
    assert!(matches!(missing, Err(SessionError::NotFound)));
    let invalid = store.add_payment("s", payment("pay1", "0xR1", "abc"));
    assert!(matches!(invalid, Err(SessionError::InvalidAmount(_))));
    assert!(store.get("t").is_none());
    assert!(store.get("s").unwrap().payments.is_empty());
}

#[test]
fn finalize_makes_pending() {
    let mut service = SessionService::new();
    let id = service.create_session("alice".to_string()).id;
    service.add_payment(&id, "0xR".to_string(), None, "5000000".to_string()).unwrap();
    let closed = service.finalize(&id).unwrap();
    assert_eq!(closed.status, SessionStatus::Pending);
    let found = service.get_session(&id).unwrap();
    assert_eq!(found.status, SessionStatus::Pending);
    assert_eq!(found.payments.len(), 1);
    assert_eq!(found.total_amount, "5000000");
    assert!(service.finalize("unknown").is_none());
}

#[test]
fn overflow_is_told_apart_and_changes_nothing() {
    let mut store = SessionStore::new();
    store.create("s".to_string(), "alice".to_string());
    let max = u128::MAX.to_string();
    store.add_payment("s", payment("pay1", "0xR1", &max)).unwrap();
    let before = store.get("s").unwrap();
    let r = store.add_payment("s", payment("pay2", "0xR2", "1"));
    assert!(matches!(r, Err(SessionError::AmountOverflow)));
    assert!(same(&before, &store.get("s").unwrap()));
}

#[test]
fn update_status_sets_any_status() {
    let mut store = SessionStore::new();
    store.create("s".to_string(), "alice".to_string());
    store.add_payment("s", payment("pay1", "0xR1", "3")).unwrap();
    for status in [
        SessionStatus::Settled,
        SessionStatus::Active,
        SessionStatus::Cancelled,
        SessionStatus::Pending,
        SessionStatus::Pending,
    ] {
        let updated = store.update_status("s", status).unwrap();
        assert_eq!(updated.status, status);
        let kept = store.get("s").unwrap();
        assert_eq!(kept.status, status);
        assert_eq!(kept.total_amount, "3");
        assert_eq!(kept.payments.len(), 1);
        assert_eq!(kept.user, "alice");
    }
    assert!(store.update_status("t", SessionStatus::Settled).is_none());
    assert!(store.get("t").is_none());
}

#[test]
fn remove_payment_in_the_store() {
    let mut store = SessionStore::new();
    store.create("s".to_string(), "alice".to_string());
    store.add_payment("s", payment("pay1", "0xR1", "10")).unwrap();
    store.add_payment("s", payment("pay2", "0xR2", "5")).unwrap();
    assert!(store.remove_payment("t", "pay1").is_none());
    assert!(store.remove_payment("s", "pay9").is_none());
    assert_eq!(store.get("s").unwrap().total_amount, "15");
    let after = store.remove_payment("s", "pay1").unwrap();
    assert_eq!(after.payments.len(), 1);
    assert_eq!(after.payments[0].id, "pay2");
    assert_eq!(after.total_amount, "5");
    assert!(same(&after, &store.get("s").unwrap()));
    assert!(store.remove_payment("s", "pay1").is_none());
}

#[test]
fn sessions_do_not_touch_each_other() {
    let mut store = SessionStore::new();
    store.create("a".to_string(), "alice".to_string());
    store.create("b".to_string(), "bob".to_string());
    store.add_payment("a", payment("pay1", "0xR1", "10")).unwrap();
    let b_before = store.get("b").unwrap();
    store.add_payment("a", payment("pay2", "0xR1", "bad")).unwrap_err();
    store.update_status("a", SessionStatus::Cancelled).unwrap();
    store.remove_payment("a", "pay1").unwrap();
    assert!(same(&b_before, &store.get("b").unwrap()));
}

#[test]
fn total_is_the_sum_after_every_step() {
    let mut store = SessionStore::new();
    store.create("s".to_string(), "alice".to_string());
    let steps: [(&str, &str); 8] = [
        ("pay1", "1"),
        ("pay2", "x"),
        ("pay3", "18446744073709551616"),
        ("pay4", "+7"),
        ("pay5", ""),
        ("pay6", "340282366920938463463374607431768211455"),
        ("pay7", "0"),
        ("pay8", "99"),
    ];
    for (id, amount) in steps {
        let _ = store.add_payment("s", payment(id, "0xR", amount));
        let kept = store.get("s").unwrap();
        assert_eq!(kept.total_amount, sum_of(&kept).to_string());
    }
    assert_eq!(store.get("s").unwrap().payments.len(), 5);
    for id in ["pay3", "zz", "pay1", "pay8"] {
        let _ = store.remove_payment("s", id);
        let kept = store.get("s").unwrap();
        assert_eq!(kept.total_amount, sum_of(&kept).to_string());
    }
    assert_eq!(store.get("s").unwrap().total_amount, "7");
}

#[test]
fn every_order_of_arrival_counts_every_payment() {
    let amounts = ["1", "20", "300", "4000"];
    let orders: [[usize; 4]; 6] = [
        [0, 1, 2, 3],
        [3, 2, 1, 0],
        [1, 3, 0, 2],
        [2, 0, 3, 1],
        [0, 2, 1, 3],
        [3, 0, 1, 2],
    ];
    for order in orders {
        let mut store = SessionStore::new();
        store.create("s".to_string(), "alice".to_string());
        for at in order {
            let id = format!("pay{}", at);
            store.add_payment("s", payment(&id, "0xR", amounts[at])).unwrap();
        }
        let kept = store.get("s").unwrap();
        assert_eq!(kept.payments.len(), 4);
        assert_eq!(kept.total_amount, "4321");
        let arrived: Vec<String> = kept.payments.iter().map(|p| p.id.clone()).collect();
        let expected: Vec<String> = order.iter().map(|at| format!("pay{}", at)).collect();
        assert_eq!(arrived, expected);
    }
}

#[test]
fn many_payments_are_all_counted() {
    let mut service = SessionService::new();
    let id = service.create_session("alice".to_string()).id;
    let mut expected: u128 = 0;
    for n in 1..=200u128 {
        let amount = n * 1_000_000_007;
        expected += amount;
        service.add_payment(&id, "0xR".to_string(), None, amount.to_string()).unwrap();
    }
    let kept = service.get_session(&id).unwrap();
    assert_eq!(kept.payments.len(), 200);
    assert_eq!(kept.total_amount, expected.to_string());
}

#[test]
fn service_creates_sessions_under_fresh_ids() {
    let mut service = SessionService::new();
    let one = service.create_session("u1".to_string());
    let two = service.create_session("u1".to_string());
    assert_eq!(one.id.len(), 36);
    assert_ne!(one.id, two.id);
    assert_eq!(one.user, "u1");
    assert_eq!(one.status, SessionStatus::Active);
    assert_eq!(one.total_amount, "0");
    assert!(one.payments.is_empty());
    let found = service.get_session(&one.id).unwrap();
    assert!(same(&one, &found));
    assert!(service.get_session("nonexistent-id-12345").is_none());
}

#[test]
fn service_makes_the_payment_it_is_asked_for() {
    let mut service = SessionService::new();
    let id = service.create_session("alice".to_string()).id;
    let after = service
        .add_payment(&id, "0xR1".to_string(), Some("alice.eth".to_string()), "1000000".to_string())
        .unwrap();
    assert_eq!(after.payments.len(), 1);
    let paid = &after.payments[0];
    assert_eq!(paid.recipient, "0xR1");
    assert_eq!(paid.recipient_ens.as_deref(), Some("alice.eth"));
    assert_eq!(paid.amount, "1000000");
    assert_eq!(paid.status, PaymentStatus::Pending);
    assert_eq!(paid.id.len(), 36);
    assert_eq!(after.total_amount, "1000000");

    let bad = service.add_payment(&id, "0xR2".to_string(), None, "abc".to_string());
    assert!(matches!(bad, Err(SessionError::InvalidAmount(_))));
    let missing = service.add_payment("nope", "0xR2".to_string(), None, "1".to_string());
    assert!(matches!(missing, Err(SessionError::NotFound)));
    assert!(same(&after, &service.get_session(&id).unwrap()));

    let payment_id = paid.id.clone();
    assert!(service.remove_payment(&id, "other").is_none());
    assert!(service.remove_payment("nope", &payment_id).is_none());
    let emptied = service.remove_payment(&id, &payment_id).unwrap();
    assert!(emptied.payments.is_empty());
    assert_eq!(emptied.total_amount, "0");
}
