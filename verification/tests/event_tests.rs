use uds_throughput::events::{
    contains, is_termination_event, RawEvent, ERROR, HANGUP, INTEREST, READABLE, REMOTE_HANGUP,
    WRITABLE,
};
use uds_throughput::session::{Role, Session, Termination};

#[test]
fn interest_set_holds_both_directions_and_hangups() {
    assert!(contains(INTEREST, READABLE));
    assert!(contains(INTEREST, WRITABLE));
    assert!(contains(INTEREST, HANGUP));
    assert!(contains(INTEREST, REMOTE_HANGUP));
}

#[test]
fn hangup_bits_terminate() {
    assert!(is_termination_event(HANGUP));
    assert!(is_termination_event(REMOTE_HANGUP));
    assert!(is_termination_event(ERROR));
    assert!(!is_termination_event(READABLE | WRITABLE));
}

#[test]
fn writable_event_plans_server_write() {
    let s = Session::new(Role::Server, 7, 0, 1000);
    let plan = s.plan_event(&RawEvent { data: 7, bits: WRITABLE });
    assert!(!plan.terminate);
    assert!(plan.attempt_write);
    assert!(!plan.attempt_read);
    assert!(!plan.note_readable);
    assert!(!plan.descriptor_mismatch);
}

#[test]
fn readable_event_plans_client_read() {
    let s = Session::new(Role::Client, 7, 0, 1000);
    let plan = s.plan_event(&RawEvent { data: 7, bits: READABLE });
    assert!(plan.attempt_read);
    assert!(!plan.attempt_write);
    assert!(!plan.note_readable);
}

#[test]
fn server_only_notes_readable() {
    let s = Session::new(Role::Server, 7, 0, 1000);
    let plan = s.plan_event(&RawEvent { data: 7, bits: READABLE });
    assert!(plan.note_readable);
    assert!(!plan.attempt_read);
    assert!(!plan.attempt_write);
}

#[test]
fn client_ignores_writable() {
    let s = Session::new(Role::Client, 7, 0, 1000);
    let plan = s.plan_event(&RawEvent { data: 7, bits: WRITABLE });
    assert!(!plan.attempt_write);
    assert!(!plan.attempt_read);
}

#[test]
fn hangup_beats_writable_in_one_event() {
    let s = Session::new(Role::Server, 7, 0, 1000);
    let plan = s.plan_event(&RawEvent { data: 7, bits: HANGUP | WRITABLE });
    assert!(plan.terminate);
    assert!(!plan.attempt_write);
    assert!(!plan.note_readable);
}

#[test]
fn foreign_descriptor_ends_the_session_without_a_write() {
    let mut s = Session::new(Role::Server, 7, 0, 1000);
    let plan = s.plan_event(&RawEvent { data: 8, bits: WRITABLE });
    assert!(plan.descriptor_mismatch);
    assert!(!plan.terminate);
    assert!(!plan.attempt_write);
    s.on_foreign_descriptor();
    assert!(s.is_done());
    assert_eq!(s.termination, Some(Termination::ForeignDescriptor));
}

#[test]
fn batch_stops_at_a_foreign_descriptor() {
    let s = Session::new(Role::Server, 7, 0, 1000);
    let batch = vec![
        RawEvent { data: 7, bits: WRITABLE },
        RawEvent { data: 8, bits: WRITABLE },
        RawEvent { data: 7, bits: WRITABLE },
    ];
    let plans = s.plan_batch(&batch);
    assert_eq!(plans.len(), 2);
    assert!(plans[0].attempt_write);
    assert!(plans[1].descriptor_mismatch);
    assert!(!plans[1].attempt_write);
}

#[test]
fn batch_stops_at_first_hangup() {
    let s = Session::new(Role::Server, 7, 0, 1000);
    let batch = vec![
        RawEvent { data: 7, bits: WRITABLE },
        RawEvent { data: 7, bits: HANGUP | WRITABLE },
        RawEvent { data: 7, bits: WRITABLE },
    ];
    let plans = s.plan_batch(&batch);
    assert_eq!(plans.len(), 2);
    assert!(plans[0].attempt_write);
    assert!(!plans[0].terminate);
    assert!(plans[1].terminate);
    assert!(!plans[1].attempt_write);
}

#[test]
fn batch_without_hangup_is_consumed_whole() {
    let s = Session::new(Role::Server, 7, 0, 1000);
    let batch = vec![
        RawEvent { data: 7, bits: WRITABLE },
        RawEvent { data: 7, bits: READABLE },
        RawEvent { data: 7, bits: WRITABLE },
    ];
    let plans = s.plan_batch(&batch);
    assert_eq!(plans.len(), 3);
    assert!(plans[0].attempt_write);
    assert!(plans[1].note_readable);
    assert!(plans[2].attempt_write);
}

#[test]
fn empty_batch_plans_nothing() {
    let s = Session::new(Role::Server, 7, 0, 1000);
    let plans = s.plan_batch(&Vec::new());
    assert_eq!(plans.len(), 0);
}
