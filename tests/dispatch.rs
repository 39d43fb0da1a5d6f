use zmq_subscribe::{fan_in_capacity, Verdict};

#[test]
fn verdict_from_failed_send_is_stop() {
    let failed: Result<(), &str> = Err("closed");
    assert_eq!(Verdict::from_send(&failed), Verdict::Stop);
    assert!(Verdict::from_send(&failed).is_stop());
}

#[test]
fn verdict_from_send_is_continue() {
    let sent: Result<(), &str> = Ok(());
    assert_eq!(Verdict::from_send(&sent), Verdict::Continue);
    assert!(!Verdict::Continue.is_stop());
}

#[test]
fn fan_in_capacity_covers_endpoints() {
    assert_eq!(fan_in_capacity(3), 3);
    assert_eq!(fan_in_capacity(1), 1);
    assert_eq!(fan_in_capacity(0), 1);
}
