use flows::DataChannel;

#[test]
fn each_direction_is_fifo() {
    let mut mailbox: DataChannel<u32, String, 4> = DataChannel::default();
    assert!(mailbox.fn_push(String::from("one")).is_ok());
    assert!(mailbox.fn_push(String::from("two")).is_ok());
    assert_eq!(mailbox.user_recv(), Some(String::from("one")));
    assert_eq!(mailbox.user_recv(), Some(String::from("two")));
    assert_eq!(mailbox.user_recv(), None);

    assert!(mailbox.user_push(1).is_ok());
    assert!(mailbox.user_push(2).is_ok());
    assert_eq!(mailbox.fn_recv(), Some(1));
    assert_eq!(mailbox.fn_recv(), Some(2));
    assert_eq!(mailbox.fn_recv(), None);
}

#[test]
fn directions_are_independent() {
    let mut mailbox: DataChannel<u32, u32, 2> = DataChannel::default();
    assert!(mailbox.user_push(10).is_ok());
    assert!(mailbox.fn_push(20).is_ok());
    // each side receives only what the other side pushed
    assert_eq!(mailbox.fn_recv(), Some(10));
    assert_eq!(mailbox.fn_recv(), None);
    assert_eq!(mailbox.user_recv(), Some(20));
    assert_eq!(mailbox.user_recv(), None);
}

#[test]
fn a_full_queue_rejects_the_payload_back() {
    let mut mailbox: DataChannel<u32, u32, 2> = DataChannel::default();
    assert!(mailbox.user_push(1).is_ok());
    assert!(mailbox.user_push(2).is_ok());
    assert_eq!(mailbox.user_push(3), Err(3));
    // the queue still holds exactly the two accepted payloads
    assert_eq!(mailbox.fn_recv(), Some(1));
    assert_eq!(mailbox.fn_recv(), Some(2));
    assert_eq!(mailbox.fn_recv(), None);

    assert!(mailbox.fn_push(7).is_ok());
    assert!(mailbox.fn_push(8).is_ok());
    assert_eq!(mailbox.fn_push(9), Err(9));
    assert_eq!(mailbox.user_recv(), Some(7));
}

#[test]
fn reset_empties_both_queues() {
    let mut mailbox: DataChannel<u32, u32, 4> = DataChannel::default();
    assert!(mailbox.user_push(1).is_ok());
    assert!(mailbox.fn_push(2).is_ok());
    mailbox.reset();
    assert_eq!(mailbox.fn_recv(), None);
    assert_eq!(mailbox.user_recv(), None);
}
