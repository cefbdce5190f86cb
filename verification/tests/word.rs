use crossfire_oneshot::word::{
    has_item, has_rx_waker, has_tx_waker, is_closed, is_finished, notified, rx_waiting,
    tx_waiting, Change, CLOSE_FLAG, EXIST_FLAG, LOCK_FLAG, RX_WAKING_FLAG, TX_WAKER_FLAG,
    WAKER_SET_FLAG,
};

#[test]
fn flags_are_one_bit_each() {
    let flags =
        [LOCK_FLAG, WAKER_SET_FLAG, CLOSE_FLAG, EXIST_FLAG, TX_WAKER_FLAG, RX_WAKING_FLAG];
    assert_eq!(flags, [1, 2, 4, 8, 16, 32]);
    for (i, f) in flags.iter().enumerate() {
        assert_eq!(is_finished(*f), i == 0);
        assert_eq!(has_rx_waker(*f), i == 1);
        assert_eq!(is_closed(*f), i == 2);
        assert_eq!(has_item(*f), i == 3);
        assert_eq!(has_tx_waker(*f), i == 4);
    }
}

#[test]
fn a_sender_that_comes_first_closes() {
    let send = Change::Notify { exist: true };
    let leave = Change::Notify { exist: false };
    assert_eq!(send.apply(0), Some(LOCK_FLAG | CLOSE_FLAG | EXIST_FLAG));
    assert_eq!(leave.apply(0), Some(LOCK_FLAG | CLOSE_FLAG));
    assert_eq!(
        send.apply(TX_WAKER_FLAG),
        Some(LOCK_FLAG | CLOSE_FLAG | EXIST_FLAG | TX_WAKER_FLAG)
    );
}

#[test]
fn a_sender_locks_before_it_wakes() {
    let send = Change::Notify { exist: true };
    assert_eq!(send.apply(WAKER_SET_FLAG), Some(LOCK_FLAG | WAKER_SET_FLAG | EXIST_FLAG));
    let leave = Change::Notify { exist: false };
    assert_eq!(
        leave.apply(WAKER_SET_FLAG | TX_WAKER_FLAG),
        Some(LOCK_FLAG | WAKER_SET_FLAG | TX_WAKER_FLAG)
    );
    let left = LOCK_FLAG | WAKER_SET_FLAG | EXIST_FLAG;
    assert_eq!(notified(true, false), left);
    assert_eq!(notified(false, true), LOCK_FLAG | WAKER_SET_FLAG | TX_WAKER_FLAG);
    let finish = Change::Finish { exist: true, tx_waker: false };
    assert_eq!(finish.apply(left), Some(LOCK_FLAG | EXIST_FLAG | CLOSE_FLAG));
    assert_eq!(finish.apply(left | CLOSE_FLAG), None);
    assert_eq!(finish.apply(left | TX_WAKER_FLAG), None);
    let finish = Change::Finish { exist: false, tx_waker: true };
    assert_eq!(
        finish.apply(LOCK_FLAG | WAKER_SET_FLAG | TX_WAKER_FLAG),
        Some(LOCK_FLAG | TX_WAKER_FLAG | CLOSE_FLAG)
    );
}

#[test]
fn a_sender_finds_the_receiver_gone() {
    let send = Change::Notify { exist: true };
    assert_eq!(send.apply(CLOSE_FLAG), None);
    assert_eq!(send.apply(CLOSE_FLAG | WAKER_SET_FLAG), None);
    let waking = CLOSE_FLAG | RX_WAKING_FLAG | TX_WAKER_FLAG;
    assert_eq!(send.apply(waking), Some(waking | LOCK_FLAG));
    // Words that no channel knows are left alone.
    assert_eq!(send.apply(LOCK_FLAG), None);
    assert_eq!(send.apply(0x40), None);
}

#[test]
fn a_waker_is_offered_and_taken_back() {
    assert_eq!(Change::Register.apply(0), Some(WAKER_SET_FLAG));
    assert_eq!(Change::Register.apply(TX_WAKER_FLAG), Some(TX_WAKER_FLAG | WAKER_SET_FLAG));
    assert_eq!(Change::Register.apply(LOCK_FLAG | CLOSE_FLAG), None);
    let cancel = Change::Cancel { abandon: false };
    assert_eq!(cancel.apply(WAKER_SET_FLAG), Some(0));
    assert_eq!(cancel.apply(WAKER_SET_FLAG | TX_WAKER_FLAG), Some(TX_WAKER_FLAG));
    assert_eq!(cancel.apply(WAKER_SET_FLAG | LOCK_FLAG), None);
    assert_eq!(Change::Retract.apply(TX_WAKER_FLAG | WAKER_SET_FLAG), Some(WAKER_SET_FLAG));
    assert_eq!(Change::Retract.apply(TX_WAKER_FLAG | CLOSE_FLAG), None);
}

#[test]
fn a_receiver_gives_up_or_leaves() {
    let give_up = Change::Cancel { abandon: true };
    assert_eq!(give_up.apply(WAKER_SET_FLAG), Some(CLOSE_FLAG));
    assert_eq!(
        give_up.apply(WAKER_SET_FLAG | TX_WAKER_FLAG),
        Some(CLOSE_FLAG | TX_WAKER_FLAG | RX_WAKING_FLAG)
    );
    assert_eq!(give_up.apply(LOCK_FLAG | CLOSE_FLAG), None);
    assert_eq!(Change::Leave.apply(0), Some(CLOSE_FLAG));
    assert_eq!(
        Change::Leave.apply(TX_WAKER_FLAG),
        Some(TX_WAKER_FLAG | CLOSE_FLAG | RX_WAKING_FLAG)
    );
    assert_eq!(
        Change::Leave.apply(TX_WAKER_FLAG | LOCK_FLAG | CLOSE_FLAG),
        Some(TX_WAKER_FLAG | LOCK_FLAG | CLOSE_FLAG)
    );
    assert_eq!(Change::Settle.apply(LOCK_FLAG), Some(LOCK_FLAG | CLOSE_FLAG));
    assert_eq!(Change::Settle.apply(LOCK_FLAG | CLOSE_FLAG), None);
}

#[test]
fn who_waits() {
    assert!(tx_waiting(TX_WAKER_FLAG));
    assert!(tx_waiting(TX_WAKER_FLAG | WAKER_SET_FLAG));
    assert!(!tx_waiting(TX_WAKER_FLAG | LOCK_FLAG));
    assert!(!tx_waiting(TX_WAKER_FLAG | CLOSE_FLAG));
    assert!(!tx_waiting(0));
    assert!(rx_waiting(WAKER_SET_FLAG));
    assert!(rx_waiting(WAKER_SET_FLAG | TX_WAKER_FLAG));
    assert!(!rx_waiting(WAKER_SET_FLAG | LOCK_FLAG));
    assert!(!rx_waiting(0));
}

#[test]
fn single_flags_are_changed() {
    assert_eq!(Change::Announce.apply(CLOSE_FLAG), Some(CLOSE_FLAG | TX_WAKER_FLAG));
    assert_eq!(Change::Announce.apply(TX_WAKER_FLAG), Some(TX_WAKER_FLAG));
    assert_eq!(
        Change::EndWaking.apply(CLOSE_FLAG | RX_WAKING_FLAG | LOCK_FLAG),
        Some(CLOSE_FLAG | LOCK_FLAG)
    );
    assert_eq!(Change::Look.apply(0), None);
    assert_eq!(Change::Look.apply(0xff), None);
}
