use std::sync::mpsc;
use waylanddisplaycore::maybe_recv::MaybeRecv;

#[test]
fn value_is_returned_directly() {
    let mut v: MaybeRecv<Vec<u8>> = MaybeRecv::Value(vec![1, 2]);
    assert_eq!(v.get(), Some(&vec![1, 2]));
    assert!(matches!(v, MaybeRecv::Value(_)));
}

#[test]
fn received_value_is_kept() {
    let (tx, rx) = mpsc::channel();
    tx.send(vec!["DISPLAY=:1".to_string()]).unwrap();
    let mut v = MaybeRecv::Rx(rx);
    assert_eq!(v.get(), Some(&vec!["DISPLAY=:1".to_string()]));
    // The sender may be gone now: the value was kept.
    drop(tx);
    assert_eq!(v.get(), Some(&vec!["DISPLAY=:1".to_string()]));
    assert!(matches!(v, MaybeRecv::Value(_)));
}

#[test]
fn closed_channel_gives_nothing() {
    let (tx, rx) = mpsc::channel::<u32>();
    drop(tx);
    let mut v = MaybeRecv::Rx(rx);
    assert_eq!(v.get(), None);
    assert!(matches!(v, MaybeRecv::Rx(_)));
}
