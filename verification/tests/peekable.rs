use async_channel::{unbounded, TryRecvError};
use lan_play::peekable::PeekableReceiver;

#[test]
fn held_item_comes_first() {
    let (tx, rx) = unbounded();
    tx.try_send(1).unwrap();
    tx.try_send(2).unwrap();
    let mut r = PeekableReceiver::new(rx);
    assert_eq!(r.try_recv(), Ok(1));
    assert_eq!(r.store_peeked(Some(5)), &Some(5));
    assert_eq!(r.try_recv(), Ok(5));
    assert_eq!(r.try_recv(), Ok(2));
    assert_eq!(r.try_recv(), Err(TryRecvError::Empty));
    drop(tx);
    assert_eq!(r.try_recv(), Err(TryRecvError::Closed));
}

#[test]
fn receiver_is_reachable() {
    let (tx, rx) = unbounded::<u8>();
    let r = PeekableReceiver::new(rx);
    tx.try_send(3).unwrap();
    assert_eq!(r.receiver().try_recv(), Ok(3));
}
