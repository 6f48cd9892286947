use actrice::{channel, received};

#[test]
fn messages_come_out_in_the_order_they_went_in() {
    let (tx, rx) = channel(3);
    assert_eq!(tx.send_sync(1u32), Ok(()));
    assert_eq!(tx.send_sync(2u32), Ok(()));
    assert_eq!(tx.send_sync(3u32), Ok(()));
    assert_eq!(rx.recv_sync(), Some(1));
    assert_eq!(rx.recv_sync(), Some(2));
    assert_eq!(rx.recv_sync(), Some(3));
}

#[test]
fn send_without_receiver_gives_the_message_back() {
    let (tx, rx) = channel::<String>(1);
    drop(rx);
    assert_eq!(tx.send_sync("lost".to_owned()), Err("lost".to_owned()));
}

#[test]
fn recv_after_every_sender_is_gone_drains_then_ends() {
    let (tx, rx) = channel(2);
    let tx2 = tx.clone();
    assert_eq!(tx2.send_sync('a'), Ok(()));
    drop(tx);
    drop(tx2);
    assert_eq!(rx.recv_sync(), Some('a'));
    assert_eq!(rx.recv_sync(), None);
}

#[test]
fn cloned_receivers_share_the_messages() {
    let (tx, rx) = channel(2);
    let rx2 = rx.clone();
    assert_eq!(tx.send_sync(10i64), Ok(()));
    assert_eq!(tx.send_sync(20i64), Ok(()));
    assert_eq!(rx2.recv_sync(), Some(10));
    assert_eq!(rx.recv_sync(), Some(20));
}

#[test]
fn received_maps_the_answer_of_the_channel() {
    assert_eq!(received::<u8>(Ok(4)), Some(4));
    assert_eq!(received::<u8>(Err(flume::RecvError::Disconnected)), None);
}

#[test]
fn rendezvous_channel_hands_over_between_threads() {
    let pool = tokio::runtime::Runtime::new().unwrap();
    let (tx, rx) = channel(0);
    let t = pool.spawn_blocking(move || tx.send_sync(5u8));
    assert_eq!(rx.recv_sync(), Some(5));
    assert_eq!(pool.block_on(t).unwrap(), Ok(()));
}
