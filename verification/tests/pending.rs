use std::sync::mpsc::{channel, TryRecvError};
use webauthn_bridge::pending::{PendingReply, Reply};

#[test]
fn last_write_wins_on_real_channels() {
    let (first_tx, first_rx) = channel::<String>();
    let (second_tx, second_rx) = channel::<String>();
    let mut slot = PendingReply::new();
    slot.install(first_tx);
    slot.install(second_tx);
    let Reply { channel, value } = slot.fulfil("1234".to_string()).expect("a handle is pending");
    channel.send(value).expect("the second receiver is alive");
    drop(channel);
    assert_eq!(second_rx.try_recv(), Ok("1234".to_string()));
    assert_eq!(first_rx.try_recv(), Err(TryRecvError::Disconnected));
    assert!(!slot.is_pending());
}
