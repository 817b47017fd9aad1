use actor_core::actor::ActorMessage;
use actor_core::actor::AddrInner;
use actor_core::actor::HandleOp;
use actor_core::actor::HandleOp::Release;
use actor_core::actor::HandleOp::Retain;
use actor_core::actor::replay_handle_ops;

#[test]
fn spawn_starts_with_one_strong_handle() {
    let inner: AddrInner<u32> = AddrInner::new(2);
    assert_eq!(inner.strong_count(), 1);
}

#[test]
fn only_the_last_release_triggers_stop() {
    // Three clones of the spawn handle, four releases in a mixed order:
    // no release but the fourth reports that a Stop is owed.
    let mut inner: AddrInner<u32> = AddrInner::new(2);
    inner.clone_strong();
    inner.clone_strong();
    assert!(!inner.release_strong());
    inner.clone_strong();
    assert!(!inner.release_strong());
    assert!(!inner.release_strong());
    assert_eq!(inner.strong_count(), 1);
    assert!(inner.release_strong());
    assert_eq!(inner.strong_count(), 0);
    // Exactly one Stop is then enqueued, by the releasing caller.
    inner.push_stop();
    let mut item = inner.try_recv();
    assert!(matches!(item, Some(ActorMessage::Stop)));
    item = inner.try_recv();
    assert!(item.is_none());
}

#[test]
fn upgrade_succeeds_only_while_a_strong_handle_lives() {
    let mut inner: AddrInner<u32> = AddrInner::new(2);
    // A weak handle taken before the last release upgrades successfully...
    assert!(inner.try_upgrade());
    assert_eq!(inner.strong_count(), 2);
    assert!(!inner.release_strong());
    assert!(inner.release_strong());
    // ...and once every strong handle is gone, upgrading yields nothing.
    assert!(!inner.try_upgrade());
    assert_eq!(inner.strong_count(), 0);
}

#[test]
fn send_through_live_handle_fills_the_mailbox() {
    let mut inner: AddrInner<u32> = AddrInner::new(2);
    assert_eq!(inner.send_isr(7), Ok(()));
    assert_eq!(inner.send_isr(8), Ok(()));
    // Full mailbox: the message comes back, nothing is inserted.
    assert_eq!(inner.send_isr(9), Err(9));
    assert!(matches!(inner.try_recv(), Some(ActorMessage::Message(8))));
    assert_eq!(inner.send_isr(9), Ok(()));
    assert!(matches!(inner.try_recv(), Some(ActorMessage::Message(9))));
    assert!(matches!(inner.try_recv(), Some(ActorMessage::Message(7))));
}

#[test]
fn any_release_order_enqueues_one_stop_at_the_end() {
    // Several interleavings of clones and releases that end with every
    // handle released: each leaves exactly one Stop in the mailbox.
    let histories: Vec<Vec<HandleOp>> = vec![
        vec![Release],
        vec![Retain, Release, Release],
        vec![Retain, Retain, Release, Retain, Release, Release, Release],
        vec![Retain, Retain, Retain, Release, Release, Release, Release],
    ];
    for ops in histories {
        let mut inner: AddrInner<u32> = replay_handle_ops(&ops, 2);
        assert_eq!(inner.strong_count(), 0);
        let left = inner.drain();
        assert_eq!(left.len(), 1);
        assert!(matches!(left[0], ActorMessage::Stop));
    }
    // A history that keeps one handle alive enqueues nothing.
    let mut inner: AddrInner<u32> = replay_handle_ops(&vec![Retain, Release], 2);
    assert_eq!(inner.strong_count(), 1);
    assert!(inner.drain().is_empty());
}

#[test]
fn teardown_drains_every_leftover_item() {
    let mut inner: AddrInner<u32> = AddrInner::new(3);
    assert_eq!(inner.send_isr(1), Ok(()));
    assert_eq!(inner.send_isr(2), Ok(()));
    assert!(inner.release_strong());
    inner.push_stop();
    let left = inner.drain();
    assert_eq!(left.len(), 3);
    assert!(matches!(left[0], ActorMessage::Stop));
    assert!(matches!(left[1], ActorMessage::Message(2)));
    assert!(matches!(left[2], ActorMessage::Message(1)));
}
