use desktop_tui::fanout::{Fanout, RecvOutcome};

#[test]
fn subscriber_sees_published_items_in_order() {
    let mut f = Fanout::new(16);
    let a = f.subscribe();
    f.publish(b"one".to_vec());
    f.publish(b"two".to_vec());
    f.publish(b"three".to_vec());
    assert_eq!(f.recv(a), RecvOutcome::Item(b"one".to_vec()));
    assert_eq!(f.recv(a), RecvOutcome::Item(b"two".to_vec()));
    assert_eq!(f.recv(a), RecvOutcome::Item(b"three".to_vec()));
    assert_eq!(f.recv(a), RecvOutcome::Empty);
}

#[test]
fn two_subscribers_from_same_moment_see_same_stream() {
    let mut f = Fanout::new(16);
    let a = f.subscribe();
    let b = f.subscribe();
    f.publish(vec![1]);
    f.publish(vec![2, 2]);
    f.publish(vec![3, 3, 3]);
    let mut seen_a: Vec<Vec<u8>> = Vec::new();
    let mut seen_b: Vec<Vec<u8>> = Vec::new();
    while let RecvOutcome::Item(d) = f.recv(a) {
        seen_a.push(d);
    }
    while let RecvOutcome::Item(d) = f.recv(b) {
        seen_b.push(d);
    }
    assert_eq!(seen_a, vec![vec![1], vec![2, 2], vec![3, 3, 3]]);
    assert_eq!(seen_a, seen_b);
}

#[test]
fn slow_subscriber_lags_and_resumes_at_oldest_retained() {
    let mut f = Fanout::new(2);
    let a = f.subscribe();
    for i in 0..5u8 {
        f.publish(vec![i]);
    }
    // Items 0, 1 and 2 are gone for this subscriber; 3 and 4 are retained.
    assert_eq!(f.recv(a), RecvOutcome::Lagged(3));
    assert_eq!(f.recv(a), RecvOutcome::Item(vec![3]));
    assert_eq!(f.recv(a), RecvOutcome::Item(vec![4]));
    assert_eq!(f.recv(a), RecvOutcome::Empty);
}

#[test]
fn lag_never_blocks_publisher_or_other_subscribers() {
    let mut f = Fanout::new(2);
    let slow = f.subscribe();
    let fast = f.subscribe();
    f.publish(vec![1]);
    f.publish(vec![2]);
    assert_eq!(f.recv(fast), RecvOutcome::Item(vec![1]));
    assert_eq!(f.recv(fast), RecvOutcome::Item(vec![2]));
    f.publish(vec![3]);
    f.publish(vec![4]);
    // The fast subscriber kept up and observes everything.
    assert_eq!(f.recv(fast), RecvOutcome::Item(vec![3]));
    assert_eq!(f.recv(fast), RecvOutcome::Item(vec![4]));
    // The slow one is told how much it lost, then resumes.
    assert_eq!(f.recv(slow), RecvOutcome::Lagged(2));
    assert_eq!(f.recv(slow), RecvOutcome::Item(vec![3]));
    assert_eq!(f.recv(slow), RecvOutcome::Item(vec![4]));
}

#[test]
fn receiving_on_one_subscription_leaves_others_alone() {
    let mut f = Fanout::new(8);
    let a = f.subscribe();
    let b = f.subscribe();
    f.publish(vec![9]);
    assert_eq!(f.recv(a), RecvOutcome::Item(vec![9]));
    assert_eq!(f.recv(a), RecvOutcome::Empty);
    // Subscriber b still gets its own copy.
    assert_eq!(f.recv(b), RecvOutcome::Item(vec![9]));
}

#[test]
fn late_subscriber_sees_only_later_output() {
    let mut f = Fanout::new(8);
    let early = f.subscribe();
    f.publish(b"before".to_vec());
    let late = f.subscribe();
    f.publish(b"after".to_vec());
    assert_eq!(f.recv(late), RecvOutcome::Item(b"after".to_vec()));
    assert_eq!(f.recv(late), RecvOutcome::Empty);
    assert_eq!(f.recv(early), RecvOutcome::Item(b"before".to_vec()));
    assert_eq!(f.recv(early), RecvOutcome::Item(b"after".to_vec()));
}

#[test]
fn close_ends_stream_after_pending_items() {
    let mut f = Fanout::new(8);
    let a = f.subscribe();
    f.publish(vec![1]);
    f.close();
    assert_eq!(f.recv(a), RecvOutcome::Item(vec![1]));
    assert_eq!(f.recv(a), RecvOutcome::Closed);
    assert_eq!(f.recv(a), RecvOutcome::Closed);
}

#[test]
fn subscriber_count_grows_with_subscriptions() {
    let mut f = Fanout::new(4);
    assert_eq!(f.subscriber_count(), 0);
    let a = f.subscribe();
    let b = f.subscribe();
    assert_eq!(a, 0);
    assert_eq!(b, 1);
    assert_eq!(f.subscriber_count(), 2);
}
