use ping_viewer_next::broadcast::{FrameChannel, FrameSubscriber};

#[test]
fn subscriber_sees_frames_in_publish_order() {
    let mut chan = FrameChannel::new(100);
    let mut sub = FrameSubscriber::subscribe(&chan);
    chan.publish(vec![1]);
    chan.publish(vec![2]);
    chan.publish(vec![3]);

    assert_eq!(sub.recv(&chan), Some(vec![1]));
    assert_eq!(sub.recv(&chan), Some(vec![2]));
    assert_eq!(sub.recv(&chan), Some(vec![3]));
    assert_eq!(sub.recv(&chan), None);
    assert_eq!(sub.lost, 0);
}

#[test]
fn late_subscriber_starts_at_head() {
    let mut chan = FrameChannel::new(100);
    chan.publish(vec![1]);
    chan.publish(vec![2]);
    let mut sub = FrameSubscriber::subscribe(&chan);
    assert_eq!(sub.recv(&chan), None);
    chan.publish(vec![3]);
    assert_eq!(sub.recv(&chan), Some(vec![3]));
}

#[test]
fn slow_subscriber_loses_oldest_frames() {
    // A subscriber that sleeps while a thousand frames are published sees
    // only the newest hundred when it wakes; the publisher never blocked.
    let mut chan = FrameChannel::new(100);
    let mut sub = FrameSubscriber::subscribe(&chan);
    for i in 0..1000u16 {
        chan.publish(vec![(i % 256) as u8, (i / 256) as u8]);
    }

    let mut received = Vec::new();
    while let Some(frame) = sub.recv(&chan) {
        received.push(frame);
    }
    assert_eq!(received.len(), 100);
    assert_eq!(sub.lost, 900);
    // What survived is exactly the newest hundred, still in order.
    assert_eq!(received[0], vec![(900u16 % 256) as u8, (900u16 / 256) as u8]);
    assert_eq!(received[99], vec![(999u16 % 256) as u8, (999u16 / 256) as u8]);
}

#[test]
fn capacity_one_keeps_newest() {
    let mut chan = FrameChannel::new(1);
    let mut sub = FrameSubscriber::subscribe(&chan);
    chan.publish(vec![1]);
    chan.publish(vec![2]);
    assert_eq!(sub.recv(&chan), Some(vec![2]));
    assert_eq!(sub.lost, 1);
    assert_eq!(sub.recv(&chan), None);
}
