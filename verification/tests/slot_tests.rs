use ar_rust::frame::Frame;
use ar_rust::slot::{FrameSlot, WaitOutcome};

fn frame_of(tag: u8) -> Frame {
    Frame::new(2, 2, vec![tag, tag, tag, tag])
}

/// A frame whose last byte is the wrapping sum of the bytes before it.
fn tagged(seed: u8, len: usize) -> Frame {
    let mut data: Vec<u8> = Vec::new();
    let mut sum: u8 = 0;
    for i in 0..len {
        let b = seed.wrapping_add(i as u8);
        sum = sum.wrapping_add(b);
        data.push(b);
    }
    data.push(sum);
    Frame::new(len as i32 + 1, 1, data)
}

fn tag_holds(f: &Frame) -> bool {
    let n = f.data.len();
    if n == 0 {
        return false;
    }
    let mut sum: u8 = 0;
    for b in &f.data[..n - 1] {
        sum = sum.wrapping_add(*b);
    }
    sum == f.data[n - 1] && f.width as usize == n
}

#[test]
fn new_slot_is_empty() {
    let s = FrameSlot::new();
    assert!(!s.is_ready());
    assert_eq!(s.generation(), 0);
    assert!(!s.stop_requested());
    assert!(s.can_publish());
    assert!(s.peek().is_none());
    assert_eq!(s.stored().width, 0);
    assert_eq!(s.stored().height, 0);
    assert!(s.stored().data.is_empty());
}

#[test]
fn peek_after_one_publish_returns_that_frame() {
    let mut s = FrameSlot::new();
    s.publish(Frame::new(3, 1, vec![9, 8, 7]));
    assert!(s.is_ready());
    assert_eq!(s.generation(), 1);
    let f = s.peek().expect("a frame was published");
    assert_eq!(f.width, 3);
    assert_eq!(f.height, 1);
    assert_eq!(f.data, vec![9, 8, 7]);
}

#[test]
fn peek_returns_the_latest_of_many() {
    let mut s = FrameSlot::new();
    for tag in 1..=5u8 {
        s.publish(frame_of(tag));
    }
    assert_eq!(s.generation(), 5);
    assert_eq!(s.peek().unwrap().data, vec![5, 5, 5, 5]);
    // Peeking does not consume.
    assert_eq!(s.peek().unwrap().data, vec![5, 5, 5, 5]);
}

#[test]
fn peek_hands_out_a_copy() {
    let mut s = FrameSlot::new();
    s.publish(frame_of(1));
    let mut f = s.peek().unwrap();
    f.data[0] = 200;
    assert_eq!(s.peek().unwrap().data, vec![1, 1, 1, 1]);
}

#[test]
fn poll_fresh_is_pending_before_any_publish() {
    let s = FrameSlot::new();
    assert!(matches!(s.poll_fresh(0), WaitOutcome::Pending));
}

#[test]
fn poll_fresh_gives_only_later_generations() {
    let mut s = FrameSlot::new();
    s.publish(frame_of(1));
    s.publish(frame_of(2));
    match s.poll_fresh(0) {
        WaitOutcome::Fresh(o) => {
            assert_eq!(o.generation, 2);
            assert_eq!(o.frame.data, vec![2, 2, 2, 2]);
        }
        other => panic!("expected a fresh frame, got {:?}", other),
    }
    match s.poll_fresh(1) {
        WaitOutcome::Fresh(o) => assert_eq!(o.generation, 2),
        other => panic!("expected a fresh frame, got {:?}", other),
    }
    assert!(matches!(s.poll_fresh(2), WaitOutcome::Pending));
    assert!(matches!(s.poll_fresh(3), WaitOutcome::Pending));
    assert!(matches!(s.poll_fresh(u64::MAX), WaitOutcome::Pending));
}

#[test]
fn a_publish_ends_the_wait() {
    let mut s = FrameSlot::new();
    s.publish(frame_of(1));
    assert!(matches!(s.poll_fresh(1), WaitOutcome::Pending));
    s.publish(frame_of(2));
    match s.poll_fresh(1) {
        WaitOutcome::Fresh(o) => {
            assert_eq!(o.generation, 2);
            assert_eq!(o.frame.data, vec![2, 2, 2, 2]);
        }
        other => panic!("expected a fresh frame, got {:?}", other),
    }
}

#[test]
fn observed_generations_strictly_increase() {
    let mut s = FrameSlot::new();
    let mut last_seen: u64 = 0;
    let mut observed: Vec<u64> = Vec::new();
    // The writer publishes in bursts of different length between two looks.
    let bursts = [1usize, 0, 3, 0, 0, 2, 1, 5];
    let mut tag: u8 = 0;
    for burst in bursts {
        for _ in 0..burst {
            tag += 1;
            s.publish(frame_of(tag));
        }
        match s.poll_fresh(last_seen) {
            WaitOutcome::Fresh(o) => {
                assert!(o.generation > last_seen);
                assert_eq!(o.frame.data[0] as u64, o.generation);
                last_seen = o.generation;
                observed.push(o.generation);
            }
            WaitOutcome::Pending => assert_eq!(burst, 0),
            WaitOutcome::Stopped => panic!("nobody asked for a stop"),
        }
    }
    assert_eq!(observed, vec![1, 4, 6, 7, 12]);
    for w in observed.windows(2) {
        assert!(w[0] < w[1]);
    }
}

#[test]
fn two_consumers_lag_independently() {
    let mut s = FrameSlot::new();
    let mut seen_a: u64 = 0;
    let mut seen_b: u64 = 0;
    s.publish(frame_of(1));
    if let WaitOutcome::Fresh(o) = s.poll_fresh(seen_a) {
        seen_a = o.generation;
    }
    s.publish(frame_of(2));
    s.publish(frame_of(3));
    if let WaitOutcome::Fresh(o) = s.poll_fresh(seen_b) {
        seen_b = o.generation;
    }
    assert_eq!(seen_a, 1);
    assert_eq!(seen_b, 3);
    assert!(matches!(s.poll_fresh(seen_b), WaitOutcome::Pending));
    match s.poll_fresh(seen_a) {
        WaitOutcome::Fresh(o) => assert_eq!(o.generation, 3),
        other => panic!("expected a fresh frame, got {:?}", other),
    }
}

#[test]
fn request_stop_unblocks_every_wait() {
    let mut s = FrameSlot::new();
    s.request_stop();
    assert!(s.stop_requested());
    assert!(matches!(s.poll_fresh(0), WaitOutcome::Stopped));
    assert!(matches!(s.poll_fresh(17), WaitOutcome::Stopped));
}

#[test]
fn stop_wins_over_a_fresh_frame() {
    let mut s = FrameSlot::new();
    s.publish(frame_of(1));
    s.request_stop();
    assert!(matches!(s.poll_fresh(0), WaitOutcome::Stopped));
    s.publish(frame_of(2));
    assert!(matches!(s.poll_fresh(0), WaitOutcome::Stopped));
    assert!(matches!(s.poll_fresh(1), WaitOutcome::Stopped));
    // The frame itself is still there for those who only peek.
    assert_eq!(s.peek().unwrap().data, vec![2, 2, 2, 2]);
    assert_eq!(s.generation(), 2);
}

#[test]
fn request_stop_twice_is_the_same_as_once() {
    let mut s = FrameSlot::new();
    s.publish(frame_of(1));
    s.request_stop();
    s.request_stop();
    assert!(s.stop_requested());
    assert_eq!(s.generation(), 1);
    assert!(s.is_ready());
}

#[test]
fn every_frame_seen_is_whole() {
    let mut s = FrameSlot::new();
    let mut last_seen: u64 = 0;
    for round in 0..200usize {
        let seed = (round * 7 % 256) as u8;
        s.publish(tagged(seed, 1 + round % 13));
        let f = s.peek().unwrap();
        assert!(tag_holds(&f));
        assert_eq!(f.data[0], seed);
        match s.poll_fresh(last_seen) {
            WaitOutcome::Fresh(o) => {
                assert!(tag_holds(&o.frame));
                assert_eq!(o.frame.data, f.data);
                last_seen = o.generation;
            }
            other => panic!("expected a fresh frame, got {:?}", other),
        }
    }
    assert_eq!(last_seen, 200);
}

#[test]
fn frame_dimensions_decide_displayability() {
    assert!(!Frame::empty().is_displayable());
    assert!(Frame::new(1, 1, vec![0]).is_displayable());
    assert!(!Frame::new(0, 5, vec![]).is_displayable());
    assert!(!Frame::new(5, 0, vec![]).is_displayable());
    assert!(!Frame::new(-1, 5, vec![]).is_displayable());
    assert!(!Frame::new(5, -1, vec![]).is_displayable());
    assert!(Frame::new(i32::MAX, i32::MAX, vec![]).is_displayable());
}

#[test]
fn overwrite_replaces_the_whole_frame() {
    let mut dst = Frame::new(4, 4, vec![1; 16]);
    let src = Frame::new(2, 1, vec![5, 6]);
    dst.overwrite_from(&src);
    assert_eq!(dst.width, 2);
    assert_eq!(dst.height, 1);
    assert_eq!(dst.data, vec![5, 6]);
    let longer = Frame::new(3, 2, vec![1, 2, 3, 4, 5, 6]);
    dst.overwrite_from(&longer);
    assert_eq!(dst.width, 3);
    assert_eq!(dst.height, 2);
    assert_eq!(dst.data, vec![1, 2, 3, 4, 5, 6]);
    dst.overwrite_from(&Frame::empty());
    assert_eq!(dst.width, 0);
    assert_eq!(dst.height, 0);
    assert!(dst.data.is_empty());
}

#[test]
fn clone_copies_dimensions_and_bytes() {
    let f = Frame::new(2, 3, vec![1, 2, 3, 4, 5, 6]);
    let mut g = f.clone();
    assert_eq!(g.width, 2);
    assert_eq!(g.height, 3);
    assert_eq!(g.data, vec![1, 2, 3, 4, 5, 6]);
    g.data[0] = 9;
    assert_eq!(f.data[0], 1);
}
