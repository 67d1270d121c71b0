use dmx_adapter::universe::{BoundsError, Universe, UNIVERSE_CHANNELS};

#[test]
fn starts_all_zero() {
    let u = Universe::new();
    let frame = u.snapshot();
    assert_eq!(frame.len(), 512);
    assert!(frame.iter().all(|&b| b == 0));
}

#[test]
fn set_writes_window_and_nothing_else() {
    let mut u = Universe::new();
    let r = u.set(5, &vec![10, 20, 30]);
    assert!(r.is_ok());
    let frame = u.snapshot();
    assert_eq!(frame[5], 10);
    assert_eq!(frame[6], 20);
    assert_eq!(frame[7], 30);
    for (i, &b) in frame.iter().enumerate() {
        if !(5..8).contains(&i) {
            assert_eq!(b, 0);
        }
    }
}

#[test]
fn set_overwrites_last_write_wins() {
    let mut u = Universe::new();
    u.set(100, &vec![1, 2, 3]).unwrap();
    u.set(101, &vec![9]).unwrap();
    let frame = u.snapshot();
    assert_eq!(frame[100], 1);
    assert_eq!(frame[101], 9);
    assert_eq!(frame[102], 3);
}

#[test]
fn last_channel_single_byte_succeeds() {
    let mut u = Universe::new();
    let r = u.set(511, &vec![7]);
    assert!(r.is_ok());
    assert_eq!(u.get(511), 7);
}

#[test]
fn last_channel_two_bytes_is_rejected() {
    let mut u = Universe::new();
    u.set(511, &vec![7]).unwrap();
    let r = u.set(511, &vec![1, 2]);
    assert_eq!(r, Err(BoundsError { offset: 511, len: 2 }));
    // The rejected write changed nothing.
    assert_eq!(u.get(511), 7);
    assert_eq!(u.get(510), 0);
}

#[test]
fn offset_past_the_end_is_rejected() {
    let mut u = Universe::new();
    let r = u.set(513, &vec![]);
    assert_eq!(r, Err(BoundsError { offset: 513, len: 0 }));
    let r = u.set(usize::MAX, &vec![1]);
    assert_eq!(r, Err(BoundsError { offset: usize::MAX, len: 1 }));
}

#[test]
fn empty_write_at_the_end_is_accepted() {
    let mut u = Universe::new();
    let r = u.set(512, &vec![]);
    assert!(r.is_ok());
    assert!(u.snapshot().iter().all(|&b| b == 0));
}

#[test]
fn whole_universe_write() {
    let mut u = Universe::new();
    let all: Vec<u8> = (0..512).map(|i| (i % 256) as u8).collect();
    u.set(0, &all).unwrap();
    assert_eq!(u.snapshot(), all);
}

#[test]
fn set_channels_writes_each_pair() {
    let mut u = Universe::new();
    u.set(0, &vec![9; 512]).unwrap();
    // A color write: three non-consecutive channels in one call.
    u.set_channels(&vec![(10, 255), (40, 128), (200, 1)]);
    assert_eq!(u.get(10), 255);
    assert_eq!(u.get(40), 128);
    assert_eq!(u.get(200), 1);
    assert_eq!(u.get(11), 9);
    assert_eq!(u.get(39), 9);
}

#[test]
fn set_channels_later_pair_wins() {
    let mut u = Universe::new();
    u.set_channels(&vec![(7, 1), (7, 2)]);
    assert_eq!(u.get(7), 2);
}

#[test]
fn set_channels_empty_changes_nothing() {
    let mut u = Universe::new();
    u.set(3, &vec![42]).unwrap();
    u.set_channels(&vec![]);
    assert_eq!(u.get(3), 42);
    assert_eq!(u.snapshot().len(), 512);
}

#[test]
fn channel_round_trip() {
    // Channel 42 (one-indexed) lives at buffer index 41.
    let channel: usize = 42;
    let mut u = Universe::new();
    u.set(channel - 1, &vec![200]).unwrap();
    assert_eq!(u.get(channel - 1), 200);
    assert_eq!(u.snapshot()[channel - 1], 200);
}

#[test]
fn universe_size_constant() {
    assert_eq!(UNIVERSE_CHANNELS, 512);
}
