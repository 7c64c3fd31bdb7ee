use std::sync::Arc;
use std::sync::atomic::Ordering;

use fuwane::binding::channel::{Id, STEREO_FRAME_BYTE_SIZE};
use fuwane::binding::communication::ContextManager;
use fuwane::binding::reader::{copy_frame, read_frame, FrameRead, WasmAudioReader};
use fuwane::binding::wire::{
    decode_channel_id, decode_track_id, encode_track_id, frame_from_bytes, TRACK_ID_BYTE_SIZE,
};
use fuwane::binding::{get_channel, get_mut_channel, make_cnf_text, BindingError};
use fuwane::{Channel, SharedSpace};

fn space_with(ids: &[u64]) -> SharedSpace<(), u8> {
    let mut space: SharedSpace<(), u8> = SharedSpace::default();
    for id in ids {
        space.channels.insert(*id, Channel::new(*id, ()));
    }
    space
}

#[test]
fn id_from_small_value_keeps_value() {
    let id = Id::from(5u64);
    assert_eq!(id.u64, 5);
    assert_eq!(id.i64, 5);
}

#[test]
fn id_from_large_values_wraps_to_negative() {
    assert_eq!(Id::from(u64::MAX).i64, -1);
    assert_eq!(Id::from(1u64 << 63).i64, i64::MIN);
    assert_eq!(Id::from((1u64 << 63) - 1).i64, i64::MAX);
}

#[test]
fn channel_id_round_trips_through_i64() {
    for id in [0u64, 1, 42, 1 << 63, u64::MAX, 1_234_567_890_123_456_789] {
        assert_eq!(decode_channel_id(Id::from(id).i64), id);
    }
    assert_eq!(decode_channel_id(-1), u64::MAX);
    assert_eq!(decode_channel_id(i64::MIN), 1u64 << 63);
}

#[test]
fn context_manager_keys() {
    assert_eq!(ContextManager::from(42u64).key().as_str(), "42c");
    assert_eq!(ContextManager::from(0u64).key().as_str(), "0c");
    assert_eq!(ContextManager::from(String::from("abc")).key().as_str(), "abcc");
    assert_eq!(
        ContextManager::from(u64::MAX.to_string()).key(),
        ContextManager::from(u64::MAX).key()
    );
}

#[test]
fn new_channel_is_empty() {
    let channel: Channel<(), u8> = Channel::new(1234, ());
    assert_eq!(channel.id.u64, 1234);
    assert_eq!(channel.id.i64, 1234);
    let core = channel.get_core();
    assert_eq!(core.ctx.key().as_str(), "1234");
    assert!(core.tracks.is_empty());
}

#[test]
fn acquire_opens_new_queues_while_all_are_in_use() {
    let mut channel: Channel<(), u8> = Channel::new(1, ());
    let a = channel.acquire();
    let b = channel.acquire();
    assert!(!Arc::ptr_eq(&a.1, &b.1));
    assert!(!a.1.load(Ordering::SeqCst));
    assert!(!b.1.load(Ordering::SeqCst));
}

#[test]
fn acquire_reuses_released_queue() {
    let mut channel: Channel<(), u8> = Channel::new(1, ());
    let a = channel.acquire();
    let b = channel.acquire();
    channel.play(7, 100, &a);
    channel.play(8, 200, &b);
    // Dropping the first track releases its queue.
    let removed = channel.get_mut_core().tracks.remove(&100);
    assert!(removed.is_some());
    drop(removed);
    assert!(a.1.load(Ordering::SeqCst));
    let c = channel.acquire();
    assert!(Arc::ptr_eq(&c.1, &a.1));
    assert!(Arc::ptr_eq(&c.0.1, &a.0.1));
    assert!(!c.1.load(Ordering::SeqCst));
    // Nothing is free now: the next queue is new.
    let d = channel.acquire();
    assert!(!Arc::ptr_eq(&d.1, &a.1));
    assert!(!Arc::ptr_eq(&d.1, &b.1));
}

#[test]
fn play_records_track() {
    let mut channel: Channel<(), u8> = Channel::new(77, ());
    let q = channel.acquire();
    assert_eq!(channel.play(5, 999, &q), 999);
    let track = channel.get_core().tracks.get(&999).unwrap();
    assert_eq!(track.channel_id, 77);
    assert_eq!(track.handle, 5);
    assert!(track.sender.same_channel(&q.0.0));
    assert!(channel.track_sender(999).unwrap().same_channel(&q.0.0));
    assert!(channel.track_sender(1000).is_none());
}

#[test]
fn replacing_a_track_releases_its_queue() {
    let mut channel: Channel<(), u8> = Channel::new(77, ());
    let q = channel.acquire();
    let r = channel.acquire();
    channel.play(1, 3, &q);
    channel.play(2, 3, &r);
    assert!(q.1.load(Ordering::SeqCst));
    assert!(!r.1.load(Ordering::SeqCst));
    assert_eq!(channel.get_core().tracks.len(), 1);
}

#[test]
fn cnf_text_names_channel() {
    assert_eq!(make_cnf_text(9), "The channel with the ID 9 is not currently connected.");
    assert_eq!(
        make_cnf_text(18446744073709551615),
        "The channel with the ID 18446744073709551615 is not currently connected."
    );
}

#[test]
fn get_channel_finds_connected_channels() {
    let space = space_with(&[1, 2]);
    assert_eq!(get_channel(&space, 2).ok().unwrap().id.u64, 2);
    match get_channel(&space, 3) {
        Err(BindingError::ChannelNotConnected { channel_id, message }) => {
            assert_eq!(channel_id, 3);
            assert_eq!(message, "The channel with the ID 3 is not currently connected.");
        }
        Ok(_) => panic!("channel 3 is not connected"),
    }
    assert_eq!(space.channels().len(), 2);
}

#[test]
fn get_mut_channel_changes_in_place() {
    let mut space = space_with(&[4]);
    {
        let channel = get_mut_channel(&mut space, 4).ok().unwrap();
        let q = channel.acquire();
        channel.play(1, 11, &q);
    }
    assert!(space.channels[&4].get_core().tracks.contains_key(&11));
    assert!(get_mut_channel(&mut space, 5).is_err());
    assert_eq!(space.channels.len(), 1);
}

#[test]
fn default_shared_space_is_empty() {
    let space: SharedSpace<(), u8> = SharedSpace::default();
    assert!(space.channels().is_empty());
}

#[test]
fn track_id_is_big_endian() {
    let id: u128 = 0x0102_0304_0506_0708_090a_0b0c_0d0e_0f10;
    let bytes = encode_track_id(id);
    assert_eq!(bytes, [1, 2, 3, 4, 5, 6, 7, 8, 9, 10, 11, 12, 13, 14, 15, 16]);
    assert_eq!(encode_track_id(1)[15], 1);
    assert_eq!(encode_track_id(1)[0], 0);
    assert_eq!(TRACK_ID_BYTE_SIZE, 16);
}

#[test]
fn track_id_round_trips() {
    for id in [0u128, 1, u128::MAX, 0xdead_beef_u128 << 64, 12345678901234567890123456789] {
        assert_eq!(decode_track_id(&encode_track_id(id)), Some(id));
    }
}

#[test]
fn track_id_needs_sixteen_bytes() {
    assert_eq!(decode_track_id(&[0u8; 15]), None);
    assert_eq!(decode_track_id(&[0u8; 17]), None);
    assert_eq!(decode_track_id(&[]), None);
    let mut bytes = [0u8; 16];
    bytes[0] = 0x80;
    assert_eq!(decode_track_id(&bytes), Some(1u128 << 127));
}

#[test]
fn frame_needs_exact_length() {
    assert!(frame_from_bytes(&vec![0u8; STEREO_FRAME_BYTE_SIZE - 1]).is_none());
    assert!(frame_from_bytes(&vec![0u8; STEREO_FRAME_BYTE_SIZE + 1]).is_none());
    let bytes: Vec<u8> = (0..STEREO_FRAME_BYTE_SIZE).map(|i| (i % 251) as u8).collect();
    let frame = frame_from_bytes(&bytes).unwrap();
    assert_eq!(&frame[..], &bytes[..]);
    assert_eq!(STEREO_FRAME_BYTE_SIZE, 7680);
}

#[test]
fn copy_frame_fills_front_of_buffer() {
    let mut frame = [0u8; STEREO_FRAME_BYTE_SIZE];
    frame[0] = 9;
    frame[STEREO_FRAME_BYTE_SIZE - 1] = 8;
    let mut buf = vec![1u8; STEREO_FRAME_BYTE_SIZE + 10];
    match copy_frame(&frame, &mut buf) {
        FrameRead::Filled(n) => assert_eq!(n, STEREO_FRAME_BYTE_SIZE),
        _ => panic!("the frame fits"),
    }
    assert_eq!(&buf[..STEREO_FRAME_BYTE_SIZE], &frame[..]);
    assert!(buf[STEREO_FRAME_BYTE_SIZE..].iter().all(|b| *b == 1));
}

#[test]
fn copy_frame_refuses_small_buffer() {
    let frame = [3u8; STEREO_FRAME_BYTE_SIZE];
    let mut buf = vec![1u8; STEREO_FRAME_BYTE_SIZE - 1];
    assert!(matches!(copy_frame(&frame, &mut buf), FrameRead::FrameTooLarge));
    assert!(buf.iter().all(|b| *b == 1));
}

#[test]
fn reader_reads_sent_frames_until_closed() {
    let (tx, rx) = tokio::sync::mpsc::channel(4);
    let reader = WasmAudioReader::new(31, Arc::new(tokio::sync::RwLock::new(rx)));
    assert_eq!(*reader.channel_id(), 31);
    let receive = || reader.receiver.blocking_write().blocking_recv();
    tx.blocking_send([5u8; STEREO_FRAME_BYTE_SIZE]).unwrap();
    let mut buf = vec![0u8; STEREO_FRAME_BYTE_SIZE + 4];
    assert!(matches!(read_frame(receive(), &mut buf), FrameRead::Filled(STEREO_FRAME_BYTE_SIZE)));
    assert!(buf[..STEREO_FRAME_BYTE_SIZE].iter().all(|b| *b == 5));
    assert!(buf[STEREO_FRAME_BYTE_SIZE..].iter().all(|b| *b == 0));
    tx.blocking_send([6u8; STEREO_FRAME_BYTE_SIZE]).unwrap();
    let mut small = vec![0u8; 10];
    assert!(matches!(read_frame(receive(), &mut small), FrameRead::FrameTooLarge));
    assert!(small.iter().all(|b| *b == 0));
    drop(tx);
    let mut after = vec![7u8; 3];
    assert!(matches!(read_frame(receive(), &mut after), FrameRead::Closed));
    assert_eq!(after, vec![7u8; 3]);
}
