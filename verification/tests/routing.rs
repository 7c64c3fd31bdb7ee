use fuwane::binding::channel::STEREO_FRAME_BYTE_SIZE;
use fuwane::binding::wire::{decode_is_stereo, encode_track_id};
use fuwane::binding::{route_audio_frame, BindingError, SendError};
use fuwane::{Channel, SharedSpace};

fn space_with_track(channel_id: u64, track_id: u128) -> SharedSpace<(), u8> {
    let mut space: SharedSpace<(), u8> = SharedSpace::default();
    let mut channel: Channel<(), u8> = Channel::new(channel_id, ());
    let q = channel.acquire();
    channel.play(0, track_id, &q);
    space.channels.insert(channel_id, channel);
    space
}

#[test]
fn frame_is_routed_to_its_track() {
    let space = space_with_track(3, 77);
    let frame = vec![9u8; STEREO_FRAME_BYTE_SIZE];
    let (sender, routed) = route_audio_frame(&space, 3, &encode_track_id(77), &frame).ok().unwrap();
    assert_eq!(&routed[..], &frame[..]);
    let expected = space.channels[&3].track_sender(77).unwrap();
    assert!(sender.same_channel(&expected));
}

#[test]
fn routing_checks_track_id_first() {
    let space: SharedSpace<(), u8> = SharedSpace::default();
    let frame = vec![0u8; 3];
    assert!(matches!(
        route_audio_frame(&space, 3, &[1, 2, 3], &frame),
        Err(SendError::MalformedTrackId)
    ));
}

#[test]
fn routing_reports_unconnected_channel() {
    let space = space_with_track(3, 77);
    let frame = vec![0u8; STEREO_FRAME_BYTE_SIZE];
    match route_audio_frame(&space, 4, &encode_track_id(77), &frame) {
        Err(SendError::Binding(BindingError::ChannelNotConnected { channel_id, message })) => {
            assert_eq!(channel_id, 4);
            assert_eq!(message, "The channel with the ID 4 is not currently connected.");
        }
        _ => panic!("channel 4 is not connected"),
    }
}

#[test]
fn routing_reports_unknown_track() {
    let space = space_with_track(3, 77);
    let frame = vec![0u8; STEREO_FRAME_BYTE_SIZE];
    assert!(matches!(
        route_audio_frame(&space, 3, &encode_track_id(78), &frame),
        Err(SendError::UnknownTrack(78))
    ));
}

#[test]
fn routing_reports_malformed_frame() {
    let space = space_with_track(3, 77);
    let frame = vec![0u8; STEREO_FRAME_BYTE_SIZE - 1];
    assert!(matches!(
        route_audio_frame(&space, 3, &encode_track_id(77), &frame),
        Err(SendError::MalformedFrame)
    ));
}

#[test]
fn stereo_flag_is_positive_input() {
    assert!(decode_is_stereo(1));
    assert!(decode_is_stereo(i64::MAX));
    assert!(!decode_is_stereo(0));
    assert!(!decode_is_stereo(-1));
    assert!(!decode_is_stereo(i64::MIN));
}
