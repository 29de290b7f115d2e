use tring::bridge::{
    deserialize_to_group_member_info, AudioTrack, IceServer, JDKConnection, JavaCallContext,
    JavaMediaStream, VideoSinkHandle, VideoTrack,
};
use tring::events::{DataMode, MediaStream};
use tring::queue::TaskQueue;
use tring::report::CallMediaType;
use tring::sink::{frame_buffer_size, pack_frame_dimensions, LastFramesVideoSink, VideoFrame};

#[test]
fn group_members_decode_from_81_byte_records() {
    let mut serialized: Vec<u8> = Vec::new();
    for record in 0..2u8 {
        for i in 0..81u8 {
            serialized.push(record * 100 + i);
        }
    }
    let members = deserialize_to_group_member_info(serialized.clone()).unwrap();
    assert_eq!(members.len(), 2);
    assert_eq!(members[0].user_id, serialized[0..16].to_vec());
    assert_eq!(members[0].member_id, serialized[16..81].to_vec());
    assert_eq!(members[1].user_id, serialized[81..97].to_vec());
    assert_eq!(members[1].member_id, serialized[97..162].to_vec());
}

#[test]
fn group_member_decoding_rejects_partial_records() {
    assert!(deserialize_to_group_member_info(vec![0; 80]).is_err());
    assert!(deserialize_to_group_member_info(vec![0; 82]).is_err());
    assert!(deserialize_to_group_member_info(Vec::new()).unwrap().is_empty());
}

#[test]
fn jdk_connection_round_trips_its_pointer() {
    let connection = JDKConnection::new(123456);
    assert_eq!(connection.to_jni(), 123456);
}

#[test]
fn call_context_keeps_its_parts() {
    let context = JavaCallContext::new(
        false,
        IceServer::new(String::from("iceuser"), String::from("icepwd"), Vec::new()),
        AudioTrack { id: 1 },
        VideoTrack { id: 2 },
        VideoSinkHandle { id: 3 },
    );
    assert!(!context.hide_ip);
    assert_eq!(context.ice_server.username, "iceuser");
    assert_eq!(context.ice_server.password, "icepwd");
    assert!(context.ice_server.urls.is_empty());
    assert_eq!(context.outgoing_audio_track, AudioTrack { id: 1 });
    assert_eq!(context.outgoing_video_track, VideoTrack { id: 2 });
    assert_eq!(context.incoming_video_sink, VideoSinkHandle { id: 3 });
}

#[test]
fn media_stream_wrapper_builds() {
    let _stream = JavaMediaStream::new(MediaStream { id: 9 });
}

#[test]
fn sink_keeps_only_the_last_frame_per_track() {
    let mut sink = LastFramesVideoSink::new();
    sink.on_video_frame(0, VideoFrame { width: 10, height: 20 });
    sink.on_video_frame(0, VideoFrame { width: 30, height: 40 });
    sink.on_video_frame(1, VideoFrame { width: 1, height: 2 });

    assert_eq!(sink.pop(0), Some(VideoFrame { width: 30, height: 40 }));
    assert_eq!(sink.pop(0), None);
    assert_eq!(sink.pop(1), Some(VideoFrame { width: 1, height: 2 }));

    sink.on_video_frame(2, VideoFrame { width: 5, height: 5 });
    sink.clear();
    assert_eq!(sink.pop(2), None);
}

#[test]
fn frame_buffer_sizes() {
    assert_eq!(frame_buffer_size(4, 2, 0), 16);
    assert_eq!(frame_buffer_size(4, 2, 1), 32);
}

#[test]
fn packed_dimensions_put_width_high() {
    assert_eq!(pack_frame_dimensions(2, 3), (2 << 16) + 3);
    assert_eq!(pack_frame_dimensions(0, 7), 7);
}

#[test]
fn task_queue_is_fifo_with_idempotent_stop() {
    let mut queue: TaskQueue<u32> = TaskQueue::new();
    assert!(!queue.is_stopped());
    queue.submit(1);
    queue.submit(2);
    assert_eq!(queue.take(), vec![1, 2]);
    assert!(queue.take().is_empty());

    queue.submit(3);
    queue.stop_and_join();
    assert!(queue.is_stopped());
    // Stopping drops queued tasks; later submissions are ignored.
    assert!(queue.take().is_empty());
    queue.submit(4);
    assert!(queue.take().is_empty());
    queue.stop_and_join();
    assert!(queue.is_stopped());
}

#[test]
fn bridge_code_conversions() {
    assert_eq!(DataMode::from_i32(0), DataMode::VeryLow);
    assert_eq!(DataMode::from_i32(1), DataMode::Low);
    assert_eq!(DataMode::from_i32(2), DataMode::Normal);
    assert_eq!(DataMode::from_i32(-1), DataMode::Normal);
    assert_eq!(CallMediaType::from_code(1), CallMediaType::Video);
    assert_eq!(CallMediaType::from_code(0), CallMediaType::Audio);
    assert_eq!(CallMediaType::from_code(9), CallMediaType::Audio);
}
