//! Video frame bookkeeping for the host application: the per-track
//! last-frame store that the rendering side pops from, and the arithmetic
//! of frame buffers.

use std::collections::HashMap;

use vstd::prelude::*;

verus! {

broadcast use vstd::std_specs::hash::group_hash_axioms;

/// One decoded video frame, described by its dimensions; the pixel data
/// itself stays with the transport layer.
#[derive(Clone, Copy, PartialEq, Eq, Structural, Debug)]
pub struct VideoFrame {
    pub width: u32,
    pub height: u32,
}

/// Keeps the most recent frame of each track, so a renderer that polls can
/// always fetch the latest picture and earlier frames are overwritten.
pub struct LastFramesVideoSink {
    last_frame_by_track_id: HashMap<u32, VideoFrame>,
}

impl View for LastFramesVideoSink {
    type V = Map<u32, VideoFrame>;

    closed spec fn view(&self) -> Map<u32, VideoFrame> {
        self.last_frame_by_track_id@
    }
}

impl LastFramesVideoSink {
    pub fn new() -> (r: LastFramesVideoSink)
        ensures
            r@ == Map::<u32, VideoFrame>::empty(),
    {
        LastFramesVideoSink { last_frame_by_track_id: HashMap::new() }
    }

    /// Records the newest frame of a track, replacing the previous one.
    pub fn on_video_frame(&mut self, track_id: u32, frame: VideoFrame)
        ensures
            final(self)@ == old(self)@.insert(track_id, frame),
    {
        self.last_frame_by_track_id.insert(track_id, frame);
    }

    /// Removes and returns the latest frame of a track, if one arrived
    /// since the last call.
    pub fn pop(&mut self, track_id: u32) -> (r: Option<VideoFrame>)
        ensures
            final(self)@ == old(self)@.remove(track_id),
            r matches Some(frame) ==> old(self)@.contains_key(track_id) && old(
                self,
            )@[track_id] == frame,
            r is None ==> !old(self)@.contains_key(track_id),
    {
        self.last_frame_by_track_id.remove(&track_id)
    }

    /// Discards all retained frames.
    pub fn clear(&mut self)
        ensures
            final(self)@ == Map::<u32, VideoFrame>::empty(),
    {
        self.last_frame_by_track_id.clear();
    }
}

/// Size in bytes of a raw frame buffer as the bridge sizes it: two bytes
/// per pixel, doubled for the full-color pixel format.
pub fn frame_buffer_size(width: u32, height: u32, pixel_format: i32) -> (r: u32)
    requires
        width * height <= 0x3FFF_FFFF,
    ensures
        pixel_format == 1 ==> r == 4 * (width * height),
        pixel_format != 1 ==> r == 2 * (width * height),
{
    let base = (width * height) * 2;
    if pixel_format == 1 {
        base * 2
    } else {
        base
    }
}

/// Packs a frame's dimensions into one value for the bridge: the width in
/// the high half, the height in the low half.
pub fn pack_frame_dimensions(width: u32, height: u32) -> (r: i64)
    ensures
        r == ((width << 16) as i64) + (height as i64),
{
    let high: i64 = (width << 16) as i64;
    high + (height as i64)
}

} // verus!
