//! Playing by writing to the stream.

use vstd::prelude::*;

use super::{
    cpp_bridge::{check_underruns, UnderrunReport, STATUS_ERROR},
    AUDIO_CHANNEL_COUNT,
};

verus! {

pub struct OboeCppNormalMode {
    pub previous_underrun_count: Option<i32>,
}

impl OboeCppNormalMode {
    pub fn new() -> (mode: Self)
        ensures
            mode.previous_underrun_count == Some(0i32),
    {
        Self { previous_underrun_count: Some(0) }
    }

    /// How many frames there are to write.
    pub fn frame_count(data: &[i16]) -> (frame_count: i32)
        requires
            data@.len() / (AUDIO_CHANNEL_COUNT as nat) <= i32::MAX,
        ensures
            frame_count == data@.len() / (AUDIO_CHANNEL_COUNT as nat),
    {
        (data.len() / AUDIO_CHANNEL_COUNT) as i32
    }

    /// Handle what the stream returned when `remaining_frames_count` frames were
    /// offered: `STATUS_ERROR` or the count of written frames. Returns how many
    /// frames remain. Writing is ready when none do.
    pub fn write_data(remaining_frames_count: i32, frame_count: i32) -> (remaining: Result<i32, ()>)
        requires
            STATUS_ERROR <= frame_count <= remaining_frames_count,
        ensures
            remaining is Err <==> frame_count == STATUS_ERROR || frame_count == 0,
            remaining matches Ok(remaining) ==> {
                &&& remaining == remaining_frames_count - frame_count
                &&& 0 <= remaining < remaining_frames_count
            },
    {
        if frame_count == STATUS_ERROR {
            return Err(());
        }
        if frame_count == 0 {
            return Err(());
        }
        Ok(remaining_frames_count - frame_count)
    }

    pub fn check_underruns(&mut self, underrun_count: i32) -> (report: UnderrunReport)
        ensures
            match old(self).previous_underrun_count {
                None => {
                    &&& report == UnderrunReport::Nothing
                    &&& final(self).previous_underrun_count is None
                },
                Some(previous_count) => if underrun_count == STATUS_ERROR {
                    &&& report == UnderrunReport::CheckFailed
                    &&& final(self).previous_underrun_count is None
                } else if underrun_count > previous_count {
                    &&& report == UnderrunReport::NewUnderruns(underrun_count)
                    &&& final(self).previous_underrun_count == Some(underrun_count)
                } else {
                    &&& report == UnderrunReport::Nothing
                    &&& final(self).previous_underrun_count == Some(previous_count)
                },
            },
    {
        check_underruns(&mut self.previous_underrun_count, underrun_count)
    }
}

} // verus!
