//! Jonect command protocol
//!
//! # Data transfer protocol
//! 1. Send JSON message size as i32 (big endian).
//! 2. Send JSON message (UTF-8).
//!
//! There is no specific message sending order because messages are processed as
//! they are received.

use vstd::prelude::*;

verus! {

/// Available audio stream formats.
#[derive(Debug, Clone, Copy, PartialEq, Eq, Structural)]
pub enum AudioFormat {
    // 16-bit little endian PCM samples.
    Pcm,
    // Opus encoded audio stream.
    Opus,
}

impl AudioFormat {
    /// String which is used in the JSON message.
    pub open spec fn json_value(self) -> Seq<char> {
        match self {
            AudioFormat::Pcm => "pcm-s16le"@,
            AudioFormat::Opus => "opus"@,
        }
    }

    /// Format whose string in the JSON message is `text`.
    pub open spec fn from_json_value(text: Seq<char>) -> Option<AudioFormat> {
        if text == AudioFormat::Pcm.json_value() {
            Some(AudioFormat::Pcm)
        } else if text == AudioFormat::Opus.json_value() {
            Some(AudioFormat::Opus)
        } else {
            None
        }
    }

    /// Convert to string which is used in the JSON message.
    pub fn as_json_value(&self) -> (value: &'static str)
        ensures
            value@ == self.json_value(),
    {
        match self {
            Self::Pcm => "pcm-s16le",
            Self::Opus => "opus",
        }
    }
}

/// Audio stream format is not one of `AudioFormat`.
#[derive(Debug, Clone, Copy, PartialEq, Eq, Structural)]
pub struct UnsupportedFormat;

/// Server informs the client about available audio stream.
#[derive(Debug)]
pub struct AudioStreamInfo {
    /// Possible values:
    /// * pcm-s16le - 16-bit little endian PCM samples.
    /// * opus - Opus encoded audio stream.
    pub format: String,
    pub channels: u8,
    /// Sample rate.
    ///
    /// Possible values:
    /// * 44100
    /// * 48000
    pub rate: u32,
    /// Server TCP port for the audio stream.
    pub port: u16,
}

impl AudioStreamInfo {
    pub fn new(format: AudioFormat, channels: u8, rate: u32, port: u16) -> (info: Self)
        ensures
            info.format@ == format.json_value(),
            info.channels == channels,
            info.rate == rate,
            info.port == port,
    {
        Self { format: format.as_json_value().to_owned(), channels, rate, port }
    }

    /// Format of the audio stream.
    pub fn try_parse_audio_format(&self) -> (format: Result<AudioFormat, UnsupportedFormat>)
        ensures
            format == match AudioFormat::from_json_value(self.format@) {
                Some(format) => Ok::<AudioFormat, UnsupportedFormat>(format),
                None => Err(UnsupportedFormat),
            },
    {
        if self.format == AudioFormat::Pcm.as_json_value().to_owned() {
            Ok(AudioFormat::Pcm)
        } else if self.format == AudioFormat::Opus.as_json_value().to_owned() {
            Ok(AudioFormat::Opus)
        } else {
            Err(UnsupportedFormat)
        }
    }
}

/// The format which a message tells is the format which was put in it.
pub proof fn law_format_is_read_as_written(format: AudioFormat)
    ensures
        AudioFormat::from_json_value(format.json_value()) == Some(format),
{
    reveal_strlit("pcm-s16le");
    reveal_strlit("opus");
    assert("pcm-s16le"@.len() != "opus"@.len());
}

/// Only the strings of the two formats stand for a format.
pub proof fn law_other_formats_are_unknown(text: Seq<char>)
    ensures
        AudioFormat::from_json_value(text) == Some(AudioFormat::Pcm) <==> text == "pcm-s16le"@,
        AudioFormat::from_json_value(text) == Some(AudioFormat::Opus) <==> text == "opus"@,
        AudioFormat::from_json_value(text) is None <==> text != "pcm-s16le"@ && text != "opus"@,
{
    law_format_is_read_as_written(AudioFormat::Pcm);
    law_format_is_read_as_written(AudioFormat::Opus);
}

#[derive(Debug, Clone, Copy, PartialEq, Eq, Structural)]
pub struct NativeSampleRate {
    pub native_sample_rate: i32,
}

impl NativeSampleRate {
    pub fn new(native_sample_rate: i32) -> (rate: Self)
        ensures
            rate.native_sample_rate == native_sample_rate,
    {
        Self { native_sample_rate }
    }
}

/// Message from client to server.
#[derive(Debug)]
pub enum DeviceMessage {
    Ping,
    PingResponse,
    AudioStreamPlayError(String),
    PlayAudioStream(AudioStreamInfo),
    /// Request native sample rate of device which will receive this message.
    GetNativeSampleRate,
    /// Native sample rate of device which send this message.
    NativeSampleRate(NativeSampleRate),
}

} // verus!
