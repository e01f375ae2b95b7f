//! PulseAudio audio code

pub mod stream;

use vstd::prelude::*;

use super::AudioEvent;
use crate::config::LogicConfig;

verus! {

/// PulseAudio code events. `S` is the handle of a data connection and `P` is an
/// event of the PulseAudio context or its streams.
#[derive(Debug)]
pub enum AudioServerEvent<S, P> {
    AudioEvent(AudioEvent<S>),
    RequestQuit,
    PAEvent(P),
    PAQuitReady,
}

/// What the audio server asks for.
pub enum AudioServerAction<S, P> {
    Nothing,
    RequestQuit,
    StartRecording {
        source_name: Option<String>,
        send_handle: S,
        encode_opus: bool,
        sample_rate: u32,
    },
    StopRecording,
    HandlePAEvent(P),
    /// Quit the main loop and stop receiving events.
    QuitMainLoop,
}

/// Audio server which handles connection to the PulseAudio.
pub struct AudioServer {
    pub pa_source_name: Option<String>,
    pub encode_opus: bool,
}

impl AudioServer {
    pub fn new(config: &LogicConfig) -> (server: Self)
        ensures
            server.pa_source_name == config.pa_source_name,
            server.encode_opus == config.encode_opus,
    {
        Self {
            pa_source_name: match &config.pa_source_name {
                Some(name) => Some(name.clone()),
                None => None,
            },
            encode_opus: config.encode_opus,
        }
    }

    /// Handle one event.
    pub fn handle_event<S, P>(&self, event: AudioServerEvent<S, P>) -> (action: AudioServerAction<
        S,
        P,
    >)
        ensures
            action == match event {
                AudioServerEvent::RequestQuit => AudioServerAction::RequestQuit,
                AudioServerEvent::AudioEvent(
                    AudioEvent::StartRecording { send_handle, sample_rate },
                ) => AudioServerAction::StartRecording {
                    source_name: self.pa_source_name,
                    send_handle,
                    encode_opus: self.encode_opus,
                    sample_rate,
                },
                AudioServerEvent::AudioEvent(
                    AudioEvent::StopRecording,
                ) => AudioServerAction::StopRecording,
                // Only recording is supported.
                AudioServerEvent::AudioEvent(_) => AudioServerAction::Nothing,
                AudioServerEvent::PAEvent(event) => AudioServerAction::HandlePAEvent(event),
                AudioServerEvent::PAQuitReady => AudioServerAction::QuitMainLoop,
            },
    {
        match event {
            AudioServerEvent::RequestQuit => AudioServerAction::RequestQuit,
            AudioServerEvent::AudioEvent(event) => match event {
                AudioEvent::StartRecording { send_handle, sample_rate } => {
                    AudioServerAction::StartRecording {
                        source_name: match &self.pa_source_name {
                            Some(name) => Some(name.clone()),
                            None => None,
                        },
                        send_handle,
                        encode_opus: self.encode_opus,
                        sample_rate,
                    }
                },
                AudioEvent::StopRecording => AudioServerAction::StopRecording,
                AudioEvent::Message(_)
                | AudioEvent::PlayAudio { .. }
                | AudioEvent::StopPlayingAudio => AudioServerAction::Nothing,
            },
            AudioServerEvent::PAEvent(event) => AudioServerAction::HandlePAEvent(event),
            AudioServerEvent::PAQuitReady => AudioServerAction::QuitMainLoop,
        }
    }
}

} // verus!
