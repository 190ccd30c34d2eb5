//! The playback pipeline: one output sink at a time, fed with gain-applied
//! audio in the order in which the commands arrive.
//!
//! The pipeline decides; the thread that owns the audio sink carries the
//! orders out and reports whether a sink could be realised.

use vstd::prelude::*;
use crate::frame::StreamFormat;
use crate::software_gain::{
    after_samples, after_set_mute, after_set_volume, processed_sample, ramp_length,
    SoftwareGainState,
};
use crate::streaming::DecodedBuffer;

verus! {

/// A command to the pipeline.
#[derive(Debug, Clone, PartialEq, Eq)]
pub enum PlayerCommand {
    /// Realise a sink for this format.
    CreatePlayer(StreamFormat),
    /// Play this buffer.
    Enqueue(DecodedBuffer),
    /// Discard what is buffered and not yet played.
    Clear,
    /// Set the software volume, from 0 to 100.
    SetVolume(u8),
    /// Set the software mute flag.
    SetMute(bool),
    /// Release the sink and end.
    Shutdown,
}

/// Where the pipeline stands.
#[derive(Clone, Copy, Debug, PartialEq, Eq, Structural)]
pub enum SinkState {
    /// No sink is realised; audio is dropped.
    NoSink,
    /// A sink for this format is realised.
    HasSink(StreamFormat),
    /// The pipeline has ended.
    Stopped,
}

/// What the owner of the sink is to do.
#[derive(Debug, Clone, PartialEq, Eq)]
pub enum SinkOrder {
    /// Nothing: the command was dropped.
    Nothing,
    /// Release the existing sink, if there is one, flushing what it has
    /// queued; then realise a sink for this format and report the outcome.
    Realise { format: StreamFormat, release_existing: bool },
    /// Hand this buffer, gain already applied, to the sink.
    Play(DecodedBuffer),
    /// Discard what the sink has buffered.
    Flush,
    /// Flush and release the sink, if there is one, and end.
    Exit { release_existing: bool },
}

/// The pipeline: the state of its sink and the gain applied to what it plays.
#[derive(Debug, Clone, PartialEq, Eq)]
pub struct PlaybackPipeline {
    pub state: SinkState,
    pub gain: SoftwareGainState,
}

impl PlaybackPipeline {
    /// The states that the constructor and the methods produce.
    pub open spec fn wf(&self) -> bool {
        self.gain.wf()
    }

    /// A pipeline without a sink, at unity gain. Until a stream starts the
    /// sample rate is unknown and gain changes take effect at once.
    pub fn new() -> (p: Self)
        ensures
            p.wf(),
            p.state == SinkState::NoSink,
            p.gain.current_gain == 100_000_000,
            p.gain.ramp_duration_samples == 0,
            p.gain.ramp_samples_remaining == 0,
            p.gain.volume == 100,
            !p.gain.is_muted,
    {
        PlaybackPipeline { state: SinkState::NoSink, gain: SoftwareGainState::new(0) }
    }

    /// Handles one command.
    ///
    /// `CreatePlayer` orders the release of any existing sink and the
    /// realisation of a new one; until the outcome is reported there is no
    /// sink. `Enqueue` applies the gain and orders the buffer played, or drops
    /// it without a sink. `Clear` orders a flush where there is a sink.
    /// `SetVolume` and `SetMute` change the gain state, with or without a
    /// sink. `Shutdown` orders the release of the sink and ends the pipeline,
    /// from any state. An ended pipeline drops every command.
    pub fn handle(&mut self, command: PlayerCommand) -> (order: SinkOrder)
        requires
            old(self).wf(),
        ensures
            final(self).wf(),
            old(self).state == SinkState::Stopped ==> order is Nothing && *final(self) == *old(self),
            old(self).state != SinkState::Stopped ==> match command {
                PlayerCommand::CreatePlayer(format) => {
                    &&& order == (SinkOrder::Realise {
                        format,
                        release_existing: old(self).state is HasSink,
                    })
                    &&& final(self).state == SinkState::NoSink
                    &&& final(self).gain == (SoftwareGainState {
                        current_gain: if old(self).gain.ramp_samples_remaining > 0 {
                            old(self).gain.target_gain
                        } else {
                            old(self).gain.current_gain
                        },
                        ramp_samples_remaining: 0,
                        ramp_duration_samples: ramp_length(format.sample_rate) as u32,
                        ..old(self).gain
                    })
                },
                PlayerCommand::Enqueue(buffer) => match old(self).state {
                    SinkState::HasSink(_) => {
                        &&& order matches SinkOrder::Play(played)
                        &&& played.timestamp == buffer.timestamp
                        &&& played.format == buffer.format
                        &&& played.samples@.len() == buffer.samples@.len()
                        &&& forall|k: int|
                            0 <= k < buffer.samples@.len() ==> #[trigger] played.samples@[k]
                                == processed_sample(old(self).gain, buffer.samples@[k], k)
                        &&& final(self).state == old(self).state
                        &&& final(self).gain == after_samples(
                            old(self).gain,
                            buffer.samples@.len() as int,
                        )
                    },
                    _ => order is Nothing && *final(self) == *old(self),
                },
                PlayerCommand::Clear => {
                    &&& *final(self) == *old(self)
                    &&& old(self).state is HasSink ==> order is Flush
                    &&& !(old(self).state is HasSink) ==> order is Nothing
                },
                PlayerCommand::SetVolume(volume) => {
                    &&& order is Nothing
                    &&& final(self).state == old(self).state
                    &&& final(self).gain == after_set_volume(old(self).gain, volume)
                },
                PlayerCommand::SetMute(muted) => {
                    &&& order is Nothing
                    &&& final(self).state == old(self).state
                    &&& final(self).gain == after_set_mute(old(self).gain, muted)
                },
                PlayerCommand::Shutdown => {
                    &&& order == (SinkOrder::Exit { release_existing: old(self).state is HasSink })
                    &&& final(self).state == SinkState::Stopped
                    &&& final(self).gain == old(self).gain
                },
            },
    {
        let has_sink = match self.state {
            SinkState::HasSink(_) => true,
            _ => false,
        };
        match self.state {
            SinkState::Stopped => {
                return SinkOrder::Nothing;
            },
            _ => {},
        }
        match command {
            PlayerCommand::CreatePlayer(format) => {
                self.state = SinkState::NoSink;
                self.gain.set_sample_rate(format.sample_rate);
                SinkOrder::Realise { format, release_existing: has_sink }
            },
            PlayerCommand::Enqueue(buffer) => {
                if has_sink {
                    let mut samples = buffer.samples;
                    self.gain.apply_i24(&mut samples);
                    SinkOrder::Play(
                        DecodedBuffer { timestamp: buffer.timestamp, samples, format: buffer.format },
                    )
                } else {
                    SinkOrder::Nothing
                }
            },
            PlayerCommand::Clear => {
                if has_sink {
                    SinkOrder::Flush
                } else {
                    SinkOrder::Nothing
                }
            },
            PlayerCommand::SetVolume(volume) => {
                self.gain.set_volume(volume);
                SinkOrder::Nothing
            },
            PlayerCommand::SetMute(muted) => {
                self.gain.set_mute(muted);
                SinkOrder::Nothing
            },
            PlayerCommand::Shutdown => {
                self.state = SinkState::Stopped;
                SinkOrder::Exit { release_existing: has_sink }
            },
        }
    }

    /// Takes the outcome of realising a sink for `format`. Success gives the
    /// pipeline its sink; failure leaves it without one, so that audio is
    /// dropped until a later `CreatePlayer` succeeds. An ended pipeline stays
    /// ended.
    pub fn sink_realised(&mut self, format: StreamFormat, realised: bool)
        requires
            old(self).wf(),
        ensures
            final(self).wf(),
            final(self).gain == old(self).gain,
            final(self).state == (if old(self).state == SinkState::Stopped {
                SinkState::Stopped
            } else if realised {
                SinkState::HasSink(format)
            } else {
                SinkState::NoSink
            }),
    {
        match self.state {
            SinkState::Stopped => {},
            _ => {
                if realised {
                    self.state = SinkState::HasSink(format);
                } else {
                    self.state = SinkState::NoSink;
                }
            },
        }
    }
}

} // verus!
