//! Steady-state dispatch of a connected session: what each inbound message,
//! timer tick, user command and binary frame does to the stream state, and
//! which order it gives to the transport, the playback pipeline, the clock
//! estimator and the now-playing projection.

use vstd::prelude::*;
use crate::frame::{parse_audio_frame, parsed_frame, AudioChunk, Codec, FrameError, StreamFormat};
use crate::handshake::{initial_player_state, PlayerStateReport};
use crate::session::{shown_status, update_status, ClientRegistry, ConnectionStatus, SendspinClientHandle};

verus! {

/// Byte order of the PCM samples of one stream.
#[derive(Clone, Copy, Debug, PartialEq, Eq, Structural)]
pub enum PcmEndian {
    Little,
    Big,
}

/// Player section of a stream-start message.
#[derive(Debug, Clone, PartialEq, Eq)]
pub struct StreamPlayerConfig {
    pub codec: String,
    pub sample_rate: u32,
    pub channels: u8,
    pub bit_depth: u8,
}

/// Position within the current track, in milliseconds.
#[derive(Clone, Copy, Debug, PartialEq, Eq, Structural)]
pub struct TrackProgress {
    pub track_progress: i64,
    pub track_duration: i64,
}

/// Track metadata of a server state update.
#[derive(Debug, Clone, PartialEq, Eq)]
pub struct TrackMetadata {
    pub title: Option<String>,
    pub artist: Option<String>,
    pub album: Option<String>,
    pub artwork_url: Option<String>,
    pub progress: Option<TrackProgress>,
}

/// A text frame after parsing, reduced to what the session acts on.
#[derive(Debug, Clone, PartialEq, Eq)]
pub enum ServerMessage {
    StreamStart(Option<StreamPlayerConfig>),
    ServerTime { client_transmitted: i64, server_received: i64, server_transmitted: i64 },
    ServerState(Option<TrackMetadata>),
    StreamEnd,
    StreamClear,
    /// Any other message, or text that is no message.
    Other,
}

/// What the multiplexing loop woke up for.
#[derive(Debug, Clone, PartialEq, Eq)]
pub enum SessionEvent {
    /// The shutdown signal.
    Shutdown,
    /// The periodic clock-sync tick.
    Tick,
    /// A user command to forward.
    Command(String),
    /// An inbound text frame.
    Message(ServerMessage),
    /// The peer closed the connection.
    Closed,
    /// The transport failed.
    TransportError(String),
    /// A frame of a kind the session does not act on.
    OtherFrame,
    /// Every event source has ended.
    SourcesClosed,
}

/// The four timestamps of one clock-sync round trip, in microseconds.
#[derive(Clone, Copy, Debug, PartialEq, Eq, Structural)]
pub struct ClockSample {
    pub client_transmitted: i64,
    pub server_received: i64,
    pub server_transmitted: i64,
    pub client_received: i64,
}

/// What the user interface shows of the current playback.
#[derive(Debug, Clone, PartialEq, Eq)]
pub struct NowPlaying {
    pub is_playing: bool,
    pub track: Option<String>,
    pub artist: Option<String>,
    pub album: Option<String>,
    pub image_url: Option<String>,
    pub player_name: Option<String>,
    pub player_id: Option<String>,
    pub duration: Option<u64>,
    pub elapsed: Option<u64>,
    pub can_play: bool,
    pub can_pause: bool,
    pub can_next: bool,
    pub can_previous: bool,
}

/// Why the loop ended.
#[derive(Debug, Clone, PartialEq, Eq)]
pub enum ExitReason {
    Shutdown,
    Closed,
    TransportError(String),
    SourcesClosed,
}

/// The order that one event gives.
#[derive(Debug, Clone, PartialEq, Eq)]
pub enum SessionAction {
    /// Nothing to do.
    Idle,
    /// Leave the loop.
    Exit(ExitReason),
    /// Send a clock-sync request that carries the local send time.
    SendClockSync { client_transmitted: i64 },
    /// Send a transport-command frame with this command name.
    SendCommand(String),
    /// Have the playback pipeline realise a sink for this format.
    CreatePlayer(StreamFormat),
    /// Have the playback pipeline discard what it has buffered.
    ClearPlayback,
    /// Hand a round trip to the clock estimator.
    UpdateClock(ClockSample),
    /// Publish a now-playing projection.
    UpdateNowPlaying(NowPlaying),
}

/// Why a binary frame did not become a chunk.
#[derive(Clone, Copy, Debug, PartialEq, Eq, Structural)]
pub enum FrameDrop {
    /// No stream is active.
    NoStream,
    /// The frame is malformed for the active format.
    Malformed(FrameError),
}

/// Decoded audio on its way to the playback pipeline.
#[derive(Debug, Clone, PartialEq, Eq)]
pub struct DecodedBuffer {
    pub timestamp: i64,
    /// Channel-interleaved samples.
    pub samples: Vec<i32>,
    pub format: StreamFormat,
}

/// What follows a successful decode.
#[derive(Debug, Clone, PartialEq, Eq)]
pub struct DecodedStep {
    /// The buffer to enqueue.
    pub buffer: DecodedBuffer,
    /// The projection to publish when this chunk starts playback.
    pub now_playing: Option<NowPlaying>,
}

/// Per-connection state of the steady-state loop.
#[derive(Debug, Clone, PartialEq, Eq)]
pub struct StreamSession {
    pub player_name: String,
    pub player_id: String,
    /// Format of the active stream; absent until a stream starts.
    pub format: Option<StreamFormat>,
    /// Byte order fixed by the first chunk of the stream.
    pub endian: Option<PcmEndian>,
    /// Whether a chunk of the current stream has been decoded.
    pub playback_started: bool,
}

/// Whole seconds of a millisecond count, as an unsigned 64-bit number; a
/// negative count wraps around as a two's-complement conversion does.
pub open spec fn millis_to_seconds(ms: i64) -> u64 {
    if ms >= 0 {
        (ms / 1000) as u64
    } else if (-ms) / 1000 == 0 {
        0
    } else {
        (0x1_0000_0000_0000_0000 - (-ms) / 1000) as u64
    }
}

/// Whether a codec name is the one rendered natively.
pub open spec fn is_native_codec(codec: Seq<char>) -> bool {
    codec == "pcm"@
}

/// The projection for a metadata update while playback is in state `playing`.
pub open spec fn metadata_projection(
    metadata: TrackMetadata,
    playing: bool,
    player_name: String,
    player_id: String,
) -> NowPlaying {
    NowPlaying {
        is_playing: playing,
        track: metadata.title,
        artist: metadata.artist,
        album: metadata.album,
        image_url: metadata.artwork_url,
        player_name: Some(player_name),
        player_id: Some(player_id),
        duration: match metadata.progress {
            Some(p) => Some(millis_to_seconds(p.track_duration)),
            None => None,
        },
        elapsed: match metadata.progress {
            Some(p) => Some(millis_to_seconds(p.track_progress)),
            None => None,
        },
        can_play: !playing,
        can_pause: playing,
        can_next: true,
        can_previous: true,
    }
}

/// The projection published when the first chunk of a stream is decoded.
pub open spec fn playback_started_projection(player_name: String, player_id: String) -> NowPlaying {
    NowPlaying {
        is_playing: true,
        track: None,
        artist: None,
        album: None,
        image_url: None,
        player_name: Some(player_name),
        player_id: Some(player_id),
        duration: None,
        elapsed: None,
        can_play: false,
        can_pause: true,
        can_next: true,
        can_previous: true,
    }
}

/// The projection of an idle player: no track, no capabilities.
pub open spec fn idle_projection() -> NowPlaying {
    NowPlaying {
        is_playing: false,
        track: None,
        artist: None,
        album: None,
        image_url: None,
        player_name: None,
        player_id: None,
        duration: None,
        elapsed: None,
        can_play: false,
        can_pause: false,
        can_next: false,
        can_previous: false,
    }
}

/// The format that a stream-start message announces, where it is accepted:
/// the message has a player section and names the native codec.
pub open spec fn accepted_format(player: Option<StreamPlayerConfig>) -> Option<StreamFormat> {
    match player {
        Some(cfg) => if is_native_codec(cfg.codec@) {
            Some(
                StreamFormat {
                    codec: Codec::Pcm,
                    sample_rate: cfg.sample_rate,
                    channels: cfg.channels,
                    bit_depth: cfg.bit_depth,
                },
            )
        } else {
            None
        },
        None => None,
    }
}

/// The session after `event`, given the session before it.
pub open spec fn session_after(before: StreamSession, event: SessionEvent) -> StreamSession {
    match event {
        SessionEvent::Message(ServerMessage::StreamStart(player)) => match accepted_format(player) {
            Some(format) => StreamSession {
                format: Some(format),
                endian: None,
                playback_started: false,
                ..before
            },
            None => before,
        },
        SessionEvent::Message(ServerMessage::StreamEnd) | SessionEvent::Message(
            ServerMessage::StreamClear,
        ) => StreamSession { format: None, endian: None, playback_started: false, ..before },
        _ => before,
    }
}

/// The order that `event` gives to a session in state `before` at local time
/// `now_micros`.
pub open spec fn action_for(before: StreamSession, event: SessionEvent, now_micros: i64) -> SessionAction {
    match event {
        SessionEvent::Shutdown => SessionAction::Exit(ExitReason::Shutdown),
        SessionEvent::Tick => SessionAction::SendClockSync { client_transmitted: now_micros },
        SessionEvent::Command(name) => SessionAction::SendCommand(name),
        SessionEvent::Message(ServerMessage::StreamStart(player)) => match accepted_format(player) {
            Some(format) => SessionAction::CreatePlayer(format),
            None => SessionAction::Idle,
        },
        SessionEvent::Message(
            ServerMessage::ServerTime { client_transmitted, server_received, server_transmitted },
        ) => SessionAction::UpdateClock(
            ClockSample {
                client_transmitted,
                server_received,
                server_transmitted,
                client_received: now_micros,
            },
        ),
        SessionEvent::Message(ServerMessage::ServerState(Some(metadata))) => {
            SessionAction::UpdateNowPlaying(
                metadata_projection(
                    metadata,
                    before.playback_started,
                    before.player_name,
                    before.player_id,
                ),
            )
        },
        SessionEvent::Message(ServerMessage::ServerState(None)) => SessionAction::Idle,
        SessionEvent::Message(ServerMessage::StreamEnd) => SessionAction::ClearPlayback,
        SessionEvent::Message(ServerMessage::StreamClear) => SessionAction::ClearPlayback,
        SessionEvent::Message(ServerMessage::Other) => SessionAction::Idle,
        SessionEvent::Closed => SessionAction::Exit(ExitReason::Closed),
        SessionEvent::TransportError(detail) => SessionAction::Exit(
            ExitReason::TransportError(detail),
        ),
        SessionEvent::OtherFrame => SessionAction::Idle,
        SessionEvent::SourcesClosed => SessionAction::Exit(ExitReason::SourcesClosed),
    }
}

/// Whether a codec name is the one rendered natively.
pub fn is_pcm(codec: &String) -> (b: bool)
    ensures
        b == is_native_codec(codec@),
{
    let native = "pcm".to_owned();
    *codec == native
}

/// Converts a millisecond count to whole seconds.
pub fn seconds_of_millis(ms: i64) -> (s: u64)
    ensures
        s == millis_to_seconds(ms),
{
    if ms >= 0 {
        (ms / 1000) as u64
    } else {
        let magnitude: u64 = ((-(ms + 1)) as u64) + 1;
        let q: u64 = magnitude / 1000;
        if q == 0 {
            0
        } else {
            u64::MAX - q + 1
        }
    }
}

impl StreamSession {
    /// A session before any stream: no format, no byte-order lock, not playing.
    pub fn new(player_name: String, player_id: String) -> (s: Self)
        ensures
            s.player_name == player_name,
            s.player_id == player_id,
            s.format is None,
            s.endian is None,
            !s.playback_started,
    {
        StreamSession { player_name, player_id, format: None, endian: None, playback_started: false }
    }

    /// Builds the projection for a metadata update.
    pub fn project_metadata(&self, metadata: TrackMetadata) -> (np: NowPlaying)
        ensures
            np == metadata_projection(
                metadata,
                self.playback_started,
                self.player_name,
                self.player_id,
            ),
    {
        let duration = match &metadata.progress {
            Some(p) => Some(seconds_of_millis(p.track_duration)),
            None => None,
        };
        let elapsed = match &metadata.progress {
            Some(p) => Some(seconds_of_millis(p.track_progress)),
            None => None,
        };
        NowPlaying {
            is_playing: self.playback_started,
            track: metadata.title,
            artist: metadata.artist,
            album: metadata.album,
            image_url: metadata.artwork_url,
            player_name: Some(self.player_name.clone()),
            player_id: Some(self.player_id.clone()),
            duration,
            elapsed,
            can_play: !self.playback_started,
            can_pause: self.playback_started,
            can_next: true,
            can_previous: true,
        }
    }

    /// Applies a stream-start message. A message without a player section, or
    /// one that names a codec other than the native one, changes nothing and
    /// yields no format; otherwise the announced format becomes the active
    /// one, the byte-order lock is cleared and playback counts as not started.
    pub fn on_stream_start(&mut self, player: Option<StreamPlayerConfig>) -> (created: Option<StreamFormat>)
        ensures
            created == accepted_format(player),
            *final(self) == session_after(
                *old(self),
                SessionEvent::Message(ServerMessage::StreamStart(player)),
            ),
    {
        match player {
            Some(cfg) => {
                if is_pcm(&cfg.codec) {
                    let format = StreamFormat {
                        codec: Codec::Pcm,
                        sample_rate: cfg.sample_rate,
                        channels: cfg.channels,
                        bit_depth: cfg.bit_depth,
                    };
                    self.format = Some(format);
                    self.endian = None;
                    self.playback_started = false;
                    Some(format)
                } else {
                    None
                }
            },
            None => None,
        }
    }

    /// Handles one event of the multiplexing loop at local time `now_micros`
    /// (microseconds since the epoch) and says what to do about it.
    pub fn handle_event(&mut self, event: SessionEvent, now_micros: i64) -> (action: SessionAction)
        ensures
            action == action_for(*old(self), event, now_micros),
            *final(self) == session_after(*old(self), event),
    {
        match event {
            SessionEvent::Shutdown => SessionAction::Exit(ExitReason::Shutdown),
            SessionEvent::Tick => SessionAction::SendClockSync { client_transmitted: now_micros },
            SessionEvent::Command(name) => SessionAction::SendCommand(name),
            SessionEvent::Message(message) => match message {
                ServerMessage::StreamStart(player) => match self.on_stream_start(player) {
                    Some(format) => SessionAction::CreatePlayer(format),
                    None => SessionAction::Idle,
                },
                ServerMessage::ServerTime {
                    client_transmitted,
                    server_received,
                    server_transmitted,
                } => SessionAction::UpdateClock(
                    ClockSample {
                        client_transmitted,
                        server_received,
                        server_transmitted,
                        client_received: now_micros,
                    },
                ),
                ServerMessage::ServerState(Some(metadata)) => SessionAction::UpdateNowPlaying(
                    self.project_metadata(metadata),
                ),
                ServerMessage::ServerState(None) => SessionAction::Idle,
                ServerMessage::StreamEnd | ServerMessage::StreamClear => {
                    self.format = None;
                    self.endian = None;
                    self.playback_started = false;
                    SessionAction::ClearPlayback
                },
                ServerMessage::Other => SessionAction::Idle,
            },
            SessionEvent::Closed => SessionAction::Exit(ExitReason::Closed),
            SessionEvent::TransportError(detail) => SessionAction::Exit(
                ExitReason::TransportError(detail),
            ),
            SessionEvent::OtherFrame => SessionAction::Idle,
            SessionEvent::SourcesClosed => SessionAction::Exit(ExitReason::SourcesClosed),
        }
    }

    /// Takes one binary frame. With no active stream the frame is dropped;
    /// with one, it is parsed under the active format and dropped whole when
    /// malformed. The first accepted chunk of a stream fixes the byte order
    /// (little-endian) for the rest of the stream. Nothing else changes.
    pub fn accept_frame(&mut self, data: &[u8]) -> (r: Result<AudioChunk, FrameDrop>)
        ensures
            match old(self).format {
                None => r == Err::<AudioChunk, FrameDrop>(FrameDrop::NoStream) && *final(self) == *old(
                    self,
                ),
                Some(format) => match parsed_frame(data@, format) {
                    Ok((timestamp, payload)) => r matches Ok(chunk) && chunk.timestamp == timestamp
                        && chunk.payload@ == payload && *final(self) == (StreamSession {
                        endian: match old(self).endian {
                            Some(e) => Some(e),
                            None => Some(PcmEndian::Little),
                        },
                        ..*old(self)
                    }),
                    Err(e) => r == Err::<AudioChunk, FrameDrop>(FrameDrop::Malformed(e))
                        && *final(self) == *old(self),
                },
            },
    {
        match self.format {
            None => Err(FrameDrop::NoStream),
            Some(format) => match parse_audio_frame(data, &format) {
                Ok(chunk) => {
                    if self.endian.is_none() {
                        self.endian = Some(PcmEndian::Little);
                    }
                    Ok(chunk)
                },
                Err(e) => Err(FrameDrop::Malformed(e)),
            },
        }
    }

    /// Takes the samples decoded from an accepted chunk. With no active stream
    /// the samples are dropped. Otherwise they become a buffer for the
    /// pipeline, stamped with the chunk's timestamp and the active format; the
    /// first buffer of a stream marks playback as started and comes with the
    /// projection that says so.
    pub fn on_decoded(&mut self, timestamp: i64, samples: Vec<i32>) -> (r: Option<DecodedStep>)
        ensures
            match old(self).format {
                None => r is None && *final(self) == *old(self),
                Some(format) => r matches Some(step) && step.buffer.timestamp == timestamp
                    && step.buffer.samples == samples && step.buffer.format == format
                    && step.now_playing == (if old(self).playback_started {
                    None::<NowPlaying>
                } else {
                    Some(playback_started_projection(old(self).player_name, old(self).player_id))
                }) && *final(self) == (StreamSession { playback_started: true, ..*old(self) }),
            },
    {
        match self.format {
            None => None,
            Some(format) => {
                let now_playing = if self.playback_started {
                    None
                } else {
                    self.playback_started = true;
                    Some(
                        NowPlaying {
                            is_playing: true,
                            track: None,
                            artist: None,
                            album: None,
                            image_url: None,
                            player_name: Some(self.player_name.clone()),
                            player_id: Some(self.player_id.clone()),
                            duration: None,
                            elapsed: None,
                            can_play: false,
                            can_pause: true,
                            can_next: true,
                            can_previous: true,
                        },
                    )
                };
                Some(DecodedStep { buffer: DecodedBuffer { timestamp, samples, format }, now_playing })
            },
        }
    }
}

/// What a session sends on entering steady state, before it waits for any
/// event: its player state, and a first clock-sync request that carries the
/// local send time.
pub fn open_stream(now_micros: i64) -> (opening: (PlayerStateReport, SessionAction))
    ensures
        opening.0 == (PlayerStateReport { synchronized: true, volume: 100, muted: false }),
        opening.1 == (SessionAction::SendClockSync { client_transmitted: now_micros }),
{
    (initial_player_state(), SessionAction::SendClockSync { client_transmitted: now_micros })
}

/// Ends a session whose loop has exited, for whatever reason: the live
/// session, if the registry still holds it, becomes `Disconnected`, and the
/// projection to publish is that of an idle player. The caller sends the
/// playback pipeline its shutdown command.
pub fn close_session(registry: &mut ClientRegistry) -> (np: NowPlaying)
    ensures
        np == idle_projection(),
        shown_status(*final(registry)) == ConnectionStatus::Disconnected,
        final(registry).enabled == old(registry).enabled,
        final(registry).shutdown_tx == old(registry).shutdown_tx,
        final(registry).command_tx == old(registry).command_tx,
        match old(registry).client {
            Some(handle) => final(registry).client == Some(
                SendspinClientHandle { status: ConnectionStatus::Disconnected, ..handle },
            ),
            None => final(registry).client is None,
        },
{
    update_status(registry, ConnectionStatus::Disconnected);
    idle_now_playing()
}

/// The projection published when the loop has ended: an idle player.
pub fn idle_now_playing() -> (np: NowPlaying)
    ensures
        np == idle_projection(),
{
    NowPlaying {
        is_playing: false,
        track: None,
        artist: None,
        album: None,
        image_url: None,
        player_name: None,
        player_id: None,
        duration: None,
        elapsed: None,
        can_play: false,
        can_pause: false,
        can_next: false,
        can_previous: false,
    }
}

} // verus!
