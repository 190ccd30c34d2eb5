//! Connection setup: the frames that open a session, and the phases from
//! opening the transport through authentication and capability negotiation
//! to steady-state streaming.

use vstd::prelude::*;
use vstd::string::*;
use crate::session::{ConnectionStatus, SendspinConfig};

verus! {

/// The authentication frame that precedes all protocol traffic.
#[derive(Debug, Clone, PartialEq, Eq)]
pub struct AuthMessage {
    /// Always `auth`.
    pub msg_type: String,
    pub token: String,
    pub client_id: String,
}

/// One audio format that the client can render.
#[derive(Debug, Clone, PartialEq, Eq)]
pub struct AudioFormatSpec {
    pub codec: String,
    pub channels: u8,
    pub sample_rate: u32,
    pub bit_depth: u8,
}

/// Description of the device that runs the client.
#[derive(Debug, Clone, PartialEq, Eq)]
pub struct DeviceInfo {
    pub product_name: Option<String>,
    pub manufacturer: Option<String>,
    pub software_version: Option<String>,
}

/// What the client announces for the rendering role.
#[derive(Debug, Clone, PartialEq, Eq)]
pub struct PlayerSupport {
    pub supported_formats: Vec<AudioFormatSpec>,
    /// Buffer capacity in samples.
    pub buffer_capacity: u32,
    /// The remote commands that the player accepts.
    pub supported_commands: Vec<String>,
}

/// The hello that announces the client's capabilities.
#[derive(Debug, Clone, PartialEq, Eq)]
pub struct ClientHello {
    pub client_id: String,
    pub name: String,
    pub version: u32,
    pub supported_roles: Vec<String>,
    pub device_info: Option<DeviceInfo>,
    pub player_support: Option<PlayerSupport>,
}

/// The player state reported right after the handshake.
#[derive(Clone, Copy, Debug, PartialEq, Eq, Structural)]
pub struct PlayerStateReport {
    pub synchronized: bool,
    pub volume: u8,
    pub muted: bool,
}

/// Why a session could not be set up.
#[derive(Debug, Clone, PartialEq, Eq)]
pub enum SessionError {
    ConnectFailed(String),
    AuthEncode(String),
    AuthSend(String),
    AuthResponse(String),
    AuthClosed,
    AuthTimeout,
    HelloEncode(String),
    HelloSend(String),
    ServerMessage(String),
    HelloClosed,
}

/// Where a session stands.
#[derive(Debug, Clone, PartialEq, Eq)]
pub enum SessionPhase {
    /// The transport is being opened.
    Connecting,
    /// The authentication frame is out; any reply ends the phase.
    Authenticating,
    /// The hello is out; `reads` frames have been read since without an
    /// acknowledgement.
    NegotiatingCapabilities { reads: u32 },
    /// Steady state.
    Streaming,
    /// The loop has ended.
    Disconnected,
    /// Setup failed.
    Failed(SessionError),
}

/// What one read from the transport, with its timeout, came to.
#[derive(Debug, Clone, PartialEq, Eq)]
pub enum Reply {
    /// A text frame.
    Text(String),
    /// A frame of another kind.
    Other,
    /// A transport error.
    Failed(String),
    /// The connection was closed.
    Closed,
    /// Nothing arrived in time.
    TimedOut,
}

/// What happened during setup.
#[derive(Debug, Clone, PartialEq, Eq)]
pub enum HandshakeEvent {
    /// The transport is open.
    Connected,
    /// The transport could not be opened.
    ConnectFailed(String),
    /// The frame of the current phase could not be encoded.
    EncodeFailed(String),
    /// The frame of the current phase could not be sent.
    SendFailed(String),
    /// One read ended.
    Reply(Reply),
    /// The steady-state loop has ended.
    LoopEnded,
}

/// What the driver of the session does in a phase.
#[derive(Clone, Copy, Debug, PartialEq, Eq, Structural)]
pub enum Duty {
    /// Open the transport.
    OpenTransport,
    /// Send the authentication frame, then read once with this timeout in seconds.
    SendAuthAndAwait(u64),
    /// Send the hello, then read once with this timeout in seconds.
    SendHelloAndAwait(u64),
    /// Read once with this timeout in seconds.
    Await(u64),
    /// Run the steady-state loop.
    RunLoop,
    /// Nothing is left to do.
    Finish,
}

/// Seconds to wait for the reply to the authentication frame.
pub const AUTH_TIMEOUT_SECS: u64 = 5;

/// Seconds to wait for each frame while negotiating.
pub const HELLO_TIMEOUT_SECS: u64 = 10;

/// Frames read at most while waiting for the server's acknowledgement.
pub const HELLO_READ_BUDGET: u32 = 3;

/// Seconds between two clock-sync requests.
pub const CLOCK_SYNC_INTERVAL_SECS: u64 = 5;

/// Protocol version announced in the hello.
pub const PROTOCOL_VERSION: u32 = 1;

/// Buffer capacity announced in the hello, in samples.
pub const BUFFER_CAPACITY_SAMPLES: u32 = 480000;

/// Whether `needle` occurs in `haystack` as a contiguous run.
pub open spec fn has_substring(haystack: Seq<char>, needle: Seq<char>) -> bool {
    exists|i: int|
        0 <= i && i + needle.len() <= haystack.len() && #[trigger] haystack.subrange(
            i,
            i + needle.len(),
        ) == needle
}

/// Whether a text frame is the server's acknowledgement of the hello.
pub open spec fn is_server_hello(text: Seq<char>) -> bool {
    has_substring(text, "server/hello"@) || has_substring(text, "server_hello"@)
}

/// `str::contains` of the standard library with a string pattern: whether the
/// pattern matches a sub-slice of the string.
#[verifier::external_body]
fn str_contains(haystack: &str, needle: &str) -> (found: bool)
    ensures
        found == has_substring(haystack@, needle@),
{
    haystack.contains(needle)
}

/// Whether a text frame acknowledges the hello.
pub fn acknowledges_hello(text: &String) -> (b: bool)
    ensures
        b == is_server_hello(text@),
{
    str_contains(text.as_str(), "server/hello") || str_contains(text.as_str(), "server_hello")
}

/// The text of a setup error.
pub open spec fn error_text(error: SessionError) -> Seq<char> {
    match error {
        SessionError::ConnectFailed(detail) => "WebSocket connection failed: "@ + detail@,
        SessionError::AuthEncode(detail) => "Failed to serialize auth: "@ + detail@,
        SessionError::AuthSend(detail) => "Failed to send auth: "@ + detail@,
        SessionError::AuthResponse(detail) => "Auth response error: "@ + detail@,
        SessionError::AuthClosed => "Connection closed during auth"@,
        SessionError::AuthTimeout => "Auth timeout"@,
        SessionError::HelloEncode(detail) => "Failed to serialize hello: "@ + detail@,
        SessionError::HelloSend(detail) => "Failed to send hello: "@ + detail@,
        SessionError::ServerMessage(detail) => "Server message error: "@ + detail@,
        SessionError::HelloClosed => "Connection closed while waiting for ServerHello"@,
    }
}

fn with_detail(prefix: &str, detail: &String) -> (text: String)
    ensures
        text@ == prefix@ + detail@,
{
    let mut text = prefix.to_owned();
    text.append(detail.as_str());
    text
}

impl SessionError {
    /// The human-readable reason.
    pub fn message(&self) -> (text: String)
        ensures
            text@ == error_text(*self),
    {
        match self {
            SessionError::ConnectFailed(detail) => with_detail(
                "WebSocket connection failed: ",
                detail,
            ),
            SessionError::AuthEncode(detail) => with_detail("Failed to serialize auth: ", detail),
            SessionError::AuthSend(detail) => with_detail("Failed to send auth: ", detail),
            SessionError::AuthResponse(detail) => with_detail("Auth response error: ", detail),
            SessionError::AuthClosed => "Connection closed during auth".to_owned(),
            SessionError::AuthTimeout => "Auth timeout".to_owned(),
            SessionError::HelloEncode(detail) => with_detail("Failed to serialize hello: ", detail),
            SessionError::HelloSend(detail) => with_detail("Failed to send hello: ", detail),
            SessionError::ServerMessage(detail) => with_detail("Server message error: ", detail),
            SessionError::HelloClosed => "Connection closed while waiting for ServerHello".to_owned(),
        }
    }
}

/// The phase after a read came to `reply` while `reads` frames had been read
/// without an acknowledgement: an acknowledgement, or the last read of the
/// budget, leads to streaming; a transport error or a closed connection is
/// fatal; anything else is one more frame read.
pub open spec fn after_hello_reply(reads: u32, reply: Reply) -> SessionPhase {
    match reply {
        Reply::Failed(detail) => SessionPhase::Failed(SessionError::ServerMessage(detail)),
        Reply::Closed => SessionPhase::Failed(SessionError::HelloClosed),
        Reply::Text(text) => if is_server_hello(text@) || reads >= 2 {
            SessionPhase::Streaming
        } else {
            SessionPhase::NegotiatingCapabilities { reads: (reads + 1) as u32 }
        },
        _ => if reads >= 2 {
            SessionPhase::Streaming
        } else {
            SessionPhase::NegotiatingCapabilities { reads: (reads + 1) as u32 }
        },
    }
}

/// The phase that follows `phase` on `event`. An event that has no meaning in
/// a phase leaves the phase as it is.
pub open spec fn next_phase(phase: SessionPhase, event: HandshakeEvent) -> SessionPhase {
    match (phase, event) {
        (SessionPhase::Connecting, HandshakeEvent::Connected) => SessionPhase::Authenticating,
        (SessionPhase::Connecting, HandshakeEvent::ConnectFailed(detail)) => SessionPhase::Failed(
            SessionError::ConnectFailed(detail),
        ),
        (SessionPhase::Authenticating, HandshakeEvent::EncodeFailed(detail)) => SessionPhase::Failed(
            SessionError::AuthEncode(detail),
        ),
        (SessionPhase::Authenticating, HandshakeEvent::SendFailed(detail)) => SessionPhase::Failed(
            SessionError::AuthSend(detail),
        ),
        (SessionPhase::Authenticating, HandshakeEvent::Reply(reply)) => match reply {
            Reply::Failed(detail) => SessionPhase::Failed(SessionError::AuthResponse(detail)),
            Reply::Closed => SessionPhase::Failed(SessionError::AuthClosed),
            Reply::TimedOut => SessionPhase::Failed(SessionError::AuthTimeout),
            _ => SessionPhase::NegotiatingCapabilities { reads: 0 },
        },
        (
            SessionPhase::NegotiatingCapabilities { reads },
            HandshakeEvent::EncodeFailed(detail),
        ) => SessionPhase::Failed(SessionError::HelloEncode(detail)),
        (
            SessionPhase::NegotiatingCapabilities { reads },
            HandshakeEvent::SendFailed(detail),
        ) => SessionPhase::Failed(SessionError::HelloSend(detail)),
        (SessionPhase::NegotiatingCapabilities { reads }, HandshakeEvent::Reply(reply)) => {
            after_hello_reply(reads, reply)
        },
        (SessionPhase::Streaming, HandshakeEvent::LoopEnded) => SessionPhase::Disconnected,
        (phase, _) => phase,
    }
}

/// What the driver does in `phase`.
pub open spec fn phase_duty(phase: SessionPhase) -> Duty {
    match phase {
        SessionPhase::Connecting => Duty::OpenTransport,
        SessionPhase::Authenticating => Duty::SendAuthAndAwait(5),
        SessionPhase::NegotiatingCapabilities { reads } => if reads == 0 {
            Duty::SendHelloAndAwait(10)
        } else {
            Duty::Await(10)
        },
        SessionPhase::Streaming => Duty::RunLoop,
        SessionPhase::Disconnected => Duty::Finish,
        SessionPhase::Failed(_) => Duty::Finish,
    }
}

impl SessionPhase {
    /// The phase that follows on `event`.
    pub fn advance(self, event: HandshakeEvent) -> (next: SessionPhase)
        ensures
            next == next_phase(self, event),
    {
        match self {
            SessionPhase::Connecting => match event {
                HandshakeEvent::Connected => SessionPhase::Authenticating,
                HandshakeEvent::ConnectFailed(detail) => SessionPhase::Failed(
                    SessionError::ConnectFailed(detail),
                ),
                _ => SessionPhase::Connecting,
            },
            SessionPhase::Authenticating => match event {
                HandshakeEvent::EncodeFailed(detail) => SessionPhase::Failed(
                    SessionError::AuthEncode(detail),
                ),
                HandshakeEvent::SendFailed(detail) => SessionPhase::Failed(
                    SessionError::AuthSend(detail),
                ),
                HandshakeEvent::Reply(reply) => match reply {
                    Reply::Failed(detail) => SessionPhase::Failed(
                        SessionError::AuthResponse(detail),
                    ),
                    Reply::Closed => SessionPhase::Failed(SessionError::AuthClosed),
                    Reply::TimedOut => SessionPhase::Failed(SessionError::AuthTimeout),
                    _ => SessionPhase::NegotiatingCapabilities { reads: 0 },
                },
                _ => SessionPhase::Authenticating,
            },
            SessionPhase::NegotiatingCapabilities { reads } => match event {
                HandshakeEvent::EncodeFailed(detail) => SessionPhase::Failed(
                    SessionError::HelloEncode(detail),
                ),
                HandshakeEvent::SendFailed(detail) => SessionPhase::Failed(
                    SessionError::HelloSend(detail),
                ),
                HandshakeEvent::Reply(reply) => match reply {
                    Reply::Failed(detail) => SessionPhase::Failed(
                        SessionError::ServerMessage(detail),
                    ),
                    Reply::Closed => SessionPhase::Failed(SessionError::HelloClosed),
                    Reply::Text(text) => {
                        if reads >= HELLO_READ_BUDGET - 1 || acknowledges_hello(&text) {
                            SessionPhase::Streaming
                        } else {
                            SessionPhase::NegotiatingCapabilities { reads: reads + 1 }
                        }
                    },
                    _ => {
                        if reads >= HELLO_READ_BUDGET - 1 {
                            SessionPhase::Streaming
                        } else {
                            SessionPhase::NegotiatingCapabilities { reads: reads + 1 }
                        }
                    },
                },
                _ => SessionPhase::NegotiatingCapabilities { reads },
            },
            SessionPhase::Streaming => match event {
                HandshakeEvent::LoopEnded => SessionPhase::Disconnected,
                _ => SessionPhase::Streaming,
            },
            SessionPhase::Disconnected => SessionPhase::Disconnected,
            SessionPhase::Failed(error) => SessionPhase::Failed(error),
        }
    }

    /// What the driver does in this phase.
    pub fn duty(&self) -> (d: Duty)
        ensures
            d == phase_duty(*self),
    {
        match self {
            SessionPhase::Connecting => Duty::OpenTransport,
            SessionPhase::Authenticating => Duty::SendAuthAndAwait(AUTH_TIMEOUT_SECS),
            SessionPhase::NegotiatingCapabilities { reads } => {
                if *reads == 0 {
                    Duty::SendHelloAndAwait(HELLO_TIMEOUT_SECS)
                } else {
                    Duty::Await(HELLO_TIMEOUT_SECS)
                }
            },
            SessionPhase::Streaming => Duty::RunLoop,
            SessionPhase::Disconnected => Duty::Finish,
            SessionPhase::Failed(_) => Duty::Finish,
        }
    }

    /// The connection status that this phase shows: `Connecting` until the
    /// handshake is through, `Connected` while streaming, `Disconnected` after
    /// the loop, and `Error` with the reason after a failure.
    pub fn status(&self) -> (status: ConnectionStatus)
        ensures
            match *self {
                SessionPhase::Connecting => status == ConnectionStatus::Connecting,
                SessionPhase::Authenticating => status == ConnectionStatus::Connecting,
                SessionPhase::NegotiatingCapabilities { reads } => status
                    == ConnectionStatus::Connecting,
                SessionPhase::Streaming => status == ConnectionStatus::Connected,
                SessionPhase::Disconnected => status == ConnectionStatus::Disconnected,
                SessionPhase::Failed(error) => status matches ConnectionStatus::Error(reason)
                    && reason@ == error_text(error),
            },
    {
        match self {
            SessionPhase::Connecting => ConnectionStatus::Connecting,
            SessionPhase::Authenticating => ConnectionStatus::Connecting,
            SessionPhase::NegotiatingCapabilities { reads: _ } => ConnectionStatus::Connecting,
            SessionPhase::Streaming => ConnectionStatus::Connected,
            SessionPhase::Disconnected => ConnectionStatus::Disconnected,
            SessionPhase::Failed(error) => ConnectionStatus::Error(error.message()),
        }
    }
}

/// Negotiation reads at most three frames: whatever the three reads come to,
/// the session is then streaming or has failed.
pub proof fn lemma_negotiation_bounded(first: Reply, second: Reply, third: Reply)
    ensures
        !(next_phase(
            next_phase(
                next_phase(
                    SessionPhase::NegotiatingCapabilities { reads: 0 },
                    HandshakeEvent::Reply(first),
                ),
                HandshakeEvent::Reply(second),
            ),
            HandshakeEvent::Reply(third),
        ) is NegotiatingCapabilities),
{
}

/// Without a fatal error negotiation ends in streaming, acknowledged or not.
pub proof fn lemma_negotiation_proceeds(reads: u32, reply: Reply)
    requires
        reads >= 2,
        !(reply is Failed),
        !(reply is Closed),
    ensures
        next_phase(
            SessionPhase::NegotiatingCapabilities { reads },
            HandshakeEvent::Reply(reply),
        ) is Streaming,
{
}

/// A failed or finished session stays as it is, whatever happens.
pub proof fn lemma_terminal_phases(phase: SessionPhase, event: HandshakeEvent)
    requires
        phase is Failed || phase is Disconnected,
    ensures
        next_phase(phase, event) == phase,
{
}

/// Whether `auth` is the authentication frame for `token` and `client_id`.
pub open spec fn is_auth_frame(auth: AuthMessage, token: String, client_id: String) -> bool {
    &&& auth.msg_type@ == "auth"@
    &&& auth.token == token
    &&& auth.client_id == client_id
}

/// Builds the authentication frame: the bearer token of the configuration
/// and the client identifier.
pub fn build_auth(config: &SendspinConfig, player_id: &String) -> (auth: AuthMessage)
    ensures
        is_auth_frame(auth, config.auth_token, *player_id),
{
    AuthMessage {
        msg_type: "auth".to_owned(),
        token: config.auth_token.clone(),
        client_id: player_id.clone(),
    }
}

/// Whether `spec` announces PCM with the given layout.
pub open spec fn is_pcm_format(spec: AudioFormatSpec, channels: u8, sample_rate: u32, bit_depth: u8) -> bool {
    &&& spec.codec@ == "pcm"@
    &&& spec.channels == channels
    &&& spec.sample_rate == sample_rate
    &&& spec.bit_depth == bit_depth
}

/// Whether `support` is what the client announces for the rendering role:
/// stereo PCM at 44.1 kHz in 16 bits and at 48 kHz and 96 kHz in 24 bits, the
/// buffer capacity, and the commands `volume` and `mute` and no others.
pub open spec fn is_player_support(support: PlayerSupport) -> bool {
    &&& support.supported_formats@.len() == 3
    &&& is_pcm_format(support.supported_formats@[0], 2, 44100, 16)
    &&& is_pcm_format(support.supported_formats@[1], 2, 48000, 24)
    &&& is_pcm_format(support.supported_formats@[2], 2, 96000, 24)
    &&& support.buffer_capacity == 480000
    &&& support.supported_commands@.len() == 2
    &&& support.supported_commands@[0]@ == "volume"@
    &&& support.supported_commands@[1]@ == "mute"@
}

/// Whether `hello` is the hello of the client `player_id` configured by
/// `config`, running software of version `software_version`.
pub open spec fn is_client_hello(
    hello: ClientHello,
    config: SendspinConfig,
    player_id: String,
    software_version: String,
) -> bool {
    &&& hello.client_id == player_id
    &&& hello.name == config.player_name
    &&& hello.version == 1
    &&& hello.supported_roles@.len() == 3
    &&& hello.supported_roles@[0]@ == "player@v1"@
    &&& hello.supported_roles@[1]@ == "controller@v1"@
    &&& hello.supported_roles@[2]@ == "metadata@v1"@
    &&& hello.device_info matches Some(info) && info.product_name == Some(config.player_name)
        && (info.manufacturer matches Some(m) && m@ == "Music Assistant"@)
        && info.software_version == Some(software_version)
    &&& hello.player_support matches Some(support) && is_player_support(support)
}

fn pcm_format(channels: u8, sample_rate: u32, bit_depth: u8) -> (spec: AudioFormatSpec)
    ensures
        is_pcm_format(spec, channels, sample_rate, bit_depth),
{
    AudioFormatSpec { codec: "pcm".to_owned(), channels, sample_rate, bit_depth }
}

/// Builds the hello: client identifier, display name, protocol version, the
/// roles of player, controller and metadata receiver, the device
/// description, and the capabilities of the rendering role.
pub fn build_hello(config: &SendspinConfig, player_id: &String, software_version: String) -> (hello: ClientHello)
    ensures
        is_client_hello(hello, *config, *player_id, software_version),
{
    let mut supported_roles: Vec<String> = Vec::new();
    supported_roles.push("player@v1".to_owned());
    supported_roles.push("controller@v1".to_owned());
    supported_roles.push("metadata@v1".to_owned());
    let mut supported_formats: Vec<AudioFormatSpec> = Vec::new();
    supported_formats.push(pcm_format(2, 44100, 16));
    supported_formats.push(pcm_format(2, 48000, 24));
    supported_formats.push(pcm_format(2, 96000, 24));
    let mut supported_commands: Vec<String> = Vec::new();
    supported_commands.push("volume".to_owned());
    supported_commands.push("mute".to_owned());
    ClientHello {
        client_id: player_id.clone(),
        name: config.player_name.clone(),
        version: PROTOCOL_VERSION,
        supported_roles,
        device_info: Some(
            DeviceInfo {
                product_name: Some(config.player_name.clone()),
                manufacturer: Some("Music Assistant".to_owned()),
                software_version: Some(software_version),
            },
        ),
        player_support: Some(
            PlayerSupport {
                supported_formats,
                buffer_capacity: BUFFER_CAPACITY_SAMPLES,
                supported_commands,
            },
        ),
    }
}

/// The player state reported right after the handshake: synchronised, full
/// volume, not muted.
pub fn initial_player_state() -> (report: PlayerStateReport)
    ensures
        report == (PlayerStateReport { synchronized: true, volume: 100, muted: false }),
{
    PlayerStateReport { synchronized: true, volume: 100, muted: false }
}

} // verus!
