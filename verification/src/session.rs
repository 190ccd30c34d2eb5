//! The session object: configuration, connection status, and the registry
//! that holds at most one live session together with its command and
//! shutdown channels.

use vstd::prelude::*;

verus! {

/// The sending half of a bounded `tokio` channel.
#[verifier::external_type_specification]
#[verifier::external_body]
#[verifier::reject_recursive_types(T)]
pub struct ExSender<T>(tokio::sync::mpsc::Sender<T>);

/// Client configuration.
#[derive(Debug, Clone, PartialEq, Eq)]
pub struct SendspinConfig {
    pub player_id: String,
    pub player_name: String,
    pub server_url: String,
    /// Preferred output device; the system default where absent.
    pub audio_device_id: Option<String>,
    pub sync_delay_ms: i32,
    /// Bearer token for the authentication frame.
    pub auth_token: String,
}

/// Connection status.
#[derive(Debug, Clone, PartialEq, Eq)]
pub enum ConnectionStatus {
    Disconnected,
    Connecting,
    Connected,
    Error(String),
}

/// Handle of the live session.
#[derive(Debug, Clone, PartialEq, Eq)]
pub struct SendspinClientHandle {
    pub config: SendspinConfig,
    pub status: ConnectionStatus,
    pub player_id: String,
}

/// Why a value could not be queued on a channel.
#[derive(Clone, Copy, Debug, PartialEq, Eq, Structural)]
pub enum SendFailure {
    /// The channel holds as many values as it can.
    Full,
    /// The receiving half is gone.
    Closed,
}

/// The process-wide session state: at most one live session.
pub struct ClientRegistry {
    /// The live session, if any.
    pub client: Option<SendspinClientHandle>,
    /// Whether the client is enabled.
    pub enabled: bool,
    /// Signals the session loop to stop.
    pub shutdown_tx: Option<tokio::sync::mpsc::Sender<()>>,
    /// Carries user commands to the session loop.
    pub command_tx: Option<tokio::sync::mpsc::Sender<String>>,
}

/// Capacity of the channel that carries user commands.
pub const COMMAND_QUEUE_CAPACITY: usize = 32;

/// Capacity of the channel that carries the shutdown signal.
pub const SHUTDOWN_QUEUE_CAPACITY: usize = 1;

/// How long a stop waits for the session loop to end, in seconds.
pub const STOP_GRACE_SECS: u64 = 2;

/// `Sender::try_send` of `tokio`: tries to queue `value` without waiting.
/// Whether there is room, and whether the receiver still exists, depends on
/// the other holders of the channel, so nothing is claimed of the result.
#[verifier::external_body]
fn try_send<T>(sender: &tokio::sync::mpsc::Sender<T>, value: T) -> (r: Result<(), SendFailure>) {
    match sender.try_send(value) {
        Ok(()) => Ok(()),
        Err(tokio::sync::mpsc::error::TrySendError::Full(_)) => Err(SendFailure::Full),
        Err(tokio::sync::mpsc::error::TrySendError::Closed(_)) => Err(SendFailure::Closed),
    }
}

impl ConnectionStatus {
    /// A copy of the status.
    pub fn duplicate(&self) -> (r: Self)
        ensures
            r == *self,
    {
        match self {
            ConnectionStatus::Disconnected => ConnectionStatus::Disconnected,
            ConnectionStatus::Connecting => ConnectionStatus::Connecting,
            ConnectionStatus::Connected => ConnectionStatus::Connected,
            ConnectionStatus::Error(reason) => ConnectionStatus::Error(reason.clone()),
        }
    }
}

impl SendspinClientHandle {
    /// A handle for `config`: disconnected, and known by the configured
    /// player identifier.
    pub fn new(config: SendspinConfig) -> (handle: Self)
        ensures
            handle.config == config,
            handle.status == ConnectionStatus::Disconnected,
            handle.player_id == config.player_id,
    {
        let player_id = config.player_id.clone();
        SendspinClientHandle { config, status: ConnectionStatus::Disconnected, player_id }
    }
}

impl ClientRegistry {
    /// A registry with no session, disabled, and no channels.
    pub fn new() -> (registry: Self)
        ensures
            registry.is_idle(),
    {
        ClientRegistry { client: None, enabled: false, shutdown_tx: None, command_tx: None }
    }

    /// No session, disabled, no channels.
    pub open spec fn is_idle(&self) -> bool {
        &&& self.client is None
        &&& !self.enabled
        &&& self.shutdown_tx is None
        &&& self.command_tx is None
    }
}

/// The status that a registry shows.
pub open spec fn shown_status(registry: ClientRegistry) -> ConnectionStatus {
    match registry.client {
        Some(handle) => handle.status,
        None => ConnectionStatus::Disconnected,
    }
}

/// The current connection status: that of the live session, or
/// `Disconnected` where there is none.
pub fn get_status(registry: &ClientRegistry) -> (status: ConnectionStatus)
    ensures
        status == shown_status(*registry),
{
    match &registry.client {
        Some(handle) => handle.status.duplicate(),
        None => ConnectionStatus::Disconnected,
    }
}

/// The player identifier of the live session, if there is one.
pub fn get_player_id(registry: &ClientRegistry) -> (id: Option<String>)
    ensures
        id == (match registry.client {
            Some(handle) => Some(handle.player_id),
            None => None::<String>,
        }),
{
    match &registry.client {
        Some(handle) => Some(handle.player_id.clone()),
        None => None,
    }
}

/// Whether the client is enabled.
pub fn is_enabled(registry: &ClientRegistry) -> (enabled: bool)
    ensures
        enabled == registry.enabled,
{
    registry.enabled
}

/// Sets the enabled flag and nothing else.
pub fn set_enabled(registry: &mut ClientRegistry, enabled: bool)
    ensures
        final(registry).enabled == enabled,
        final(registry).client == old(registry).client,
        final(registry).shutdown_tx == old(registry).shutdown_tx,
        final(registry).command_tx == old(registry).command_tx,
{
    registry.enabled = enabled;
}

/// Sets the status of the live session; without one, nothing changes.
pub fn update_status(registry: &mut ClientRegistry, status: ConnectionStatus)
    ensures
        final(registry).enabled == old(registry).enabled,
        final(registry).shutdown_tx == old(registry).shutdown_tx,
        final(registry).command_tx == old(registry).command_tx,
        match old(registry).client {
            Some(handle) => final(registry).client == Some(
                SendspinClientHandle { status, ..handle },
            ),
            None => final(registry).client is None,
        },
{
    match registry.client.take() {
        Some(handle) => {
            registry.client = Some(
                SendspinClientHandle {
                    config: handle.config,
                    status,
                    player_id: handle.player_id,
                },
            );
        },
        None => {},
    }
}

/// Registers a new session for `config` with the channels that reach its
/// loop. Whatever the registry held before is replaced: the session is
/// `Connecting`, the client is enabled, and the player identifier of the
/// configuration is returned. Starting never fails.
pub fn start(
    registry: &mut ClientRegistry,
    config: SendspinConfig,
    shutdown_tx: tokio::sync::mpsc::Sender<()>,
    command_tx: tokio::sync::mpsc::Sender<String>,
) -> (r: Result<String, String>)
    ensures
        r == Ok::<String, String>(config.player_id),
        final(registry).enabled,
        final(registry).client == Some(
            SendspinClientHandle {
                config,
                status: ConnectionStatus::Connecting,
                player_id: config.player_id,
            },
        ),
        final(registry).shutdown_tx == Some(shutdown_tx),
        final(registry).command_tx == Some(command_tx),
{
    let mut handle = SendspinClientHandle::new(config);
    handle.status = ConnectionStatus::Connecting;
    let player_id = handle.player_id.clone();
    registry.client = Some(handle);
    registry.enabled = true;
    registry.shutdown_tx = Some(shutdown_tx);
    registry.command_tx = Some(command_tx);
    Ok(player_id)
}

/// Stops the session: signals its loop to shut down, if a loop can be
/// reached, and leaves the registry idle. Returns whether there was a loop to
/// signal, in which case the caller waits for it to end, for at most the
/// grace period. Stopping an idle registry changes nothing.
pub fn stop(registry: &mut ClientRegistry) -> (signalled: bool)
    ensures
        final(registry).is_idle(),
        signalled == old(registry).shutdown_tx is Some,
{
    registry.enabled = false;
    let signalled = match &registry.shutdown_tx {
        Some(sender) => {
            let _ = try_send(sender, ());
            true
        },
        None => false,
    };
    registry.shutdown_tx = None;
    registry.command_tx = None;
    registry.client = None;
    signalled
}

/// What the caller of `send_command` is told after the attempt to queue.
pub open spec fn queue_report(attempt: Result<(), SendFailure>) -> Result<(), Seq<char>> {
    match attempt {
        Ok(()) => Ok(()),
        Err(SendFailure::Full) => Err("Failed to send command: no available capacity"@),
        Err(SendFailure::Closed) => Err("Failed to send command: channel closed"@),
    }
}

/// Turns the outcome of queueing a command into the caller's result.
pub fn command_outcome(attempt: Result<(), SendFailure>) -> (r: Result<(), String>)
    ensures
        match queue_report(attempt) {
            Ok(()) => r is Ok,
            Err(text) => r matches Err(message) && message@ == text,
        },
{
    match attempt {
        Ok(()) => Ok(()),
        Err(SendFailure::Full) => Err("Failed to send command: no available capacity".to_owned()),
        Err(SendFailure::Closed) => Err("Failed to send command: channel closed".to_owned()),
    }
}

/// Queues a playback command (play, pause, stop, next, previous) for the
/// session loop. Fails when no session is live, when the session has no
/// command channel, or when the channel does not take the command.
pub fn send_command(registry: &ClientRegistry, command: &str) -> (r: Result<(), String>)
    ensures
        registry.client is None ==> (r matches Err(message) && message@
            == "Sendspin client not connected"@),
        registry.client is Some && registry.command_tx is None ==> (r matches Err(message)
            && message@ == "Command channel not available"@),
        registry.client is Some && registry.command_tx is Some ==> exists|
            attempt: Result<(), SendFailure>,
        |
            match #[trigger] queue_report(attempt) {
                Ok(()) => r is Ok,
                Err(text) => r matches Err(message) && message@ == text,
            },
{
    if registry.client.is_none() {
        return Err("Sendspin client not connected".to_owned());
    }
    match &registry.command_tx {
        Some(sender) => {
            let attempt = try_send(sender, command.to_owned());
            command_outcome(attempt)
        },
        None => Err("Command channel not available".to_owned()),
    }
}

/// Stopping is idempotent: every stop leaves the one idle registry, so a
/// second stop finds nothing to signal, changes nothing, and the status shown
/// afterwards is `Disconnected`.
pub proof fn lemma_stop_idempotent(after_first: ClientRegistry, after_second: ClientRegistry)
    requires
        after_first.is_idle(),
        after_second.is_idle(),
    ensures
        after_second == after_first,
        after_first.shutdown_tx is None,
        shown_status(after_first) == ConnectionStatus::Disconnected,
{
}

} // verus!
