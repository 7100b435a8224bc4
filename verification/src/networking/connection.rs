//! The state of each server connection, and what polling a connection for
//! events does to it.
use vstd::prelude::*;

verus! {

/// The packet versions that the client can speak.
#[allow(non_camel_case_types)]
#[derive(Debug, Clone, Copy, PartialEq, Eq, Structural)]
pub enum SupportedPacketVersion {
    _20220406,
}

/// Returned where a request needs a connection that is not established.
#[derive(Debug, Clone, Copy, PartialEq, Eq, Structural)]
pub struct NotConnectedError;

/// Why a connection to a server ended.
#[derive(Debug, Clone, Copy, PartialEq, Eq, Structural)]
pub enum DisconnectReason {
    ClosedByClient,
    ConnectionError,
}

/// The state of the connection to one server.
#[derive(Debug, Clone, Copy, PartialEq, Eq, Structural)]
pub enum ServerConnection {
    Disconnected,
    /// The client asked to close the connection; the next poll reports it.
    ClosingManually,
    Connected { packet_version: SupportedPacketVersion },
}

/// What one attempt to receive from a connection's event channel gave.
#[derive(Debug, Clone, Copy, PartialEq, Eq, Structural)]
pub enum ReceiveOutcome {
    /// An event was waiting.
    Received,
    /// No event was waiting.
    Empty,
    /// The network task has dropped its end of the channel.
    ChannelClosed,
}

/// What to do next while polling a connection.
#[derive(Debug, Clone, Copy, PartialEq, Eq, Structural)]
pub enum PollAction {
    /// Try to receive from the channel.
    Receive,
    /// Pass the received event on, then receive again.
    Forward,
    /// Stop polling; nothing more to report.
    Stop,
    /// Report that the connection ended for this reason, then stop.
    ReportDisconnect(DisconnectReason),
}

/// The state and action after a poll starts in `state`.
pub open spec fn poll_start(state: ServerConnection) -> (ServerConnection, PollAction) {
    match state {
        ServerConnection::Connected { .. } => (state, PollAction::Receive),
        ServerConnection::ClosingManually => (
            ServerConnection::Disconnected,
            PollAction::ReportDisconnect(DisconnectReason::ClosedByClient),
        ),
        ServerConnection::Disconnected => (state, PollAction::Stop),
    }
}

/// The state and action after receiving gave `outcome` in `state`.
pub open spec fn poll_received(state: ServerConnection, outcome: ReceiveOutcome) -> (
    ServerConnection,
    PollAction,
) {
    match outcome {
        ReceiveOutcome::Received => (state, PollAction::Forward),
        ReceiveOutcome::Empty => (state, PollAction::Stop),
        ReceiveOutcome::ChannelClosed => (
            ServerConnection::Disconnected,
            PollAction::ReportDisconnect(DisconnectReason::ConnectionError),
        ),
    }
}

/// What polling a connection hands on: an event that its network task
/// sent, or the report that the connection ended.
pub enum PolledEvent<E> {
    Received(E),
    Disconnected(DisconnectReason),
}

/// The state and the reports after a whole poll of a connection in `state`,
/// whose channel held `pending` and was still open where `channel_open`:
/// an established connection hands on each pending event, in order, and
/// where the channel was closed then reports a connection error and is
/// disconnected; a connection that the client closed reports that and is
/// disconnected; a disconnected one reports nothing.
pub open spec fn poll_report<E>(state: ServerConnection, pending: Seq<E>, channel_open: bool) -> (
    ServerConnection,
    Seq<PolledEvent<E>>,
) {
    let received = pending.map_values(|event: E| PolledEvent::Received(event));
    match state {
        ServerConnection::Connected { .. } => if channel_open {
            (state, received)
        } else {
            (
                ServerConnection::Disconnected,
                received.push(PolledEvent::Disconnected(DisconnectReason::ConnectionError)),
            )
        },
        ServerConnection::ClosingManually => (
            ServerConnection::Disconnected,
            seq![PolledEvent::Disconnected(DisconnectReason::ClosedByClient)],
        ),
        ServerConnection::Disconnected => (state, Seq::empty()),
    }
}

impl ServerConnection {
    /// Whether the connection is established.
    pub open spec fn is_connected_spec(self) -> bool {
        self is Connected
    }

    /// Starts polling the connection for events: an established connection
    /// is to be received from; one that the client closed is reported
    /// closed and becomes disconnected; otherwise there is nothing to do.
    pub fn start_poll(&mut self) -> (action: PollAction)
        ensures
            (*final(self), action) == poll_start(*old(self)),
    {
        match *self {
            ServerConnection::Connected { .. } => PollAction::Receive,
            ServerConnection::ClosingManually => {
                *self = ServerConnection::Disconnected;
                PollAction::ReportDisconnect(DisconnectReason::ClosedByClient)
            },
            ServerConnection::Disconnected => PollAction::Stop,
        }
    }

    /// Takes what receiving from the channel gave: a received event is
    /// forwarded, an empty channel ends the poll, and a closed channel
    /// disconnects with a connection error.
    pub fn receive_outcome(&mut self, outcome: ReceiveOutcome) -> (action: PollAction)
        requires
            *old(self) is Connected,
        ensures
            (*final(self), action) == poll_received(*old(self), outcome),
    {
        match outcome {
            ReceiveOutcome::Received => PollAction::Forward,
            ReceiveOutcome::Empty => PollAction::Stop,
            ReceiveOutcome::ChannelClosed => {
                *self = ServerConnection::Disconnected;
                PollAction::ReportDisconnect(DisconnectReason::ConnectionError)
            },
        }
    }

    /// Polls the connection, whose channel held `pending` (drained in the
    /// order sent) and was still open where `channel_open`: what it hands on
    /// is appended to `buffer`, after what the buffer held.
    pub fn handle_connection<E>(&mut self, pending: Vec<E>, channel_open: bool, buffer: &mut Vec<PolledEvent<E>>)
        ensures
            *final(self) == poll_report(*old(self), pending@, channel_open).0,
            final(buffer)@ == old(buffer)@ + poll_report(*old(self), pending@, channel_open).1,
    {
        let ghost start = *self;
        let ghost sent = pending@;
        let ghost before = buffer@;
        match self.start_poll() {
            PollAction::Receive => {
                let mut pending = pending;
                let total = pending.len();
                let mut k: usize = 0;
                while pending.len() > 0
                    invariant
                        sent.len() == total,
                        k + pending@.len() == sent.len(),
                        pending@ == sent.skip(k as int),
                        buffer@ == before + sent.take(k as int).map_values(|event: E| PolledEvent::Received(event)),
                    decreases pending@.len(),
                {
                    let event = pending.remove(0);
                    let ghost done = buffer@;
                    buffer.push(PolledEvent::Received(event));
                    proof {
                        assert(sent.take(k + 1).map_values(|event: E| PolledEvent::Received(event)) =~= sent.take(
                            k as int,
                        ).map_values(|event: E| PolledEvent::Received(event)).push(PolledEvent::Received(event)));
                        assert(pending@ =~= sent.skip(k + 1));
                    }
                    k += 1;
                }
                assert(sent.take(sent.len() as int) =~= sent);
                if !channel_open {
                    self.receive_outcome(ReceiveOutcome::ChannelClosed);
                    buffer.push(PolledEvent::Disconnected(DisconnectReason::ConnectionError));
                }
            },
            PollAction::ReportDisconnect(reason) => {
                buffer.push(PolledEvent::Disconnected(reason));
            },
            _ => {},
        }
        assert(buffer@ =~= before + poll_report(start, sent, channel_open).1);
    }

    /// Marks the connection as established with `packet_version`, where it
    /// was disconnected; returns whether it was. A connection in any other
    /// state is left as it is.
    pub fn connect(&mut self, packet_version: SupportedPacketVersion) -> (started: bool)
        ensures
            started == (*old(self) is Disconnected),
            started ==> *final(self) == (ServerConnection::Connected { packet_version }),
            !started ==> *final(self) == *old(self),
    {
        match *self {
            ServerConnection::Disconnected => {
                *self = ServerConnection::Connected { packet_version };
                true
            },
            _ => false,
        }
    }

    /// Asks for the connection to be closed; the next poll reports it.
    pub fn disconnect(&mut self)
        ensures
            *final(self) == ServerConnection::ClosingManually,
    {
        *self = ServerConnection::ClosingManually;
    }

    /// Whether the connection is established.
    pub fn is_connected(&self) -> (connected: bool)
        ensures
            connected == self.is_connected_spec(),
    {
        match self {
            ServerConnection::Connected { .. } => true,
            _ => false,
        }
    }

    /// The packet version of an established connection.
    pub fn packet_version(&self) -> (version: Result<SupportedPacketVersion, NotConnectedError>)
        ensures
            match *self {
                ServerConnection::Connected { packet_version } => version == Ok::<
                    SupportedPacketVersion,
                    NotConnectedError,
                >(packet_version),
                _ => version == Err::<SupportedPacketVersion, NotConnectedError>(
                    NotConnectedError,
                ),
            },
    {
        match self {
            ServerConnection::Connected { packet_version } => Ok(*packet_version),
            _ => Err(NotConnectedError),
        }
    }
}

/// A connection that the client closes is reported closed by the client at
/// the next poll, after which it is disconnected and can connect again.
pub proof fn law_disconnect_reported_once()
    ensures
        ({
            let closing = ServerConnection::ClosingManually;
            let (after, action) = poll_start(closing);
            &&& action == PollAction::ReportDisconnect(DisconnectReason::ClosedByClient)
            &&& after == ServerConnection::Disconnected
            &&& poll_start(after) == (after, PollAction::Stop)
        }),
{
}

/// Polling never establishes a connection, and an established connection
/// only ends when its channel closes.
pub proof fn law_poll_never_connects(state: ServerConnection, outcome: ReceiveOutcome)
    ensures
        poll_start(state).0.is_connected_spec() ==> state.is_connected_spec(),
        state.is_connected_spec() ==> (poll_received(state, outcome).0.is_connected_spec()
            <==> outcome != ReceiveOutcome::ChannelClosed),
{
}

/// The connections of the client to the three servers. The channels of an
/// established connection are kept beside it by the caller; this holds the
/// state that decides what each request does.
pub struct NetworkingSystem {
    pub login_server_connection: ServerConnection,
    pub character_server_connection: ServerConnection,
    pub map_server_connection: ServerConnection,
}

impl NetworkingSystem {
    /// All three connections disconnected.
    pub fn new() -> (system: Self)
        ensures
            system.login_server_connection == ServerConnection::Disconnected,
            system.character_server_connection == ServerConnection::Disconnected,
            system.map_server_connection == ServerConnection::Disconnected,
    {
        NetworkingSystem {
            login_server_connection: ServerConnection::Disconnected,
            character_server_connection: ServerConnection::Disconnected,
            map_server_connection: ServerConnection::Disconnected,
        }
    }

    /// Marks the login server connection as established, where it was
    /// disconnected; returns whether it was, and so whether the connection
    /// is to be opened. The other connections are left as they are.
    pub fn connect_to_login_server(&mut self, packet_version: SupportedPacketVersion) -> (started: bool)
        ensures
            started == (old(self).login_server_connection is Disconnected),
            final(self).login_server_connection == (if started {
                ServerConnection::Connected { packet_version }
            } else {
                old(self).login_server_connection
            }),
            final(self).character_server_connection == old(self).character_server_connection,
            final(self).map_server_connection == old(self).map_server_connection,
    {
        self.login_server_connection.connect(packet_version)
    }

    /// Marks the character server connection as established, where it was
    /// disconnected; returns whether it was.
    pub fn connect_to_character_server(&mut self, packet_version: SupportedPacketVersion) -> (started: bool)
        ensures
            started == (old(self).character_server_connection is Disconnected),
            final(self).character_server_connection == (if started {
                ServerConnection::Connected { packet_version }
            } else {
                old(self).character_server_connection
            }),
            final(self).login_server_connection == old(self).login_server_connection,
            final(self).map_server_connection == old(self).map_server_connection,
    {
        self.character_server_connection.connect(packet_version)
    }

    /// Marks the map server connection as established, where it was
    /// disconnected; returns whether it was.
    pub fn connect_to_map_server(&mut self, packet_version: SupportedPacketVersion) -> (started: bool)
        ensures
            started == (old(self).map_server_connection is Disconnected),
            final(self).map_server_connection == (if started {
                ServerConnection::Connected { packet_version }
            } else {
                old(self).map_server_connection
            }),
            final(self).login_server_connection == old(self).login_server_connection,
            final(self).character_server_connection == old(self).character_server_connection,
    {
        self.map_server_connection.connect(packet_version)
    }

    /// Asks for the login server connection to be closed.
    pub fn disconnect_from_login_server(&mut self)
        ensures
            final(self).login_server_connection == ServerConnection::ClosingManually,
            final(self).character_server_connection == old(self).character_server_connection,
            final(self).map_server_connection == old(self).map_server_connection,
    {
        self.login_server_connection.disconnect();
    }

    /// Asks for the character server connection to be closed.
    pub fn disconnect_from_character_server(&mut self)
        ensures
            final(self).character_server_connection == ServerConnection::ClosingManually,
            final(self).login_server_connection == old(self).login_server_connection,
            final(self).map_server_connection == old(self).map_server_connection,
    {
        self.character_server_connection.disconnect();
    }

    /// Asks for the map server connection to be closed.
    pub fn disconnect_from_map_server(&mut self)
        ensures
            final(self).map_server_connection == ServerConnection::ClosingManually,
            final(self).login_server_connection == old(self).login_server_connection,
            final(self).character_server_connection == old(self).character_server_connection,
    {
        self.map_server_connection.disconnect();
    }

    /// Whether the login server connection is established.
    pub fn is_login_server_connected(&self) -> (connected: bool)
        ensures
            connected == self.login_server_connection.is_connected_spec(),
    {
        self.login_server_connection.is_connected()
    }

    /// Whether the character server connection is established.
    pub fn is_character_server_connected(&self) -> (connected: bool)
        ensures
            connected == self.character_server_connection.is_connected_spec(),
    {
        self.character_server_connection.is_connected()
    }

    /// Whether the map server connection is established.
    pub fn is_map_server_connected(&self) -> (connected: bool)
        ensures
            connected == self.map_server_connection.is_connected_spec(),
    {
        self.map_server_connection.is_connected()
    }

    /// The text that a chat message of `player_name` (to everyone, the
    /// party or the guild) sends to the map server: `name : text`; an error
    /// where the map server connection is not established.
    pub fn chat_message_payload(&self, player_name: &str, text: &str) -> (payload: Result<
        String,
        NotConnectedError,
    >)
        ensures
            match payload {
                Ok(message) => self.map_server_connection.is_connected_spec() && message@
                    == player_name@ + " : "@ + text@,
                Err(_) => !self.map_server_connection.is_connected_spec(),
            },
    {
        match self.map_server_packet_version() {
            Ok(_) => {
                let mut message = String::from_str(player_name);
                message.append(" : ");
                message.append(text);
                Ok(message)
            },
            Err(error) => Err(error),
        }
    }

    /// The code that answers a trade request: 3 to accept, 4 to decline;
    /// an error where the map server connection is not established.
    pub fn trade_response_code(&self, accept: bool) -> (code: Result<u8, NotConnectedError>)
        ensures
            match code {
                Ok(c) => self.map_server_connection.is_connected_spec() && c == (if accept {
                    3u8
                } else {
                    4u8
                }),
                Err(_) => !self.map_server_connection.is_connected_spec(),
            },
    {
        match self.map_server_packet_version() {
            Ok(_) => Ok(
                if accept {
                    3
                } else {
                    4
                },
            ),
            Err(error) => Err(error),
        }
    }

    /// The flag that answers a party invitation: 1 to join, 0 to decline;
    /// an error where the map server connection is not established.
    pub fn party_response_flag(&self, accept: bool) -> (flag: Result<u8, NotConnectedError>)
        ensures
            match flag {
                Ok(f) => self.map_server_connection.is_connected_spec() && f == (if accept {
                    1u8
                } else {
                    0u8
                }),
                Err(_) => !self.map_server_connection.is_connected_spec(),
            },
    {
        match self.map_server_packet_version() {
            Ok(_) => Ok(
                if accept {
                    1
                } else {
                    0
                },
            ),
            Err(error) => Err(error),
        }
    }

    /// The packet version of the character server connection; every
    /// request to the character server fails with this error while it is
    /// not established.
    pub fn character_server_packet_version(&self) -> (version: Result<
        SupportedPacketVersion,
        NotConnectedError,
    >)
        ensures
            match self.character_server_connection {
                ServerConnection::Connected { packet_version } => version == Ok::<
                    SupportedPacketVersion,
                    NotConnectedError,
                >(packet_version),
                _ => version == Err::<SupportedPacketVersion, NotConnectedError>(
                    NotConnectedError,
                ),
            },
    {
        self.character_server_connection.packet_version()
    }

    /// The packet version of the map server connection; every request to
    /// the map server fails with this error while it is not established.
    pub fn map_server_packet_version(&self) -> (version: Result<
        SupportedPacketVersion,
        NotConnectedError,
    >)
        ensures
            match self.map_server_connection {
                ServerConnection::Connected { packet_version } => version == Ok::<
                    SupportedPacketVersion,
                    NotConnectedError,
                >(packet_version),
                _ => version == Err::<SupportedPacketVersion, NotConnectedError>(
                    NotConnectedError,
                ),
            },
    {
        self.map_server_connection.packet_version()
    }
}

} // verus!
