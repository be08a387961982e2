//! Client connection state.
use vstd::prelude::*;

use crate::net::{IpAddress, SocketAddress};

verus! {

/// Client state.
///
/// Note: this does not keep track of encryption states.
#[derive(Debug)]
pub struct Client {
    /// Client peer address.
    pub peer: SocketAddress,
    /// Current client state.
    pub state: ClientState,
    /// Compression state: the threshold if 0 or positive, disabled if negative.
    pub compression: i32,
}

impl Client {
    /// Construct new client with given peer address.
    pub fn new(peer: SocketAddress) -> (res: Self)
        ensures
            res.peer == peer,
            res.state == ClientState::Handshake,
            res.compression == -1,
    {
        Self { peer, state: ClientState::Handshake, compression: -1 }
    }

    /// Construct dummy client, with peer address 0.0.0.0:0.
    pub fn dummy() -> (res: Self)
        ensures
            res.peer == (SocketAddress { ip: IpAddress::V4(0), port: 0 }),
            res.state == ClientState::Handshake,
            res.compression == -1,
    {
        Self::new(SocketAddress { ip: IpAddress::V4(0), port: 0 })
    }

    /// Get client state.
    pub fn state(&self) -> (res: ClientState)
        ensures
            res == self.state,
    {
        self.state
    }

    /// Set client state.
    pub fn set_state(&mut self, state: ClientState)
        ensures
            final(self).state == state,
            final(self).peer == old(self).peer,
            final(self).compression == old(self).compression,
    {
        self.state = state;
    }

    /// Get compression threshold.
    pub fn compressed(&self) -> (res: i32)
        ensures
            res == self.compression,
    {
        self.compression
    }

    /// Whether compression is used.
    pub fn is_compressed(&self) -> (res: bool)
        ensures
            res == (self.compression >= 0),
    {
        self.compressed() >= 0
    }

    /// Set compression value.
    pub fn set_compression(&mut self, threshold: i32)
        ensures
            final(self).compression == threshold,
            final(self).peer == old(self).peer,
            final(self).state == old(self).state,
    {
        self.compression = threshold;
    }
}

/// Protocol state a client may be in.
///
/// Note: the `Play` state is never reached through a handshake; lazymc only enters it
/// itself once a client logged in.
#[derive(Debug, Copy, Clone, PartialEq, Eq, Structural)]
pub enum ClientState {
    /// Initial client state.
    Handshake,
    /// State to query server status.
    Status,
    /// State to login to server.
    Login,
    /// State to play on the server.
    Play,
}

/// The state ID of a state, as the handshake's next state field holds it.
pub open spec fn spec_state_id(state: ClientState) -> i32 {
    match state {
        ClientState::Handshake => 0,
        ClientState::Status => 1,
        ClientState::Login => 2,
        ClientState::Play => -1i32,
    }
}

/// The state a state ID names, if any.
pub open spec fn spec_state_from_id(id: i32) -> Option<ClientState> {
    if id == 0 {
        Some(ClientState::Handshake)
    } else if id == 1 {
        Some(ClientState::Status)
    } else if id == 2 {
        Some(ClientState::Login)
    } else {
        None
    }
}

impl ClientState {
    /// From state ID.
    pub fn from_id(id: i32) -> (res: Option<Self>)
        ensures
            res == spec_state_from_id(id),
    {
        match id {
            0 => Some(Self::Handshake),
            1 => Some(Self::Status),
            2 => Some(Self::Login),
            _ => None,
        }
    }

    /// Get state ID.
    pub fn to_id(self) -> (res: i32)
        ensures
            res == spec_state_id(self),
    {
        match self {
            Self::Handshake => 0,
            Self::Status => 1,
            Self::Login => 2,
            Self::Play => -1,
        }
    }
}

/// A state ID read back gives the state it was taken from, for every state a handshake can
/// name (all but `Play`); an ID that names a state is that state's ID.
pub proof fn lemma_client_state_id_roundtrip(state: ClientState, id: i32)
    ensures
        state != ClientState::Play ==> spec_state_from_id(spec_state_id(state)) == Some(state),
        spec_state_from_id(spec_state_id(ClientState::Play)) is None,
        spec_state_from_id(id) matches Some(s) ==> spec_state_id(s) == id,
{
}

impl Default for ClientState {
    fn default() -> (res: Self)
        ensures
            res == ClientState::Handshake,
    {
        Self::Handshake
    }
}

/// A handshake as received from a client.
#[derive(Debug, Clone)]
pub struct Handshake {
    /// Protocol version of the client.
    pub protocol_version: i32,
    /// Server address the client connects to.
    pub server_addr: String,
    /// Server port the client connects to.
    pub server_port: u16,
    /// State ID the client switches to.
    pub next_state: i32,
}

/// Client info, useful during connection handling.
#[derive(Debug, Clone)]
pub struct ClientInfo {
    /// Used protocol version.
    pub protocol: Option<u32>,
    /// Handshake as received from client.
    pub handshake: Option<Handshake>,
    /// Client username.
    pub username: Option<String>,
}

impl ClientInfo {
    /// Client info that knows nothing yet.
    pub fn empty() -> (res: Self)
        ensures
            res.protocol is None,
            res.handshake is None,
            res.username is None,
    {
        Self { protocol: None, handshake: None, username: None }
    }

    /// Get protocol version: the one set, else the one of the handshake.
    pub fn protocol(&self) -> (res: Option<u32>)
        ensures
            res == match self.protocol {
                Some(p) => Some(p),
                None => match self.handshake {
                    Some(h) => Some(h.protocol_version as u32),
                    None => None,
                },
            },
    {
        match self.protocol {
            Some(p) => Some(p),
            None => match &self.handshake {
                Some(h) => Some(h.protocol_version as u32),
                None => None,
            },
        }
    }
}

} // verus!
