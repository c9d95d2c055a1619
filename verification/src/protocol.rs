use vstd::prelude::*;

verus! {

/// Identifies the game's protocol to the transport; client and server must
/// agree on it.
pub const PROTOCOL_ID: u64 = 7;

/// How many clients the server admits at once.
pub const MAX_CLIENTS: usize = 64;

/// The port the server listens on and clients connect to by default.
pub const DEFAULT_SERVER_PORT: u16 = 5000;

/// A reliable, ordered message from the server about who is in the game.
#[derive(Clone, Copy, Debug, PartialEq, Eq)]
pub enum ServerMessage {
    PlayerConnected { id: u64 },
    PlayerDisconnected { id: u64 },
}

/// To whom an outgoing message goes.
#[derive(Clone, Copy, Debug, PartialEq, Eq)]
pub enum Delivery {
    /// To one client only.
    ToClient(u64),
    /// To every connected client.
    Broadcast,
}

/// A message the server has decided to send, and to whom.
#[derive(Clone, Copy, Debug, PartialEq, Eq)]
pub struct Outgoing {
    pub delivery: Delivery,
    pub message: ServerMessage,
}

} // verus!
