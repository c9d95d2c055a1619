use crate::protocol::{Delivery, Outgoing, ServerMessage};
use std::collections::HashMap;
use vstd::prelude::*;
use vstd::std_specs::iter::IteratorSpec;

verus! {

broadcast use vstd::std_specs::hash::group_hash_axioms;

/// The id under which a client playing alone, without a server, keeps its
/// own player.
pub const LOCAL_CLIENT_ID: u64 = 0;

/// The players in the game: each client's id mapped to the id of the entity
/// that shows that player.
pub struct Lobby {
    players: HashMap<u64, u64>,
}

/// What a client must do to its scene after a message from the server.
#[derive(Clone, Copy, Debug, PartialEq, Eq)]
pub enum LobbyAction {
    /// Spawn an entity for the player with this id, then record it with
    /// [`Lobby::player_spawned`].
    SpawnPlayer { id: u64 },
    /// Remove this entity from the scene.
    Despawn { entity: u64 },
    /// Nothing to do.
    Nothing,
}

/// What a client does with one entry of a position update from the server.
#[derive(Clone, Copy, Debug, PartialEq, Eq)]
pub enum SyncAction {
    /// Move this entity, which shows the player, to the reported position.
    Move { entity: u64 },
    /// Spawn an entity for a player not seen yet, at the reported position,
    /// and record it with [`Lobby::player_spawned`].
    Spawn,
    /// Leave the entry unused.
    Ignore,
}

/// The message that tells client `to` that player `id` is in the game.
pub open spec fn introduction(to: u64, id: u64) -> Outgoing {
    Outgoing { delivery: Delivery::ToClient(to), message: ServerMessage::PlayerConnected { id } }
}

/// The message that tells every client that player `id` joined.
pub open spec fn arrival(id: u64) -> Outgoing {
    Outgoing { delivery: Delivery::Broadcast, message: ServerMessage::PlayerConnected { id } }
}

/// The message that tells every client that player `id` left.
pub open spec fn departure(id: u64) -> Outgoing {
    Outgoing { delivery: Delivery::Broadcast, message: ServerMessage::PlayerDisconnected { id } }
}

/// One introduction to client `to` for each id of `ids`, in that order.
pub open spec fn introductions(to: u64, ids: Seq<u64>) -> Seq<Outgoing> {
    ids.map_values(|id: u64| introduction(to, id))
}

/// `out` is what the server sends when client `client_id` connects to a game
/// whose players were `before`: the newcomer is introduced to each player
/// already there, once each and in some order, and then everyone is told of
/// the newcomer.
pub open spec fn welcome_messages(before: Map<u64, u64>, client_id: u64, out: Seq<Outgoing>) -> bool {
    exists|ids: Seq<u64>|
        #![trigger introductions(client_id, ids)]
        {
            &&& ids.no_duplicates()
            &&& ids.to_set() == before.dom()
            &&& out == introductions(client_id, ids).push(arrival(client_id))
        }
}

/// What a client does with an update entry for player `id`: move the
/// player's entity if it is known; before the first update has been handled,
/// spawn players not yet known; afterwards ignore them.
pub open spec fn sync_action(players: Map<u64, u64>, id: u64, initial_sync_done: bool) -> SyncAction {
    if players.contains_key(id) {
        SyncAction::Move { entity: players[id] }
    } else if !initial_sync_done {
        SyncAction::Spawn
    } else {
        SyncAction::Ignore
    }
}

/// Whether the first position update counts as handled after one more
/// update was planned: always.
pub open spec fn sync_done_after_update(done: bool) -> bool {
    true
}

/// Whether the first position update counts as handled after `n` more
/// updates were planned with [`Lobby::plan_sync`], starting from `done`.
pub open spec fn sync_done_after_updates(done: bool, n: nat) -> bool
    decreases n,
{
    if n == 0 {
        done
    } else {
        sync_done_after_update(sync_done_after_updates(done, (n - 1) as nat))
    }
}

/// The entity recorded for `id`, if any.
pub open spec fn entity_of(players: Map<u64, u64>, id: u64) -> Option<u64> {
    if players.contains_key(id) {
        Some(players[id])
    } else {
        None
    }
}

impl View for Lobby {
    type V = Map<u64, u64>;

    closed spec fn view(&self) -> Map<u64, u64> {
        self.players@
    }
}

impl Lobby {
    /// A lobby with nobody in it.
    pub fn new() -> (lobby: Lobby)
        ensures
            lobby@ == Map::<u64, u64>::empty(),
            lobby@.dom().finite(),
    {
        Lobby { players: HashMap::new() }
    }

    /// The number of players.
    pub fn len(&self) -> (n: usize)
        ensures
            n == self@.len(),
    {
        self.players.len()
    }

    /// Whether nobody is in the lobby.
    pub fn is_empty(&self) -> (empty: bool)
        ensures
            empty == self@.is_empty(),
    {
        self.players.is_empty()
    }

    /// Whether the player `id` is in the lobby.
    pub fn contains(&self, id: u64) -> (found: bool)
        ensures
            found == self@.contains_key(id),
    {
        self.players.contains_key(&id)
    }

    /// The entity that shows player `id`, if the player is in the lobby.
    pub fn get(&self, id: u64) -> (entity: Option<u64>)
        ensures
            entity == entity_of(self@, id),
    {
        match self.players.get(&id) {
            Some(e) => Some(*e),
            None => None,
        }
    }

    /// Records that `entity` shows player `id`, replacing any entity recorded
    /// for that player before, which is returned.
    pub fn insert(&mut self, id: u64, entity: u64) -> (replaced: Option<u64>)
        ensures
            final(self)@ == old(self)@.insert(id, entity),
            replaced == entity_of(old(self)@, id),
    {
        self.players.insert(id, entity)
    }

    /// Takes player `id` out of the lobby and returns the entity that showed
    /// it, if the player was there.
    pub fn remove(&mut self, id: u64) -> (removed: Option<u64>)
        ensures
            final(self)@ == old(self)@.remove(id),
            removed == entity_of(old(self)@, id),
    {
        self.players.remove(&id)
    }

    /// The ids of the players in the lobby, each once, in no particular order.
    pub fn player_ids(&self) -> (ids: Vec<u64>)
        ensures
            ids@.no_duplicates(),
            ids@.to_set() == self@.dom(),
            ids@.len() == self@.dom().len(),
    {
        let ghost keys = vstd::std_specs::hash::spec_keys_iter(&self.players).remaining();
        let mut ids: Vec<u64> = Vec::new();
        for k in it: self.players.keys()
            invariant
                it.seq() == keys,
                ids@ == keys.take(it.index()).unref(),
        {
            ids.push(*k);
            assert(ids@ =~= keys.take(it.index() + 1).unref());
        }
        assert(ids@ =~= keys.unref());
        ids
    }

    /// The server's handling of a newly connected client, shown by `entity`:
    /// it tells the newcomer about every player already in the game, adds the
    /// newcomer to the lobby and tells everyone about the newcomer.
    pub fn on_client_connected(&mut self, client_id: u64, entity: u64) -> (out: Vec<Outgoing>)
        ensures
            final(self)@ == old(self)@.insert(client_id, entity),
            welcome_messages(old(self)@, client_id, out@),
            out@.len() == old(self)@.len() + 1,
            out@.last() == (Outgoing {
                delivery: Delivery::Broadcast,
                message: ServerMessage::PlayerConnected { id: client_id },
            }),
            forall|i: int|
                0 <= i < out@.len() - 1 ==> {
                    &&& (#[trigger] out@[i]).delivery == Delivery::ToClient(client_id)
                    &&& out@[i].message matches ServerMessage::PlayerConnected { id } && old(
                        self,
                    )@.contains_key(id)
                },
            forall|id: u64|
                #[trigger] old(self)@.contains_key(id) ==> exists|i: int|
                    0 <= i < out@.len() - 1 && #[trigger] out@[i] == (Outgoing {
                        delivery: Delivery::ToClient(client_id),
                        message: ServerMessage::PlayerConnected { id },
                    }),
            forall|i: int, j: int| 0 <= i < j < out@.len() ==> #[trigger] out@[i] != #[trigger] out@[j],
    {
        proof {
            lemma_lobby_finite(self);
        }
        let ghost before = self@;
        let ids = self.player_ids();
        let mut out: Vec<Outgoing> = Vec::new();
        let mut i: usize = 0;
        while i < ids.len()
            invariant
                i <= ids@.len(),
                out@ == introductions(client_id, ids@.take(i as int)),
            decreases ids@.len() - i,
        {
            out.push(
                Outgoing {
                    delivery: Delivery::ToClient(client_id),
                    message: ServerMessage::PlayerConnected { id: ids[i] },
                },
            );
            assert(ids@.take(i + 1) =~= ids@.take(i as int).push(ids@[i as int]));
            i = i + 1;
            assert(out@ =~= introductions(client_id, ids@.take(i as int)));
        }
        assert(ids@.take(i as int) =~= ids@);
        self.insert(client_id, entity);
        out.push(
            Outgoing {
                delivery: Delivery::Broadcast,
                message: ServerMessage::PlayerConnected { id: client_id },
            },
        );
        assert(out@ == introductions(client_id, ids@).push(arrival(client_id)));
        proof {
            lemma_welcome_introduces_each_player_once(before, client_id, out@);
        }
        out
    }

    /// The server's handling of a client that left: the client is taken out
    /// of the lobby, its entity (if it had one) is to be despawned, and
    /// everyone is told that it left.
    pub fn on_client_disconnected(&mut self, client_id: u64) -> (result: (Option<u64>, Outgoing))
        ensures
            final(self)@ == old(self)@.remove(client_id),
            result.0 == entity_of(old(self)@, client_id),
            result.1 == departure(client_id),
    {
        let removed = self.remove(client_id);
        (
            removed,
            Outgoing {
                delivery: Delivery::Broadcast,
                message: ServerMessage::PlayerDisconnected { id: client_id },
            },
        )
    }

    /// A client's handling of a message from the server. A player that
    /// connected is to be spawned (the lobby is updated once its entity
    /// exists); a player that left is taken out of the lobby and its entity,
    /// if it had one, is to be despawned.
    pub fn on_server_message(&mut self, message: ServerMessage) -> (action: LobbyAction)
        ensures
            match message {
                ServerMessage::PlayerConnected { id } => {
                    &&& final(self)@ == old(self)@
                    &&& action == LobbyAction::SpawnPlayer { id }
                },
                ServerMessage::PlayerDisconnected { id } => {
                    &&& final(self)@ == old(self)@.remove(id)
                    &&& action == match entity_of(old(self)@, id) {
                        Some(entity) => LobbyAction::Despawn { entity },
                        None => LobbyAction::Nothing,
                    }
                },
            },
    {
        match message {
            ServerMessage::PlayerConnected { id } => LobbyAction::SpawnPlayer { id },
            ServerMessage::PlayerDisconnected { id } => match self.remove(id) {
                Some(entity) => LobbyAction::Despawn { entity },
                None => LobbyAction::Nothing,
            },
        }
    }

    /// Records the entity spawned for player `id`, replacing (and returning)
    /// any entity recorded for that player before.
    pub fn player_spawned(&mut self, id: u64, entity: u64) -> (replaced: Option<u64>)
        ensures
            final(self)@ == old(self)@.insert(id, entity),
            replaced == entity_of(old(self)@, id),
    {
        self.insert(id, entity)
    }

    /// What to do with each entry of a position update from the server, whose
    /// player ids are `ids`: known players move; players not known yet are
    /// spawned unless the first update has already been handled. Afterwards
    /// the first update counts as handled.
    pub fn plan_sync(&self, ids: &Vec<u64>, initial_sync_done: &mut bool) -> (plan: Vec<SyncAction>)
        ensures
            plan@.len() == ids@.len(),
            forall|i: int|
                0 <= i < ids@.len() ==> #[trigger] plan@[i] == sync_action(
                    self@,
                    ids@[i],
                    *old(initial_sync_done),
                ),
            *final(initial_sync_done) == sync_done_after_update(*old(initial_sync_done)),
            *final(initial_sync_done),
            forall|i: int|
                0 <= i < ids@.len() ==> {
                    &&& self@.contains_key(ids@[i]) ==> #[trigger] plan@[i] == (SyncAction::Move {
                        entity: self@[ids@[i]],
                    })
                    &&& !self@.contains_key(ids@[i]) && !*old(initial_sync_done) ==> plan@[i]
                        == SyncAction::Spawn
                    &&& !self@.contains_key(ids@[i]) && *old(initial_sync_done) ==> plan@[i]
                        == SyncAction::Ignore
                },
    {
        let done = *initial_sync_done;
        let mut plan: Vec<SyncAction> = Vec::new();
        let mut i: usize = 0;
        while i < ids.len()
            invariant
                i <= ids@.len(),
                plan@.len() == i,
                forall|j: int|
                    0 <= j < i ==> #[trigger] plan@[j] == sync_action(self@, ids@[j], done),
            decreases ids@.len() - i,
        {
            let action = match self.get(ids[i]) {
                Some(entity) => SyncAction::Move { entity },
                None => if !done {
                    SyncAction::Spawn
                } else {
                    SyncAction::Ignore
                },
            };
            plan.push(action);
            i = i + 1;
        }
        *initial_sync_done = true;
        plan
    }

    /// Whether a client playing alone still has to spawn its own player: true
    /// exactly when the lobby is empty.
    pub fn needs_local_player(&self) -> (needed: bool)
        ensures
            needed == self@.is_empty(),
    {
        self.is_empty()
    }

    /// The entity of the player of a client playing alone, if it exists.
    pub fn local_player(&self) -> (entity: Option<u64>)
        ensures
            entity == entity_of(self@, LOCAL_CLIENT_ID),
    {
        self.get(LOCAL_CLIENT_ID)
    }
}

/// A read after a write: once `entity` is recorded for `id`, looking `id` up
/// gives `entity`, and every other player is looked up as before.
pub proof fn lemma_get_after_insert(players: Map<u64, u64>, id: u64, entity: u64, other: u64)
    ensures
        entity_of(players.insert(id, entity), id) == Some(entity),
        other != id ==> entity_of(players.insert(id, entity), other) == entity_of(players, other),
{
}

/// Once player `id` is removed, looking it up gives nothing, and every other
/// player is looked up as before.
pub proof fn lemma_get_after_remove(players: Map<u64, u64>, id: u64, other: u64)
    ensures
        entity_of(players.remove(id), id) == None::<u64>,
        other != id ==> entity_of(players.remove(id), other) == entity_of(players, other),
{
}

/// A client that connects to the server and then leaves, without having
/// been in the game before, leaves the lobby as it found it.
pub proof fn lemma_connect_then_disconnect_restores(players: Map<u64, u64>, client_id: u64, entity: u64)
    requires
        !players.contains_key(client_id),
    ensures
        players.insert(client_id, entity).remove(client_id) == players,
        entity_of(players.insert(client_id, entity), client_id) == Some(entity),
{
    assert(players.insert(client_id, entity).remove(client_id) =~= players);
}

/// Once the first update has been handled, an update never spawns a player:
/// each entry moves a known player or is ignored.
pub proof fn lemma_no_spawn_after_initial_sync(players: Map<u64, u64>, id: u64)
    ensures
        sync_action(players, id, true) != SyncAction::Spawn,
        players.contains_key(id) <==> sync_action(players, id, true) == (SyncAction::Move { entity: players[id] }),
{
}

/// The welcome a newcomer gets holds one message per player already in the
/// game, plus the one announcing the newcomer.
pub proof fn lemma_welcome_count(before: Map<u64, u64>, client_id: u64, out: Seq<Outgoing>)
    requires
        welcome_messages(before, client_id, out),
    ensures
        out.len() == before.len() + 1,
        out.last() == arrival(client_id),
        forall|i: int| 0 <= i < out.len() - 1 ==> (#[trigger] out[i]).delivery == Delivery::ToClient(client_id),
{
    let ids = choose|ids: Seq<u64>|
        #![trigger introductions(client_id, ids)]
        {
            &&& ids.no_duplicates()
            &&& ids.to_set() == before.dom()
            &&& out == introductions(client_id, ids).push(arrival(client_id))
        };
    ids.unique_seq_to_set();
}

/// Across any number of position updates the flag never goes back: after
/// `n` updates the first update counts as handled exactly when it did
/// before or `n > 0`. The first update spawns every player it names that is
/// not known yet; later ones spawn nobody.
pub proof fn lemma_initial_sync_over_updates(
    players: Map<u64, u64>,
    ids: Seq<u64>,
    done: bool,
    n: nat,
)
    ensures
        sync_done_after_updates(done, n) == (done || n > 0),
        forall|i: int|
            0 <= i < ids.len() && !players.contains_key(ids[i]) ==> #[trigger] sync_action(
                players,
                ids[i],
                false,
            ) == SyncAction::Spawn,
        forall|i: int|
            0 <= i < ids.len() ==> #[trigger] sync_action(players, ids[i], true)
                != SyncAction::Spawn,
    decreases n,
{
    if n > 0 {
        lemma_initial_sync_over_updates(players, ids, done, (n - 1) as nat);
    }
}

/// What a newcomer's welcome holds, message by message: one introduction
/// to the newcomer for each player already in the game and for nobody else,
/// no message twice, and last the announcement of the newcomer to everyone.
pub proof fn lemma_welcome_introduces_each_player_once(
    before: Map<u64, u64>,
    client_id: u64,
    out: Seq<Outgoing>,
)
    requires
        welcome_messages(before, client_id, out),
    ensures
        before.dom().finite(),
        out.len() == before.len() + 1,
        out.last() == (Outgoing {
            delivery: Delivery::Broadcast,
            message: ServerMessage::PlayerConnected { id: client_id },
        }),
        forall|i: int|
            0 <= i < out.len() - 1 ==> {
                &&& (#[trigger] out[i]).delivery == Delivery::ToClient(client_id)
                &&& out[i].message matches ServerMessage::PlayerConnected { id }
                    && before.contains_key(id)
            },
        forall|id: u64|
            #[trigger] before.contains_key(id) ==> exists|i: int|
                0 <= i < out.len() - 1 && #[trigger] out[i] == (Outgoing {
                    delivery: Delivery::ToClient(client_id),
                    message: ServerMessage::PlayerConnected { id },
                }),
        forall|i: int, j: int| 0 <= i < j < out.len() ==> #[trigger] out[i] != #[trigger] out[j],
{
    let ids = choose|ids: Seq<u64>|
        #![trigger introductions(client_id, ids)]
        {
            &&& ids.no_duplicates()
            &&& ids.to_set() == before.dom()
            &&& out == introductions(client_id, ids).push(arrival(client_id))
        };
    ids.unique_seq_to_set();
    assert(before.dom().finite());
    assert forall|i: int|
        0 <= i < out.len() - 1 implies {
            &&& (#[trigger] out[i]).delivery == Delivery::ToClient(client_id)
            &&& out[i].message matches ServerMessage::PlayerConnected { id }
                && before.contains_key(id)
        } by {
        assert(out[i] == introduction(client_id, ids[i]));
        assert(ids.to_set().contains(ids[i]));
    }
    assert forall|id: u64| #[trigger] before.contains_key(id) implies exists|i: int|
        0 <= i < out.len() - 1 && #[trigger] out[i] == (Outgoing {
            delivery: Delivery::ToClient(client_id),
            message: ServerMessage::PlayerConnected { id },
        }) by {
        assert(ids.to_set().contains(id));
        let i = choose|i: int| 0 <= i < ids.len() && ids[i] == id;
        assert(out[i] == introduction(client_id, ids[i]));
    }
    assert forall|i: int, j: int| 0 <= i < j < out.len() implies #[trigger] out[i] != #[trigger] out[j] by {
        if j < out.len() - 1 {
            assert(out[i] == introduction(client_id, ids[i]));
            assert(out[j] == introduction(client_id, ids[j]));
        } else {
            assert(out[i] == introduction(client_id, ids[i]));
        }
    }
}

/// What a client does with an update entry, in every case: a player it
/// knows is moved to the entity recorded for it, whether or not the first
/// update was handled; a player it does not know is spawned before the first
/// update was handled and ignored afterwards.
pub proof fn lemma_sync_action_cases(players: Map<u64, u64>, id: u64, done: bool)
    ensures
        players.contains_key(id) ==> sync_action(players, id, done) == (SyncAction::Move {
            entity: players[id],
        }),
        !players.contains_key(id) && !done ==> sync_action(players, id, done) == SyncAction::Spawn,
        !players.contains_key(id) && done ==> sync_action(players, id, done) == SyncAction::Ignore,
{
}

/// A lobby holds finitely many players.
pub proof fn lemma_lobby_finite(lobby: &Lobby)
    ensures
        lobby@.dom().finite(),
{
}

/// The server's lobby follows the set of connected clients: if its players
/// are exactly the connected clients, they still are after a client connects
/// (and is recorded with [`Lobby::on_client_connected`]) or leaves (and is
/// removed with [`Lobby::on_client_disconnected`]). If no entity is shown
/// for two players and a newcomer gets an entity no player has, still no
/// entity is shown for two players.
pub proof fn lemma_lobby_tracks_connections(
    players: Map<u64, u64>,
    connected: Set<u64>,
    client_id: u64,
    entity: u64,
)
    requires
        players.dom() == connected,
    ensures
        players.insert(client_id, entity).dom() == connected.insert(client_id),
        players.remove(client_id).dom() == connected.remove(client_id),
        (forall|a: u64, b: u64|
            #![trigger players[a], players[b]]
            players.contains_key(a) && players.contains_key(b) && a != b ==> players[a] != players[b])
            && (forall|a: u64| #[trigger] players.contains_key(a) ==> players[a] != entity)
            ==> (forall|a: u64, b: u64|
            #![trigger players.insert(client_id, entity)[a], players.insert(client_id, entity)[b]]
            players.insert(client_id, entity).contains_key(a) && players.insert(
                client_id,
                entity,
            ).contains_key(b) && a != b ==> players.insert(client_id, entity)[a] != players.insert(
                client_id,
                entity,
            )[b]),
{
    assert(players.insert(client_id, entity).dom() =~= connected.insert(client_id));
    assert(players.remove(client_id).dom() =~= connected.remove(client_id));
}

} // verus!
