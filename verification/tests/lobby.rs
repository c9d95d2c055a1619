use multiplayer_bevy::lobby::{Lobby, LobbyAction, SyncAction, LOCAL_CLIENT_ID};
use multiplayer_bevy::protocol::{Delivery, Outgoing, ServerMessage};

#[test]
fn insert_get_remove() {
    let mut lobby = Lobby::new();
    assert!(lobby.is_empty());
    assert_eq!(lobby.insert(7, 100), None);
    assert_eq!(lobby.get(7), Some(100));
    assert_eq!(lobby.insert(7, 101), Some(100));
    assert_eq!(lobby.get(7), Some(101));
    assert_eq!(lobby.len(), 1);
    assert!(lobby.contains(7));
    assert_eq!(lobby.remove(7), Some(101));
    assert_eq!(lobby.get(7), None);
    assert_eq!(lobby.remove(7), None);
    assert!(lobby.is_empty());
}

#[test]
fn player_ids_lists_each_player_once() {
    let mut lobby = Lobby::new();
    lobby.insert(3, 30);
    lobby.insert(1, 10);
    lobby.insert(2, 20);
    let mut ids = lobby.player_ids();
    ids.sort();
    assert_eq!(ids, vec![1, 2, 3]);
}

#[test]
fn newcomer_is_introduced_to_everyone() {
    let mut lobby = Lobby::new();
    lobby.insert(1, 10);
    lobby.insert(2, 20);
    let out = lobby.on_client_connected(5, 50);
    assert_eq!(out.len(), 3);
    let mut introduced: Vec<u64> = out[..2]
        .iter()
        .map(|o| {
            assert_eq!(o.delivery, Delivery::ToClient(5));
            match o.message {
                ServerMessage::PlayerConnected { id } => id,
                other => panic!("unexpected message {:?}", other),
            }
        })
        .collect();
    introduced.sort();
    assert_eq!(introduced, vec![1, 2]);
    assert_eq!(
        out[2],
        Outgoing { delivery: Delivery::Broadcast, message: ServerMessage::PlayerConnected { id: 5 } }
    );
    assert_eq!(lobby.get(5), Some(50));
    assert_eq!(lobby.len(), 3);
}

#[test]
fn first_player_only_gets_the_broadcast() {
    let mut lobby = Lobby::new();
    let out = lobby.on_client_connected(9, 90);
    assert_eq!(
        out,
        vec![Outgoing { delivery: Delivery::Broadcast, message: ServerMessage::PlayerConnected { id: 9 } }]
    );
}

#[test]
fn disconnect_despawns_and_announces() {
    let mut lobby = Lobby::new();
    lobby.on_client_connected(4, 40);
    let (despawn, notice) = lobby.on_client_disconnected(4);
    assert_eq!(despawn, Some(40));
    assert_eq!(
        notice,
        Outgoing { delivery: Delivery::Broadcast, message: ServerMessage::PlayerDisconnected { id: 4 } }
    );
    assert!(lobby.is_empty());
    let (despawn, _) = lobby.on_client_disconnected(4);
    assert_eq!(despawn, None);
}

#[test]
fn connect_then_disconnect_restores_lobby() {
    let mut lobby = Lobby::new();
    lobby.insert(1, 10);
    lobby.on_client_connected(2, 20);
    lobby.on_client_disconnected(2);
    assert_eq!(lobby.player_ids(), vec![1]);
    assert_eq!(lobby.get(1), Some(10));
}

#[test]
fn client_reacts_to_server_messages() {
    let mut lobby = Lobby::new();
    assert_eq!(
        lobby.on_server_message(ServerMessage::PlayerConnected { id: 8 }),
        LobbyAction::SpawnPlayer { id: 8 }
    );
    assert!(lobby.is_empty());
    assert_eq!(lobby.player_spawned(8, 80), None);
    assert_eq!(
        lobby.on_server_message(ServerMessage::PlayerDisconnected { id: 8 }),
        LobbyAction::Despawn { entity: 80 }
    );
    assert_eq!(
        lobby.on_server_message(ServerMessage::PlayerDisconnected { id: 8 }),
        LobbyAction::Nothing
    );
}

#[test]
fn first_sync_spawns_unknown_players() {
    let mut lobby = Lobby::new();
    lobby.insert(1, 10);
    let mut done = false;
    let plan = lobby.plan_sync(&vec![1, 2], &mut done);
    assert_eq!(plan, vec![SyncAction::Move { entity: 10 }, SyncAction::Spawn]);
    assert!(done);
}

#[test]
fn later_sync_ignores_unknown_players() {
    let mut lobby = Lobby::new();
    lobby.insert(1, 10);
    let mut done = true;
    let plan = lobby.plan_sync(&vec![2, 1], &mut done);
    assert_eq!(plan, vec![SyncAction::Ignore, SyncAction::Move { entity: 10 }]);
    assert!(done);
}

#[test]
fn local_player_is_spawned_once() {
    let mut lobby = Lobby::new();
    assert!(lobby.needs_local_player());
    assert_eq!(lobby.local_player(), None);
    lobby.insert(LOCAL_CLIENT_ID, 1234);
    assert!(!lobby.needs_local_player());
    assert_eq!(lobby.local_player(), Some(1234));
}
