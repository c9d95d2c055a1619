//! Verified game logic of a small networked multiplayer game: the player
//! lobby shared by server and clients, the messages the server sends, the
//! movement input, sprite animation, connection retries and the periodic
//! connection check.
pub mod animation;
pub mod input;
pub mod protocol;
pub mod lobby;
pub mod config;
pub mod connect;
pub mod timing;
