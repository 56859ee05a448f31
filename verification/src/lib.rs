//! Matchmaking and score keeping for a small two-player game service.
//!
//! Clients register, offer a match, join a match by its name, score, and ask
//! where they stand. `store` holds the state and the five operations,
//! `protocol` the requests, the answers and the function between them, and
//! `transport` what is decided before a request reaches the store. `model`
//! says what all of it means, `laws` what follows.

pub mod game;
pub mod ident;
pub mod laws;
pub mod model;
pub mod names;
pub mod preservation;
pub mod protocol;
pub mod records;
pub mod search;
pub mod store;
pub mod transport;

pub use game::GameState;
pub use ident::{next_id, Id, IdAllocator};
pub use names::name_for;
pub use protocol::{accepts, handle_client_action, ClientAction, ServerAction};
pub use records::{Game, GameData, Player, PlayerData, WaitingGame};
pub use store::{gen_waiting_game, MachBackend, StateCheckResponse};
pub use transport::{body_text, route, ClientError, Method, Route};
