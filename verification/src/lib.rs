//! Party roster engine: slot assignment, the active-player cursor, capacity
//! policy, gap collapsing, and the decisions of the start-up reconciliation
//! between the roster, the durable player records and the live players.

pub mod error;
pub mod ids;
pub mod plugin;
pub mod player;
pub mod slots;
pub mod party;
pub mod component;
pub mod census;
pub mod edits;
pub mod sync;
pub mod startup;
pub mod events;

pub use error::{PlayerFault, PlayerHandlerError};
pub use component::{PlayerComponent, PlayerIdentity};
pub use events::{on_player_component_removal, on_player_component_spawned};
pub use party::Party;
pub use player::{
    Player, PlayerAiLocal, PlayerAiRemote, PlayerLocal, PlayerMain, PlayerRemote, PlayerType,
};
pub use plugin::BevyEasyPlayerHandlerPlugin;
pub use startup::sync_plugin_party_main_player_uuid;
pub use sync::{DBPlayer, PlayerHandlerInterface};
