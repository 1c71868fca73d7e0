//! Backend of a small desktop counter: one shared integer, the commands
//! that read and change it, and the notification that follows each change.

mod greeting;
mod laws;
mod shared;
mod state;

pub use greeting::{greet, greeting_of};
pub use laws::{lemma_count_from_start, lemma_payload_is_state_after, lemma_run_moves_by_net_change, net_change, run_from};
pub use shared::{AppStateWrapper, StateGuard};
pub use state::{delta, AppState, CounterError, Mutation, StatePayload};
