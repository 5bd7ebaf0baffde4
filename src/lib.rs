//! A greeting service guarded by a single administrator.
//!
//! The service keeps a global greeting counter, a per-identity counter, the
//! last greeting of each identity and a configurable length limit, together
//! with the lifetime windows of the storage tiers that hold them. Every
//! operation of [`HelloContract`] is specified by a transition over
//! [`ContractState`]; the laws that relate the operations are proof
//! functions over those transitions.
//!
//! Counters saturate at `u32::MAX`, so that they never decrease but on an
//! explicit reset.
mod contract;
mod laws;
mod model;
mod types;

pub use contract::{saludo_token, HelloContract};
pub use laws::{
    lemma_admin_kept, lemma_empty_name_rejected, lemma_initialize_once, lemma_long_name_rejected,
    lemma_only_admin, lemma_reset_global_only, lemma_transfer_moves_authority, lemma_valid_greeting,
};
pub use model::{
    authorize, bumped, count_of, effective_limit, empty_state, extended, hello_op, initialize_op,
    last_greeting, reset_contador_op, saludo_ttl_of, set_limite_op, stored, transfer_admin_op,
    user_count, ContractState, DEFAULT_LIMITE, TTL_LEDGERS,
};
pub use types::{DataKey, Error, Identity};
