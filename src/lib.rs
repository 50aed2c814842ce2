//! A typed handle around a user-supplied table properties collector, and the
//! forwarding logic that a storage engine's callbacks run against it.

mod collector;
mod entry_type;
mod handle;

pub use collector::{
    lemma_replay_concat, lemma_replay_push, names_unique, pairs_of, replay, EntryRecord,
    TablePropertiesCollector,
};
pub use entry_type::{code_of, kind_of_code, lemma_code_round_trip, EntryType};
pub use handle::{
    add, destruct, finish, is_plain_name, is_valid_name, name, need_compact,
    TablePropertiesCollectorHandle,
};
