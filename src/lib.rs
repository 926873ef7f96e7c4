//! A node directory: nodes register the topic they own together with the
//! address at which they can be reached, and other parties resolve a topic
//! to its current owner. Records live in a durable key-value store, one per
//! topic, and the last registration of a topic wins.

mod laws;
mod record;
mod registry;
mod store;

pub use record::{
    decimal_text, decode_record, encode_record, format_address, parse_record, utf8_text,
    OwnerRecord,
};
pub use registry::{
    decode_entry, NodeInfo, PreviousRecord, RegisterError, Registry, ResolveError,
};
pub use store::{DirectoryStore, StoreError};
pub use laws::{
    lemma_corrupt_record, lemma_last_write_wins, lemma_not_found, lemma_record_round_trip,
    lemma_register_then_resolve, lemma_resolve_idempotent,
};
