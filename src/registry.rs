//! The registry service: register a topic's owner, resolve a topic to its owner.

use vstd::prelude::*;
use vstd::utf8::{decode_utf8, encode_utf8, valid_utf8};
use crate::record::{
    address_of, decode_record, decoded_record, encode_record, format_address, record_bytes,
    utf8_text,
};
use crate::store::DirectoryStore;

verus! {

/// Why a topic could not be resolved.
#[derive(Clone, Copy, Debug, PartialEq, Eq, Structural)]
pub enum ResolveError {
    /// The store could not be read.
    DirectoryUnavailable,
    /// No node ever registered the topic.
    TopicNotFound,
    /// The stored record is not UTF-8 text with exactly one separator.
    CorruptRecord,
}

/// Why a registration did not happen.
#[derive(Clone, Copy, Debug, PartialEq, Eq, Structural)]
pub enum RegisterError {
    /// The store could not complete the write.
    DirectoryUnavailable,
}

/// What a topic resolves to.
pub struct NodeInfo {
    pub node_address: String,
    pub node_id: String,
    pub node_topic: String,
}

/// The record that a registration replaced, for the operator's log.
pub enum PreviousRecord {
    /// The topic had no record.
    Absent,
    /// The topic's earlier record, as text.
    Text(String),
    /// The topic had a record that is not UTF-8 text.
    Undecodable,
}

/// The store key of a topic: its name in UTF-8.
pub open spec fn topic_key(topic: Seq<char>) -> Seq<u8> {
    encode_utf8(topic)
}

/// The directory after `node_id`, reached at `host:port`, registered `topic`.
pub open spec fn registered(
    d: Map<Seq<u8>, Seq<u8>>,
    topic: Seq<char>,
    host: Seq<char>,
    port: u16,
    node_id: Seq<char>,
) -> Map<Seq<u8>, Seq<u8>> {
    d.insert(topic_key(topic), record_bytes(address_of(host, port), node_id))
}

/// What a stored value, present or absent, resolves to.
pub open spec fn decoded_entry(value: Option<Seq<u8>>) -> Result<
    (Seq<char>, Seq<char>),
    ResolveError,
> {
    match value {
        None => Err(ResolveError::TopicNotFound),
        Some(bytes) => match decoded_record(bytes) {
            Some(pair) => Ok(pair),
            None => Err(ResolveError::CorruptRecord),
        },
    }
}

/// The value stored for `topic` in directory `d`, if any.
pub open spec fn stored(d: Map<Seq<u8>, Seq<u8>>, topic: Seq<char>) -> Option<Seq<u8>> {
    if d.contains_key(topic_key(topic)) {
        Some(d[topic_key(topic)])
    } else {
        None
    }
}

/// What `topic` resolves to in directory `d`: its address and node id, or why not.
pub open spec fn resolved(d: Map<Seq<u8>, Seq<u8>>, topic: Seq<char>) -> Result<
    (Seq<char>, Seq<char>),
    ResolveError,
> {
    decoded_entry(stored(d, topic))
}

/// `r` is what resolving `topic` gives when the stored value is `value`.
pub open spec fn answers(
    value: Option<Seq<u8>>,
    topic: Seq<char>,
    r: Result<NodeInfo, ResolveError>,
) -> bool {
    match r {
        Ok(info) => decoded_entry(value) == Ok::<_, ResolveError>((info.node_address@, info.node_id@))
            && info.node_topic@ == topic,
        Err(e) => decoded_entry(value) == Err::<(Seq<char>, Seq<char>), _>(e),
    }
}

/// `r` is an outcome of resolving `topic` in directory `d`: a read failure,
/// or exactly what the directory holds for the topic.
pub open spec fn resolve_outcome(
    d: Map<Seq<u8>, Seq<u8>>,
    topic: Seq<char>,
    r: Result<NodeInfo, ResolveError>,
) -> bool {
    r == Err::<NodeInfo, ResolveError>(ResolveError::DirectoryUnavailable) || answers(
        stored(d, topic),
        topic,
        r,
    )
}

/// The record that a registration of `topic` replaces in `d`.
pub open spec fn replaced(d: Map<Seq<u8>, Seq<u8>>, topic: Seq<char>, p: PreviousRecord) -> bool {
    match stored(d, topic) {
        None => p is Absent,
        Some(bytes) => if valid_utf8(bytes) {
            p matches PreviousRecord::Text(s) && s@ == decode_utf8(bytes)
        } else {
            p is Undecodable
        },
    }
}

/// Resolves a topic given what the store returned for its key.
pub fn decode_entry(topic: &str, value: Option<Vec<u8>>) -> (r: Result<NodeInfo, ResolveError>)
    ensures
        answers(
            match value {
                Some(v) => Some(v@),
                None => None,
            },
            topic@,
            r,
        ),
{
    match value {
        None => Err(ResolveError::TopicNotFound),
        Some(bytes) => match decode_record(bytes) {
            Some(rec) => Ok(
                NodeInfo {
                    node_address: rec.address,
                    node_id: rec.node_id,
                    node_topic: String::from_str(topic),
                },
            ),
            None => Err(ResolveError::CorruptRecord),
        },
    }
}

/// The registry service over a directory store.
pub struct Registry {
    store: DirectoryStore,
}

impl View for Registry {
    type V = Map<Seq<u8>, Seq<u8>>;

    closed spec fn view(&self) -> Map<Seq<u8>, Seq<u8>> {
        self.store@
    }
}

impl Registry {
    /// A registry over `store`; it holds what the store holds.
    pub fn new(store: DirectoryStore) -> (r: Registry)
        ensures
            r@ == store@,
    {
        Registry { store }
    }

    /// Records that `node_id`, reached at the observed host and the port it gave,
    /// owns `topic`, replacing any earlier owner. Returns the replaced record.
    pub fn register(&mut self, topic: &str, caller_port: u16, caller_host: &str, node_id: &str) -> (r:
        Result<PreviousRecord, RegisterError>)
        requires
            topic@.len() > 0,
            node_id@.len() > 0,
        ensures
            r is Ok ==> final(self)@ == registered(
                old(self)@,
                topic@,
                caller_host@,
                caller_port,
                node_id@,
            ),
            r matches Ok(p) ==> replaced(old(self)@, topic@, p),
    {
        let address = format_address(caller_host, caller_port);
        let value = encode_record(address.as_str(), node_id);
        match self.store.put(topic.as_bytes(), value) {
            Ok(None) => Ok(PreviousRecord::Absent),
            Ok(Some(bytes)) => match utf8_text(bytes) {
                Some(text) => Ok(PreviousRecord::Text(text)),
                None => Ok(PreviousRecord::Undecodable),
            },
            Err(_) => Err(RegisterError::DirectoryUnavailable),
        }
    }

    /// The current owner of `topic`, read afresh from the store.
    pub fn resolve(&self, topic: &str) -> (r: Result<NodeInfo, ResolveError>)
        requires
            topic@.len() > 0,
        ensures
            resolve_outcome(self@, topic@, r),
    {
        match self.store.get(topic.as_bytes()) {
            Ok(value) => decode_entry(topic, value),
            Err(_) => Err(ResolveError::DirectoryUnavailable),
        }
    }
}

} // verus!
