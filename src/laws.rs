//! What holds of registering and resolving across calls.

use vstd::prelude::*;
use vstd::utf8::{decode_utf8, encode_utf8_decode_utf8, encode_utf8_valid_utf8, valid_utf8};
use crate::record::{
    address_of, decoded_record, parsed, record_bytes, record_text, separator,
    sole_separator_at,
};
use crate::registry::{
    registered, resolve_outcome, resolved, topic_key, NodeInfo, ResolveError,
};

verus! {

/// A record whose address and node id hold no separator decodes to that
/// address and node id.
pub proof fn lemma_record_round_trip(address: Seq<char>, node_id: Seq<char>)
    requires
        !address.contains(separator()),
        !node_id.contains(separator()),
    ensures
        decoded_record(record_bytes(address, node_id)) == Some((address, node_id)),
{
    let text = record_text(address, node_id);
    encode_utf8_valid_utf8(text);
    encode_utf8_decode_utf8(text);
    let q = address.len() as int;
    assert forall|i: int| 0 <= i < text.len() && i != q implies text[i] != separator() by {
        if i < q {
            assert(text[i] == address[i]);
        } else {
            assert(text[i] == node_id[i - q - 1]);
        }
    }
    assert(sole_separator_at(text, q));
    let p = choose|p: int| sole_separator_at(text, p);
    assert(p == q);
    assert(text.subrange(0, q) =~= address);
    assert(text.subrange(q + 1, text.len() as int) =~= node_id);
    assert(parsed(text) == Some((address, node_id)));
}

/// Resolving a topic right after a node registered it gives back the address
/// and node id of that registration, when neither holds the separator.
pub proof fn lemma_register_then_resolve(
    d: Map<Seq<u8>, Seq<u8>>,
    topic: Seq<char>,
    host: Seq<char>,
    port: u16,
    node_id: Seq<char>,
)
    requires
        !address_of(host, port).contains(separator()),
        !node_id.contains(separator()),
    ensures
        resolved(registered(d, topic, host, port, node_id), topic) == Ok::<_, ResolveError>(
            (address_of(host, port), node_id),
        ),
{
    lemma_record_round_trip(address_of(host, port), node_id);
}

/// Of two registrations of one topic the later one wins: the directory is as
/// if only the later had happened, and, when its address and node id hold no
/// separator, the topic resolves to exactly them.
pub proof fn lemma_last_write_wins(
    d: Map<Seq<u8>, Seq<u8>>,
    topic: Seq<char>,
    host1: Seq<char>,
    port1: u16,
    node_id1: Seq<char>,
    host2: Seq<char>,
    port2: u16,
    node_id2: Seq<char>,
)
    ensures
        registered(registered(d, topic, host1, port1, node_id1), topic, host2, port2, node_id2)
            == registered(d, topic, host2, port2, node_id2),
        !address_of(host2, port2).contains(separator()) && !node_id2.contains(separator())
            ==> resolved(
            registered(registered(d, topic, host1, port1, node_id1), topic, host2, port2, node_id2),
            topic,
        ) == Ok::<_, ResolveError>((address_of(host2, port2), node_id2)),
{
    assert(registered(registered(d, topic, host1, port1, node_id1), topic, host2, port2, node_id2)
        =~= registered(d, topic, host2, port2, node_id2));
    if !address_of(host2, port2).contains(separator()) && !node_id2.contains(separator()) {
        lemma_register_then_resolve(d, topic, host2, port2, node_id2);
    }
}

/// A topic that the directory holds no record for never resolves to an owner:
/// the outcome is that it was not found, or that the store could not be read.
pub proof fn lemma_not_found(
    d: Map<Seq<u8>, Seq<u8>>,
    topic: Seq<char>,
    r: Result<NodeInfo, ResolveError>,
)
    requires
        !d.contains_key(topic_key(topic)),
        resolve_outcome(d, topic, r),
    ensures
        r matches Err(e) && (e == ResolveError::TopicNotFound || e
            == ResolveError::DirectoryUnavailable),
        resolved(d, topic) == Err::<(Seq<char>, Seq<char>), _>(ResolveError::TopicNotFound),
{
}

/// A stored record that is not UTF-8 text, or whose text does not hold exactly
/// one separator, is reported as corrupt, never read in part.
pub proof fn lemma_corrupt_record(
    d: Map<Seq<u8>, Seq<u8>>,
    topic: Seq<char>,
    r: Result<NodeInfo, ResolveError>,
)
    requires
        d.contains_key(topic_key(topic)),
        !valid_utf8(d[topic_key(topic)]) || !(exists|p: int|
            sole_separator_at(decode_utf8(d[topic_key(topic)]), p)),
        resolve_outcome(d, topic, r),
    ensures
        r matches Err(e) && (e == ResolveError::CorruptRecord || e
            == ResolveError::DirectoryUnavailable),
        resolved(d, topic) == Err::<(Seq<char>, Seq<char>), _>(ResolveError::CorruptRecord),
{
}

/// What a resolution says, as plain values.
pub open spec fn outcome_view(r: Result<NodeInfo, ResolveError>) -> Result<
    (Seq<char>, Seq<char>, Seq<char>),
    ResolveError,
> {
    match r {
        Ok(info) => Ok((info.node_address@, info.node_id@, info.node_topic@)),
        Err(e) => Err(e),
    }
}

/// Two resolutions of one topic in one directory, with no registration between
/// them, give the same answer, unless a read of the store failed.
pub proof fn lemma_resolve_idempotent(
    d: Map<Seq<u8>, Seq<u8>>,
    topic: Seq<char>,
    r1: Result<NodeInfo, ResolveError>,
    r2: Result<NodeInfo, ResolveError>,
)
    requires
        resolve_outcome(d, topic, r1),
        resolve_outcome(d, topic, r2),
        !(r1 matches Err(ResolveError::DirectoryUnavailable)),
        !(r2 matches Err(ResolveError::DirectoryUnavailable)),
    ensures
        outcome_view(r1) == outcome_view(r2),
{
}

} // verus!
