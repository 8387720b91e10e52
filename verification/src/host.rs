//! The host-runtime object graph that the translator produces.
//!
//! Ownership of a produced graph passes entirely to the host runtime's
//! memory manager; the bridge keeps no reference.  Containers record the
//! order in which the bridge inserts their entries: how the host's
//! ordered map treats a duplicate key, or its set a duplicate element,
//! is the host's own semantics.

use vstd::prelude::*;

verus! {

/// A host-runtime object built by the translator.
#[derive(PartialEq, Debug)]
pub enum HostObject {
    /// The host null reference.
    Null,
    /// Host text.
    Text(String),
    /// A host byte array.
    Blob(Vec<u8>),
    /// A boxed 64-bit integer.
    Long(i64),
    /// A boxed double, carried as its IEEE 754 bit pattern.
    Double(u64),
    /// A boxed boolean.
    Boolean(bool),
    /// An array of host objects, in order.
    Array(Vec<HostObject>),
    /// An insertion-ordered map: the key-to-value pairs in the order the
    /// bridge inserts them.
    OrderedMap(Vec<(HostObject, HostObject)>),
    /// An unordered set: the elements in the order the bridge inserts
    /// them.
    UnorderedSet(Vec<HostObject>),
    /// A constructed exception object carrying a rendered server-error
    /// message; returned as a value, never raised by the bridge.
    Exception(String),
}

/// The mathematical model of a host object.
pub enum HostVal {
    Null,
    Text(Seq<char>),
    Blob(Seq<u8>),
    Long(i64),
    Double(u64),
    Boolean(bool),
    Array(Seq<HostVal>),
    OrderedMap(Seq<(HostVal, HostVal)>),
    UnorderedSet(Seq<HostVal>),
    Exception(Seq<char>),
}

/// The model of a host object.
pub open spec fn host_view(object: HostObject) -> HostVal
    decreases object,
{
    match object {
        HostObject::Null => HostVal::Null,
        HostObject::Text(text) => HostVal::Text(text@),
        HostObject::Blob(bytes) => HostVal::Blob(bytes@),
        HostObject::Long(n) => HostVal::Long(n),
        HostObject::Double(bits) => HostVal::Double(bits),
        HostObject::Boolean(b) => HostVal::Boolean(b),
        HostObject::Array(items) => HostVal::Array(host_seq_view(items@)),
        HostObject::OrderedMap(pairs) => HostVal::OrderedMap(host_pairs_view(pairs@)),
        HostObject::UnorderedSet(items) => HostVal::UnorderedSet(host_seq_view(items@)),
        HostObject::Exception(message) => HostVal::Exception(message@),
    }
}

/// The models of a sequence of host objects, in order.
pub open spec fn host_seq_view(items: Seq<HostObject>) -> Seq<HostVal>
    decreases items,
{
    if items.len() == 0 {
        Seq::empty()
    } else {
        seq![host_view(items[0])] + host_seq_view(items.subrange(1, items.len() as int))
    }
}

/// The models of a sequence of host object pairs, in order.
pub open spec fn host_pairs_view(pairs: Seq<(HostObject, HostObject)>) -> Seq<(HostVal, HostVal)>
    decreases pairs,
{
    if pairs.len() == 0 {
        Seq::empty()
    } else {
        seq![(host_view(pairs[0].0), host_view(pairs[0].1))] + host_pairs_view(
            pairs.subrange(1, pairs.len() as int),
        )
    }
}

impl View for HostObject {
    type V = HostVal;

    open spec fn view(&self) -> HostVal {
        host_view(*self)
    }
}

/// `host_seq_view` maps element by element.
pub proof fn lemma_host_seq_view(items: Seq<HostObject>)
    ensures
        host_seq_view(items).len() == items.len(),
        forall|i: int|
            0 <= i < items.len() ==> #[trigger] host_seq_view(items)[i] == host_view(items[i]),
    decreases items,
{
    if items.len() > 0 {
        let rest = items.subrange(1, items.len() as int);
        lemma_host_seq_view(rest);
        assert forall|i: int| 0 <= i < items.len() implies #[trigger] host_seq_view(items)[i]
            == host_view(items[i]) by {
            if i > 0 {
                assert(rest[i - 1] == items[i]);
            }
        }
    }
}

/// `host_pairs_view` maps pair by pair.
pub proof fn lemma_host_pairs_view(pairs: Seq<(HostObject, HostObject)>)
    ensures
        host_pairs_view(pairs).len() == pairs.len(),
        forall|i: int|
            0 <= i < pairs.len() ==> #[trigger] host_pairs_view(pairs)[i] == (
                host_view(pairs[i].0),
                host_view(pairs[i].1),
            ),
    decreases pairs,
{
    if pairs.len() > 0 {
        let rest = pairs.subrange(1, pairs.len() as int);
        lemma_host_pairs_view(rest);
        assert forall|i: int| 0 <= i < pairs.len() implies #[trigger] host_pairs_view(pairs)[i]
            == (host_view(pairs[i].0), host_view(pairs[i].1)) by {
            if i > 0 {
                assert(rest[i - 1] == pairs[i]);
            }
        }
    }
}

/// `host_seq_view` of a sequence extended by one element.
pub proof fn lemma_host_seq_view_push(items: Seq<HostObject>, item: HostObject)
    ensures
        host_seq_view(items.push(item)) == host_seq_view(items).push(host_view(item)),
{
    lemma_host_seq_view(items.push(item));
    lemma_host_seq_view(items);
    assert(host_seq_view(items.push(item)) =~= host_seq_view(items).push(host_view(item)));
}

/// `host_pairs_view` of a sequence extended by one pair.
pub proof fn lemma_host_pairs_view_push(
    pairs: Seq<(HostObject, HostObject)>,
    pair: (HostObject, HostObject),
)
    ensures
        host_pairs_view(pairs.push(pair)) == host_pairs_view(pairs).push(
            (host_view(pair.0), host_view(pair.1)),
        ),
{
    lemma_host_pairs_view(pairs.push(pair));
    lemma_host_pairs_view(pairs);
    assert(host_pairs_view(pairs.push(pair)) =~= host_pairs_view(pairs).push(
        (host_view(pair.0), host_view(pair.1)),
    ));
}

} // verus!
