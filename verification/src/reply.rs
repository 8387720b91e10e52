//! The decoded protocol reply value, as the native core hands it to the
//! bridge.
//!
//! A reply is a closed tagged union.  The bridge never reads a floating
//! point number or a big number: the double case carries the IEEE 754
//! bits through untouched, and the big-number and attribute cases are
//! deliberately unsupported (translating them is a fatal native
//! condition, not a recoverable error).

use vstd::prelude::*;

verus! {

/// A decoded reply value.  Consumed exactly once by the translator.
#[derive(PartialEq, Debug)]
pub enum ReplyValue {
    /// The null reply.
    Nil,
    /// An integer reply.
    Int(i64),
    /// Binary-safe string data.
    BulkString(Vec<u8>),
    /// An ordered sequence of nested replies.
    Array(Vec<ReplyValue>),
    /// A short line of text, not binary safe.
    SimpleString(String),
    /// The status marker that renders as the text `"OK"`.
    Okay,
    /// An insertion-ordered key-to-value mapping.
    Mapping(Vec<(ReplyValue, ReplyValue)>),
    /// A value together with attribute metadata.  Unsupported: the
    /// translator treats it as a fatal native condition.
    Attribute {
        /// The value the attributes belong to.
        data: Box<ReplyValue>,
        /// The attribute key-to-value pairs.
        attributes: Vec<(ReplyValue, ReplyValue)>,
    },
    /// An unordered collection of nested replies.
    Members(Vec<ReplyValue>),
    /// A floating point reply, carried as its IEEE 754 bit pattern; the
    /// bridge never reads the number itself.
    Double(u64),
    /// A boolean reply.
    Boolean(bool),
    /// A typed (format-tagged) text reply.
    VerbatimString {
        /// The format tag; the translator ignores it.
        format: String,
        /// The text payload.
        text: String,
    },
    /// An extended-precision number, as its textual bytes.  Unsupported:
    /// the translator treats it as a fatal native condition.
    BigNumber(Vec<u8>),
    /// A push message from the server.
    PushMessage {
        /// The textual rendering of the push category.
        kind: String,
        /// The payload values.
        data: Vec<ReplyValue>,
    },
    /// A structured error from the server, already rendered to its
    /// message text.  This is a value, not a raised failure.
    ServerError(String),
}

/// The mathematical model of a reply value.
///
/// The unsupported attribute case keeps no payload in the model: the
/// bridge never reads it.
pub enum ReplyVal {
    Nil,
    Int(i64),
    Bulk(Seq<u8>),
    Array(Seq<ReplyVal>),
    Simple(Seq<char>),
    Okay,
    Mapping(Seq<(ReplyVal, ReplyVal)>),
    Attribute,
    Members(Seq<ReplyVal>),
    Double(u64),
    Boolean(bool),
    Verbatim { format: Seq<char>, text: Seq<char> },
    BigNumber(Seq<u8>),
    PushMessage { kind: Seq<char>, data: Seq<ReplyVal> },
    ServerError(Seq<char>),
}

/// The model of a reply value.
pub open spec fn reply_view(value: ReplyValue) -> ReplyVal
    decreases value,
{
    match value {
        ReplyValue::Nil => ReplyVal::Nil,
        ReplyValue::Int(n) => ReplyVal::Int(n),
        ReplyValue::BulkString(bytes) => ReplyVal::Bulk(bytes@),
        ReplyValue::Array(items) => ReplyVal::Array(reply_seq_view(items@)),
        ReplyValue::SimpleString(line) => ReplyVal::Simple(line@),
        ReplyValue::Okay => ReplyVal::Okay,
        ReplyValue::Mapping(pairs) => ReplyVal::Mapping(reply_pairs_view(pairs@)),
        ReplyValue::Attribute { .. } => ReplyVal::Attribute,
        ReplyValue::Members(items) => ReplyVal::Members(reply_seq_view(items@)),
        ReplyValue::Double(bits) => ReplyVal::Double(bits),
        ReplyValue::Boolean(b) => ReplyVal::Boolean(b),
        ReplyValue::VerbatimString { format, text } => ReplyVal::Verbatim {
            format: format@,
            text: text@,
        },
        ReplyValue::BigNumber(digits) => ReplyVal::BigNumber(digits@),
        ReplyValue::PushMessage { kind, data } => ReplyVal::PushMessage {
            kind: kind@,
            data: reply_seq_view(data@),
        },
        ReplyValue::ServerError(message) => ReplyVal::ServerError(message@),
    }
}

/// The models of a sequence of reply values, in order.
pub open spec fn reply_seq_view(items: Seq<ReplyValue>) -> Seq<ReplyVal>
    decreases items,
{
    if items.len() == 0 {
        Seq::empty()
    } else {
        seq![reply_view(items[0])] + reply_seq_view(items.subrange(1, items.len() as int))
    }
}

/// The models of a sequence of reply pairs, in order.
pub open spec fn reply_pairs_view(pairs: Seq<(ReplyValue, ReplyValue)>) -> Seq<
    (ReplyVal, ReplyVal),
>
    decreases pairs,
{
    if pairs.len() == 0 {
        Seq::empty()
    } else {
        seq![(reply_view(pairs[0].0), reply_view(pairs[0].1))] + reply_pairs_view(
            pairs.subrange(1, pairs.len() as int),
        )
    }
}

impl View for ReplyValue {
    type V = ReplyVal;

    open spec fn view(&self) -> ReplyVal {
        reply_view(*self)
    }
}

/// `reply_seq_view` maps element by element.
pub proof fn lemma_reply_seq_view(items: Seq<ReplyValue>)
    ensures
        reply_seq_view(items).len() == items.len(),
        forall|i: int|
            0 <= i < items.len() ==> #[trigger] reply_seq_view(items)[i] == reply_view(items[i]),
    decreases items,
{
    if items.len() > 0 {
        let rest = items.subrange(1, items.len() as int);
        lemma_reply_seq_view(rest);
        assert forall|i: int| 0 <= i < items.len() implies #[trigger] reply_seq_view(items)[i]
            == reply_view(items[i]) by {
            if i > 0 {
                assert(rest[i - 1] == items[i]);
            }
        }
    }
}

/// `reply_pairs_view` maps pair by pair.
pub proof fn lemma_reply_pairs_view(pairs: Seq<(ReplyValue, ReplyValue)>)
    ensures
        reply_pairs_view(pairs).len() == pairs.len(),
        forall|i: int|
            0 <= i < pairs.len() ==> #[trigger] reply_pairs_view(pairs)[i] == (
                reply_view(pairs[i].0),
                reply_view(pairs[i].1),
            ),
    decreases pairs,
{
    if pairs.len() > 0 {
        let rest = pairs.subrange(1, pairs.len() as int);
        lemma_reply_pairs_view(rest);
        assert forall|i: int| 0 <= i < pairs.len() implies #[trigger] reply_pairs_view(pairs)[i]
            == (reply_view(pairs[i].0), reply_view(pairs[i].1)) by {
            if i > 0 {
                assert(rest[i - 1] == pairs[i]);
            }
        }
    }
}

} // verus!
