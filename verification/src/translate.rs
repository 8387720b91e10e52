//! The value translator: converts a decoded reply into an equivalent
//! host-runtime object graph, with a caller-selected string-decoding
//! mode.
//!
//! In text mode every string-like reply becomes host text, and a binary
//! string must be valid UTF-8 (otherwise the translation fails with a
//! decoding error).  In binary mode every string-like reply becomes a
//! byte array that is bit-identical to the reply's bytes.  Containers
//! translate element by element, keeping array order and map insertion
//! order.  The attribute and extended-precision-number cases are
//! deliberately unsupported: translating them is a fatal native
//! condition, so they are excluded by precondition and callers test
//! `is_supported` first.

use crate::errors::BridgeError;
use crate::host::{
    host_pairs_view, host_seq_view, lemma_host_pairs_view_push, lemma_host_seq_view_push,
    HostObject, HostVal,
};
use crate::reply::{
    lemma_reply_pairs_view, lemma_reply_seq_view, reply_pairs_view, reply_seq_view, reply_view,
    ReplyVal, ReplyValue,
};
use crate::text::string_from_utf8;
use vstd::prelude::*;
use vstd::string::StrSliceExecFns;
use vstd::utf8::{decode_utf8, encode_utf8, valid_utf8};

verus! {

/// Why a translation cannot produce a host object.
pub enum TranslateFault {
    /// A binary string is not valid UTF-8 while text mode asked to
    /// decode it.
    InvalidText,
    /// The value contains an attribute or extended-precision-number
    /// case, which the translator does not implement.
    Unsupported,
}

/// The host object a reply value translates to, or the fault that stops
/// the translation.  Containers translate left to right, a mapping pair
/// key before value, and the first fault wins.
pub open spec fn spec_translate(value: ReplyVal, text_mode: bool) -> Result<
    HostVal,
    TranslateFault,
>
    decreases value,
{
    match value {
        ReplyVal::Nil => Ok(HostVal::Null),
        ReplyVal::Int(n) => Ok(HostVal::Long(n)),
        ReplyVal::Bulk(bytes) => if text_mode {
            if valid_utf8(bytes) {
                Ok(HostVal::Text(decode_utf8(bytes)))
            } else {
                Err(TranslateFault::InvalidText)
            }
        } else {
            Ok(HostVal::Blob(bytes))
        },
        ReplyVal::Array(items) => match spec_translate_seq(items, text_mode) {
            Ok(outs) => Ok(HostVal::Array(outs)),
            Err(fault) => Err(fault),
        },
        ReplyVal::Simple(line) => if text_mode {
            Ok(HostVal::Text(line))
        } else {
            Ok(HostVal::Blob(encode_utf8(line)))
        },
        ReplyVal::Okay => Ok(HostVal::Text("OK"@)),
        ReplyVal::Mapping(pairs) => match spec_translate_pairs(pairs, text_mode) {
            Ok(outs) => Ok(HostVal::OrderedMap(outs)),
            Err(fault) => Err(fault),
        },
        ReplyVal::Attribute => Err(TranslateFault::Unsupported),
        ReplyVal::Members(items) => match spec_translate_seq(items, text_mode) {
            Ok(outs) => Ok(HostVal::UnorderedSet(outs)),
            Err(fault) => Err(fault),
        },
        ReplyVal::Double(bits) => Ok(HostVal::Double(bits)),
        ReplyVal::Boolean(b) => Ok(HostVal::Boolean(b)),
        ReplyVal::Verbatim { format: _, text } => if text_mode {
            Ok(HostVal::Text(text))
        } else {
            Ok(HostVal::Blob(encode_utf8(text)))
        },
        ReplyVal::BigNumber(_) => Err(TranslateFault::Unsupported),
        ReplyVal::PushMessage { kind, data } => match spec_translate_seq(data, text_mode) {
            Ok(outs) => Ok(
                HostVal::OrderedMap(
                    seq![
                        (HostVal::Text("kind"@), HostVal::Text(kind)),
                        (HostVal::Text("values"@), HostVal::Array(outs)),
                    ],
                ),
            ),
            Err(fault) => Err(fault),
        },
        ReplyVal::ServerError(message) => Ok(HostVal::Exception(message)),
    }
}

/// The translations of a sequence of reply values, in order; the first
/// fault wins.
pub open spec fn spec_translate_seq(items: Seq<ReplyVal>, text_mode: bool) -> Result<
    Seq<HostVal>,
    TranslateFault,
>
    decreases items,
{
    if items.len() == 0 {
        Ok(Seq::empty())
    } else {
        match spec_translate(items[0], text_mode) {
            Err(fault) => Err(fault),
            Ok(first) => match spec_translate_seq(
                items.subrange(1, items.len() as int),
                text_mode,
            ) {
                Err(fault) => Err(fault),
                Ok(rest) => Ok(seq![first] + rest),
            },
        }
    }
}

/// The translations of a sequence of reply pairs, in order, each key
/// before its value; the first fault wins.
pub open spec fn spec_translate_pairs(pairs: Seq<(ReplyVal, ReplyVal)>, text_mode: bool) -> Result<
    Seq<(HostVal, HostVal)>,
    TranslateFault,
>
    decreases pairs,
{
    if pairs.len() == 0 {
        Ok(Seq::empty())
    } else {
        match spec_translate(pairs[0].0, text_mode) {
            Err(fault) => Err(fault),
            Ok(key) => match spec_translate(pairs[0].1, text_mode) {
                Err(fault) => Err(fault),
                Ok(value) => match spec_translate_pairs(
                    pairs.subrange(1, pairs.len() as int),
                    text_mode,
                ) {
                    Err(fault) => Err(fault),
                    Ok(rest) => Ok(seq![(key, value)] + rest),
                },
            },
        }
    }
}

/// True when the value contains no attribute and no
/// extended-precision-number case, so that translating it is defined.
pub open spec fn spec_supported(value: ReplyVal) -> bool
    decreases value,
{
    match value {
        ReplyVal::Attribute => false,
        ReplyVal::BigNumber(_) => false,
        ReplyVal::Array(items) => spec_all_supported(items),
        ReplyVal::Members(items) => spec_all_supported(items),
        ReplyVal::PushMessage { kind: _, data } => spec_all_supported(data),
        ReplyVal::Mapping(pairs) => spec_all_pairs_supported(pairs),
        _ => true,
    }
}

/// True when every value of the sequence is supported.
pub open spec fn spec_all_supported(items: Seq<ReplyVal>) -> bool
    decreases items,
{
    items.len() == 0 || (spec_supported(items[0]) && spec_all_supported(
        items.subrange(1, items.len() as int),
    ))
}

/// True when every key and value of the sequence of pairs is supported.
pub open spec fn spec_all_pairs_supported(pairs: Seq<(ReplyVal, ReplyVal)>) -> bool
    decreases pairs,
{
    pairs.len() == 0 || (spec_supported(pairs[0].0) && spec_supported(pairs[0].1)
        && spec_all_pairs_supported(pairs.subrange(1, pairs.len() as int)))
}

/// A supported sequence is supported element by element.
pub proof fn lemma_all_supported_index(items: Seq<ReplyVal>)
    requires
        spec_all_supported(items),
    ensures
        forall|i: int| 0 <= i < items.len() ==> spec_supported(#[trigger] items[i]),
    decreases items,
{
    if items.len() > 0 {
        let rest = items.subrange(1, items.len() as int);
        lemma_all_supported_index(rest);
        assert forall|i: int| 0 <= i < items.len() implies spec_supported(#[trigger] items[i]) by {
            if i > 0 {
                assert(rest[i - 1] == items[i]);
            }
        }
    }
}

/// A supported sequence of pairs is supported pair by pair.
pub proof fn lemma_all_pairs_supported_index(pairs: Seq<(ReplyVal, ReplyVal)>)
    requires
        spec_all_pairs_supported(pairs),
    ensures
        forall|i: int|
            0 <= i < pairs.len() ==> spec_supported(#[trigger] pairs[i].0) && spec_supported(
                pairs[i].1,
            ),
    decreases pairs,
{
    if pairs.len() > 0 {
        let rest = pairs.subrange(1, pairs.len() as int);
        lemma_all_pairs_supported_index(rest);
        assert forall|i: int| 0 <= i < pairs.len() implies spec_supported(#[trigger] pairs[i].0)
            && spec_supported(pairs[i].1) by {
            if i > 0 {
                assert(rest[i - 1] == pairs[i]);
            }
        }
    }
}

/// A successful sequence translation works element by element: it keeps
/// the length, and position `i` of the output is the translation of
/// position `i` of the input.
pub proof fn lemma_translate_seq_elementwise(items: Seq<ReplyVal>, text_mode: bool)
    requires
        spec_translate_seq(items, text_mode) is Ok,
    ensures
        spec_translate_seq(items, text_mode) matches Ok(outs) && outs.len() == items.len()
            && forall|i: int|
            0 <= i < items.len() ==> spec_translate(#[trigger] items[i], text_mode) == Ok::<
                HostVal,
                TranslateFault,
            >(outs[i]),
    decreases items,
{
    if items.len() > 0 {
        let rest = items.subrange(1, items.len() as int);
        lemma_translate_seq_elementwise(rest, text_mode);
        let outs = spec_translate_seq(items, text_mode)->Ok_0;
        assert forall|i: int| 0 <= i < items.len() implies spec_translate(
            #[trigger] items[i],
            text_mode,
        ) == Ok::<HostVal, TranslateFault>(outs[i]) by {
            if i > 0 {
                assert(rest[i - 1] == items[i]);
            }
        }
    }
}

/// A successful pair-sequence translation works pair by pair, keys and
/// values in place.
pub proof fn lemma_translate_pairs_elementwise(pairs: Seq<(ReplyVal, ReplyVal)>, text_mode: bool)
    requires
        spec_translate_pairs(pairs, text_mode) is Ok,
    ensures
        spec_translate_pairs(pairs, text_mode) matches Ok(outs) && outs.len() == pairs.len()
            && forall|i: int|
            0 <= i < pairs.len() ==> spec_translate(#[trigger] pairs[i].0, text_mode) == Ok::<
                HostVal,
                TranslateFault,
            >(outs[i].0) && spec_translate(pairs[i].1, text_mode) == Ok::<
                HostVal,
                TranslateFault,
            >(outs[i].1),
    decreases pairs,
{
    if pairs.len() > 0 {
        let rest = pairs.subrange(1, pairs.len() as int);
        lemma_translate_pairs_elementwise(rest, text_mode);
        let outs = spec_translate_pairs(pairs, text_mode)->Ok_0;
        assert forall|i: int| 0 <= i < pairs.len() implies spec_translate(
            #[trigger] pairs[i].0,
            text_mode,
        ) == Ok::<HostVal, TranslateFault>(outs[i].0) && spec_translate(pairs[i].1, text_mode)
            == Ok::<HostVal, TranslateFault>(outs[i].1) by {
            if i > 0 {
                assert(rest[i - 1] == pairs[i]);
            }
        }
    }
}

/// Law: translating an array preserves its length and its order — the
/// output is an array whose element `i` is the translation of input
/// element `i`.
pub proof fn lemma_array_order_preserved(items: Seq<ReplyVal>, text_mode: bool)
    requires
        spec_translate(ReplyVal::Array(items), text_mode) is Ok,
    ensures
        spec_translate(ReplyVal::Array(items), text_mode) matches Ok(HostVal::Array(outs))
            && outs.len() == items.len() && forall|i: int|
            0 <= i < items.len() ==> spec_translate(#[trigger] items[i], text_mode) == Ok::<
                HostVal,
                TranslateFault,
            >(outs[i]),
{
    lemma_translate_seq_elementwise(items, text_mode);
}

/// Law: translating a mapping preserves its insertion order — the output
/// is an ordered map whose pair `i` is the translated key and value of
/// input pair `i`.
pub proof fn lemma_mapping_order_preserved(pairs: Seq<(ReplyVal, ReplyVal)>, text_mode: bool)
    requires
        spec_translate(ReplyVal::Mapping(pairs), text_mode) is Ok,
    ensures
        spec_translate(ReplyVal::Mapping(pairs), text_mode) matches Ok(HostVal::OrderedMap(outs))
            && outs.len() == pairs.len() && forall|i: int|
            0 <= i < pairs.len() ==> spec_translate(#[trigger] pairs[i].0, text_mode) == Ok::<
                HostVal,
                TranslateFault,
            >(outs[i].0) && spec_translate(pairs[i].1, text_mode) == Ok::<
                HostVal,
                TranslateFault,
            >(outs[i].1),
{
    lemma_translate_pairs_elementwise(pairs, text_mode);
}

/// Law: translating an unordered collection preserves membership — a
/// host object is among the translated members exactly when it is the
/// translation of some input member, regardless of position.
pub proof fn lemma_members_membership_preserved(items: Seq<ReplyVal>, text_mode: bool)
    requires
        spec_translate(ReplyVal::Members(items), text_mode) is Ok,
    ensures
        spec_translate(ReplyVal::Members(items), text_mode) matches Ok(HostVal::UnorderedSet(outs))
            && forall|h: HostVal| #[trigger]
            outs.contains(h) <==> exists|v: ReplyVal|
                #[trigger] items.contains(v) && spec_translate(v, text_mode) == Ok::<
                    HostVal,
                    TranslateFault,
                >(h),
{
    lemma_translate_seq_elementwise(items, text_mode);
    let outs = spec_translate_seq(items, text_mode)->Ok_0;
    assert forall|h: HostVal| #[trigger] outs.contains(h) implies exists|v: ReplyVal|
        #[trigger] items.contains(v) && spec_translate(v, text_mode) == Ok::<
            HostVal,
            TranslateFault,
        >(h) by {
        let i = choose|i: int| 0 <= i < outs.len() && outs[i] == h;
        assert(items.contains(items[i]));
        assert(spec_translate(items[i], text_mode) == Ok::<HostVal, TranslateFault>(h));
    }
    assert forall|h: HostVal|
        (exists|v: ReplyVal|
            #[trigger] items.contains(v) && spec_translate(v, text_mode) == Ok::<
                HostVal,
                TranslateFault,
            >(h)) implies #[trigger] outs.contains(h) by {
        let v = choose|v: ReplyVal|
            #[trigger] items.contains(v) && spec_translate(v, text_mode) == Ok::<
                HostVal,
                TranslateFault,
            >(h);
        let i = choose|i: int| 0 <= i < items.len() && items[i] == v;
        assert(outs[i] == h);
    }
}

/// Law: in text mode a binary string translates to the UTF-8 decoding of
/// its bytes, and fails exactly when the bytes are not valid UTF-8; in
/// binary mode it translates to a byte array bit-identical to the input.
pub proof fn lemma_bulk_mode_sensitivity(bytes: Seq<u8>)
    ensures
        valid_utf8(bytes) ==> spec_translate(ReplyVal::Bulk(bytes), true) == Ok::<
            HostVal,
            TranslateFault,
        >(HostVal::Text(decode_utf8(bytes))),
        !valid_utf8(bytes) ==> spec_translate(ReplyVal::Bulk(bytes), true) == Err::<
            HostVal,
            TranslateFault,
        >(TranslateFault::InvalidText),
        spec_translate(ReplyVal::Bulk(bytes), false) == Ok::<HostVal, TranslateFault>(
            HostVal::Blob(bytes),
        ),
{
}

/// Law: translation fails only over text decoding — in binary mode every
/// supported value translates successfully.
pub proof fn lemma_binary_mode_total(value: ReplyVal)
    requires
        spec_supported(value),
    ensures
        spec_translate(value, false) is Ok,
    decreases value,
{
    match value {
        ReplyVal::Array(items) => lemma_binary_mode_total_seq(items),
        ReplyVal::Members(items) => lemma_binary_mode_total_seq(items),
        ReplyVal::PushMessage { kind: _, data } => lemma_binary_mode_total_seq(data),
        ReplyVal::Mapping(pairs) => lemma_binary_mode_total_pairs(pairs),
        _ => {},
    }
}

proof fn lemma_binary_mode_total_seq(items: Seq<ReplyVal>)
    requires
        spec_all_supported(items),
    ensures
        spec_translate_seq(items, false) is Ok,
    decreases items,
{
    if items.len() > 0 {
        lemma_binary_mode_total(items[0]);
        lemma_binary_mode_total_seq(items.subrange(1, items.len() as int));
    }
}

proof fn lemma_binary_mode_total_pairs(pairs: Seq<(ReplyVal, ReplyVal)>)
    requires
        spec_all_pairs_supported(pairs),
    ensures
        spec_translate_pairs(pairs, false) is Ok,
    decreases pairs,
{
    if pairs.len() > 0 {
        lemma_binary_mode_total(pairs[0].0);
        lemma_binary_mode_total(pairs[0].1);
        lemma_binary_mode_total_pairs(pairs.subrange(1, pairs.len() as int));
    }
}

/// Whether the translator implements every case that occurs in `value`.
/// Callers test this before translating: an unsupported value is a fatal
/// native condition, not a recoverable error.
pub fn is_supported(value: &ReplyValue) -> (supported: bool)
    ensures
        supported == spec_supported(value@),
    decreases value,
{
    match value {
        ReplyValue::Attribute { .. } => false,
        ReplyValue::BigNumber(_) => false,
        ReplyValue::Array(items) => all_supported(items),
        ReplyValue::Members(items) => all_supported(items),
        ReplyValue::PushMessage { kind: _, data } => all_supported(data),
        ReplyValue::Mapping(pairs) => all_pairs_supported(pairs),
        _ => true,
    }
}

/// Whether every value of the sequence is supported.
fn all_supported(items: &Vec<ReplyValue>) -> (supported: bool)
    ensures
        supported == spec_all_supported(reply_seq_view(items@)),
    decreases items,
{
    let ghost rv = reply_seq_view(items@);
    proof {
        lemma_reply_seq_view(items@);
        assert(rv.subrange(0, rv.len() as int) =~= rv);
    }
    let mut i: usize = 0;
    while i < items.len()
        invariant
            0 <= i <= items@.len(),
            rv == reply_seq_view(items@),
            rv.len() == items@.len(),
            forall|j: int| 0 <= j < rv.len() ==> #[trigger] rv[j] == reply_view(items@[j]),
            spec_all_supported(rv) == spec_all_supported(
                rv.subrange(i as int, rv.len() as int),
            ),
        decreases items@.len() - i,
    {
        let ghost suffix = rv.subrange(i as int, rv.len() as int);
        proof {
            assert(suffix[0] == rv[i as int]);
            assert(suffix.subrange(1, suffix.len() as int) =~= rv.subrange(
                i as int + 1,
                rv.len() as int,
            ));
        }
        if !is_supported(&items[i]) {
            return false;
        }
        i += 1;
    }
    proof {
        assert(rv.subrange(i as int, rv.len() as int) =~= Seq::<ReplyVal>::empty());
    }
    true
}

/// Whether every key and value of the sequence of pairs is supported.
fn all_pairs_supported(pairs: &Vec<(ReplyValue, ReplyValue)>) -> (supported: bool)
    ensures
        supported == spec_all_pairs_supported(reply_pairs_view(pairs@)),
    decreases pairs,
{
    let ghost rv = reply_pairs_view(pairs@);
    proof {
        lemma_reply_pairs_view(pairs@);
        assert(rv.subrange(0, rv.len() as int) =~= rv);
    }
    let mut i: usize = 0;
    while i < pairs.len()
        invariant
            0 <= i <= pairs@.len(),
            rv == reply_pairs_view(pairs@),
            rv.len() == pairs@.len(),
            forall|j: int|
                0 <= j < rv.len() ==> #[trigger] rv[j] == (
                    reply_view(pairs@[j].0),
                    reply_view(pairs@[j].1),
                ),
            spec_all_pairs_supported(rv) == spec_all_pairs_supported(
                rv.subrange(i as int, rv.len() as int),
            ),
        decreases pairs@.len() - i,
    {
        let ghost suffix = rv.subrange(i as int, rv.len() as int);
        proof {
            assert(suffix[0] == rv[i as int]);
            assert(suffix.subrange(1, suffix.len() as int) =~= rv.subrange(
                i as int + 1,
                rv.len() as int,
            ));
        }
        if !is_supported(&pairs[i].0) {
            return false;
        }
        if !is_supported(&pairs[i].1) {
            return false;
        }
        i += 1;
    }
    proof {
        assert(rv.subrange(i as int, rv.len() as int) =~= Seq::<(ReplyVal, ReplyVal)>::empty());
    }
    true
}

/// Translates a decoded reply into a host object graph.
///
/// In text mode string-like replies become host text and a binary string
/// that is not valid UTF-8 is rejected with a decoding error; in binary
/// mode they become byte arrays bit-identical to the reply's bytes.
pub fn translate(value: &ReplyValue, text_mode: bool) -> (result: Result<HostObject, BridgeError>)
    requires
        spec_supported(value@),
    ensures
        match spec_translate(value@, text_mode) {
            Ok(object) => result matches Ok(host) && host@ == object,
            Err(_) => result == Err::<HostObject, BridgeError>(BridgeError::Decoding),
        },
    decreases value,
{
    match value {
        ReplyValue::Nil => Ok(HostObject::Null),
        ReplyValue::Int(n) => Ok(HostObject::Long(*n)),
        ReplyValue::BulkString(bytes) => {
            let copy = vstd::slice::slice_to_vec(bytes.as_slice());
            if text_mode {
                match string_from_utf8(copy) {
                    Some(text) => Ok(HostObject::Text(text)),
                    None => Err(BridgeError::Decoding),
                }
            } else {
                Ok(HostObject::Blob(copy))
            }
        },
        ReplyValue::Array(items) => match translate_seq(items, text_mode) {
            Ok(objects) => Ok(HostObject::Array(objects)),
            Err(error) => Err(error),
        },
        ReplyValue::SimpleString(line) => if text_mode {
            Ok(HostObject::Text(line.clone()))
        } else {
            Ok(HostObject::Blob(line.as_str().as_bytes_vec()))
        },
        ReplyValue::Okay => Ok(HostObject::Text("OK".to_owned())),
        ReplyValue::Mapping(pairs) => match translate_pairs(pairs, text_mode) {
            Ok(objects) => Ok(HostObject::OrderedMap(objects)),
            Err(error) => Err(error),
        },
        ReplyValue::Attribute { .. } => vstd::pervasive::unreached(),
        ReplyValue::Members(items) => match translate_seq(items, text_mode) {
            Ok(objects) => Ok(HostObject::UnorderedSet(objects)),
            Err(error) => Err(error),
        },
        ReplyValue::Double(bits) => Ok(HostObject::Double(*bits)),
        ReplyValue::Boolean(b) => Ok(HostObject::Boolean(*b)),
        ReplyValue::VerbatimString { format: _, text } => if text_mode {
            Ok(HostObject::Text(text.clone()))
        } else {
            Ok(HostObject::Blob(text.as_str().as_bytes_vec()))
        },
        ReplyValue::BigNumber(_) => vstd::pervasive::unreached(),
        ReplyValue::PushMessage { kind, data } => match translate_seq(data, text_mode) {
            Ok(objects) => {
                let ghost objects_model = host_seq_view(objects@);
                let mut entries: Vec<(HostObject, HostObject)> = Vec::new();
                entries.push(
                    (HostObject::Text("kind".to_owned()), HostObject::Text(kind.clone())),
                );
                entries.push(
                    (HostObject::Text("values".to_owned()), HostObject::Array(objects)),
                );
                proof {
                    reveal_with_fuel(host_pairs_view, 3);
                    let ps = entries@;
                    assert(ps.subrange(1, 2) =~= seq![ps[1]]);
                    assert(seq![ps[1]].subrange(1, 1) =~= Seq::<(HostObject, HostObject)>::empty());
                    assert(host_pairs_view(ps) =~= seq![
                        (HostVal::Text("kind"@), HostVal::Text(kind@)),
                        (HostVal::Text("values"@), HostVal::Array(objects_model)),
                    ]);
                }
                Ok(HostObject::OrderedMap(entries))
            },
            Err(error) => Err(error),
        },
        ReplyValue::ServerError(message) => Ok(HostObject::Exception(message.clone())),
    }
}

/// Translates a sequence of replies element by element, in order.
fn translate_seq(items: &Vec<ReplyValue>, text_mode: bool) -> (result: Result<
    Vec<HostObject>,
    BridgeError,
>)
    requires
        spec_all_supported(reply_seq_view(items@)),
    ensures
        match spec_translate_seq(reply_seq_view(items@), text_mode) {
            Ok(outs) => result matches Ok(objects) && host_seq_view(objects@) == outs,
            Err(_) => result == Err::<Vec<HostObject>, BridgeError>(BridgeError::Decoding),
        },
    decreases items,
{
    let ghost rv = reply_seq_view(items@);
    proof {
        lemma_reply_seq_view(items@);
        lemma_all_supported_index(rv);
    }
    let mut objects: Vec<HostObject> = Vec::new();
    proof {
        assert(rv.subrange(0, rv.len() as int) =~= rv);
        assert(objects@ =~= Seq::<HostObject>::empty());
        if spec_translate_seq(rv, text_mode) is Ok {
            assert(host_seq_view(objects@) + spec_translate_seq(rv, text_mode)->Ok_0
                =~= spec_translate_seq(rv, text_mode)->Ok_0);
        }
    }
    let mut i: usize = 0;
    while i < items.len()
        invariant
            0 <= i <= items@.len(),
            rv == reply_seq_view(items@),
            rv.len() == items@.len(),
            forall|j: int| 0 <= j < rv.len() ==> #[trigger] rv[j] == reply_view(items@[j]),
            forall|j: int| 0 <= j < rv.len() ==> spec_supported(#[trigger] rv[j]),
            match spec_translate_seq(rv.subrange(i as int, rv.len() as int), text_mode) {
                Ok(rest) => spec_translate_seq(rv, text_mode) == Ok::<
                    Seq<HostVal>,
                    TranslateFault,
                >(host_seq_view(objects@) + rest),
                Err(fault) => spec_translate_seq(rv, text_mode) == Err::<
                    Seq<HostVal>,
                    TranslateFault,
                >(fault),
            },
        decreases items@.len() - i,
    {
        let ghost suffix = rv.subrange(i as int, rv.len() as int);
        let ghost next = rv.subrange(i as int + 1, rv.len() as int);
        proof {
            assert(suffix[0] == rv[i as int]);
            assert(suffix.subrange(1, suffix.len() as int) =~= next);
        }
        match translate(&items[i], text_mode) {
            Ok(object) => {
                let ghost out = object@;
                let ghost previous = objects@;
                objects.push(object);
                proof {
                    lemma_host_seq_view_push(previous, objects@[objects@.len() - 1]);
                    if spec_translate_seq(next, text_mode) is Ok {
                        let rest = spec_translate_seq(next, text_mode)->Ok_0;
                        assert(spec_translate_seq(suffix, text_mode) == Ok::<
                            Seq<HostVal>,
                            TranslateFault,
                        >(seq![out] + rest));
                        assert(host_seq_view(objects@) + rest =~= host_seq_view(previous) + (
                        seq![out] + rest));
                    }
                }
            },
            Err(error) => {
                return Err(error);
            },
        }
        i += 1;
    }
    proof {
        assert(rv.subrange(i as int, rv.len() as int) =~= Seq::<ReplyVal>::empty());
        assert(host_seq_view(objects@) + Seq::<HostVal>::empty() =~= host_seq_view(objects@));
    }
    Ok(objects)
}

/// Translates a sequence of reply pairs pair by pair, in order, each key
/// before its value.
fn translate_pairs(pairs: &Vec<(ReplyValue, ReplyValue)>, text_mode: bool) -> (result: Result<
    Vec<(HostObject, HostObject)>,
    BridgeError,
>)
    requires
        spec_all_pairs_supported(reply_pairs_view(pairs@)),
    ensures
        match spec_translate_pairs(reply_pairs_view(pairs@), text_mode) {
            Ok(outs) => result matches Ok(objects) && host_pairs_view(objects@) == outs,
            Err(_) => result == Err::<Vec<(HostObject, HostObject)>, BridgeError>(
                BridgeError::Decoding,
            ),
        },
    decreases pairs,
{
    let ghost rv = reply_pairs_view(pairs@);
    proof {
        lemma_reply_pairs_view(pairs@);
        lemma_all_pairs_supported_index(rv);
    }
    let mut objects: Vec<(HostObject, HostObject)> = Vec::new();
    proof {
        assert(rv.subrange(0, rv.len() as int) =~= rv);
        assert(objects@ =~= Seq::<(HostObject, HostObject)>::empty());
        if spec_translate_pairs(rv, text_mode) is Ok {
            assert(host_pairs_view(objects@) + spec_translate_pairs(rv, text_mode)->Ok_0
                =~= spec_translate_pairs(rv, text_mode)->Ok_0);
        }
    }
    let mut i: usize = 0;
    while i < pairs.len()
        invariant
            0 <= i <= pairs@.len(),
            rv == reply_pairs_view(pairs@),
            rv.len() == pairs@.len(),
            forall|j: int|
                0 <= j < rv.len() ==> #[trigger] rv[j] == (
                    reply_view(pairs@[j].0),
                    reply_view(pairs@[j].1),
                ),
            forall|j: int|
                0 <= j < rv.len() ==> spec_supported(#[trigger] rv[j].0) && spec_supported(
                    rv[j].1,
                ),
            match spec_translate_pairs(rv.subrange(i as int, rv.len() as int), text_mode) {
                Ok(rest) => spec_translate_pairs(rv, text_mode) == Ok::<
                    Seq<(HostVal, HostVal)>,
                    TranslateFault,
                >(host_pairs_view(objects@) + rest),
                Err(fault) => spec_translate_pairs(rv, text_mode) == Err::<
                    Seq<(HostVal, HostVal)>,
                    TranslateFault,
                >(fault),
            },
        decreases pairs@.len() - i,
    {
        let ghost suffix = rv.subrange(i as int, rv.len() as int);
        let ghost next = rv.subrange(i as int + 1, rv.len() as int);
        proof {
            assert(suffix[0] == rv[i as int]);
            assert(suffix.subrange(1, suffix.len() as int) =~= next);
        }
        let key = match translate(&pairs[i].0, text_mode) {
            Ok(key) => key,
            Err(error) => {
                return Err(error);
            },
        };
        let val = match translate(&pairs[i].1, text_mode) {
            Ok(val) => val,
            Err(error) => {
                return Err(error);
            },
        };
        let ghost key_out = key@;
        let ghost val_out = val@;
        let ghost previous = objects@;
        objects.push((key, val));
        proof {
            lemma_host_pairs_view_push(previous, objects@[objects@.len() - 1]);
            if spec_translate_pairs(next, text_mode) is Ok {
                let rest = spec_translate_pairs(next, text_mode)->Ok_0;
                assert(spec_translate_pairs(suffix, text_mode) == Ok::<
                    Seq<(HostVal, HostVal)>,
                    TranslateFault,
                >(seq![(key_out, val_out)] + rest));
                assert(host_pairs_view(objects@) + rest =~= host_pairs_view(previous) + (
                seq![(key_out, val_out)] + rest));
            }
        }
        i += 1;
    }
    proof {
        assert(rv.subrange(i as int, rv.len() as int) =~= Seq::<(ReplyVal, ReplyVal)>::empty());
        assert(host_pairs_view(objects@) + Seq::<(HostVal, HostVal)>::empty() =~= host_pairs_view(
            objects@,
        ));
    }
    Ok(objects)
}

/// Law: in text mode a simple string translates to its own text; in
/// binary mode it translates to exactly the UTF-8 encoding of that text,
/// which decodes back to it.
pub proof fn lemma_simple_mode_sensitivity(line: Seq<char>)
    ensures
        spec_translate(ReplyVal::Simple(line), true) == Ok::<HostVal, TranslateFault>(
            HostVal::Text(line),
        ),
        spec_translate(ReplyVal::Simple(line), false) == Ok::<HostVal, TranslateFault>(
            HostVal::Blob(encode_utf8(line)),
        ),
        valid_utf8(encode_utf8(line)),
        decode_utf8(encode_utf8(line)) == line,
{
    vstd::utf8::encode_utf8_valid_utf8(line);
    vstd::utf8::encode_utf8_decode_utf8(line);
}

} // verus!
