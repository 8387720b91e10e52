//! Process-wide constants exposed across the boundary.
//!
//! Both sides of the boundary must agree on these values, so the host
//! runtime queries them here instead of keeping its own copies.  Each
//! query returns the same fixed value on every call.

use vstd::prelude::*;

verus! {

/// The maximum permitted total byte length of a batched request's
/// argument payload.
pub const MAX_REQUEST_ARGS_LENGTH: u64 = 1073741824;

/// The maximum permitted total byte length of a batched request's
/// argument payload, as queried across the boundary.
pub fn max_request_args_length() -> (length: u64)
    ensures
        length == MAX_REQUEST_ARGS_LENGTH,
{
    MAX_REQUEST_ARGS_LENGTH
}

/// The sentinel text denoting an already-exhausted scan cursor.
pub fn finished_cursor_sentinel() -> (sentinel: &'static str)
    ensures
        sentinel@ == "finished"@,
{
    "finished"
}

/// The object-type name for plain string values.
pub fn type_string_name() -> (name: &'static str)
    ensures
        name@ == "string"@,
{
    "string"
}

/// The object-type name for lists.
pub fn type_list_name() -> (name: &'static str)
    ensures
        name@ == "list"@,
{
    "list"
}

/// The object-type name for sets.
pub fn type_set_name() -> (name: &'static str)
    ensures
        name@ == "set"@,
{
    "set"
}

/// The object-type name for sorted sets.
pub fn type_zset_name() -> (name: &'static str)
    ensures
        name@ == "zset"@,
{
    "zset"
}

/// The object-type name for hashes.
pub fn type_hash_name() -> (name: &'static str)
    ensures
        name@ == "hash"@,
{
    "hash"
}

/// The object-type name for streams.
pub fn type_stream_name() -> (name: &'static str)
    ensures
        name@ == "stream"@,
{
    "stream"
}

} // verus!
