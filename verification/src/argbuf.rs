//! Argument buffers for a batched request.
//!
//! The host runtime hands the boundary a two-dimensional byte array; the
//! bridge turns it into a vector of reference-counted byte buffers that
//! the native core consumes, and leaks that vector behind a handle.

use bytes::Bytes;
use vstd::prelude::*;
use vstd::slice::slice_to_vec;

verus! {

/// The byte-buffer type of the bytes crate, declared opaquely: the
/// bridge creates and moves such buffers, it never reads through them.
#[verifier::external_type_specification]
#[verifier::external_body]
pub struct ExBytes(Bytes);

/// The bytes a buffer holds.
pub uninterp spec fn bytes_content(buffer: Bytes) -> Seq<u8>;

/// Relies on `Bytes::from` for `Vec<u8>` of the bytes crate: the
/// returned buffer holds exactly the bytes of the vector.
#[verifier::external_body]
fn bytes_from_vec(data: Vec<u8>) -> (buffer: Bytes)
    ensures
        bytes_content(buffer) == data@,
{
    Bytes::from(data)
}

/// Builds the argument-buffer vector that the leak entry point stores
/// behind a handle: one buffer per argument, holding exactly that
/// argument's bytes, in the arguments' order.
pub fn build_argument_buffers(arguments: &Vec<Vec<u8>>) -> (buffers: Vec<Bytes>)
    ensures
        buffers@.len() == arguments@.len(),
        forall|i: int|
            0 <= i < arguments@.len() ==> bytes_content(#[trigger] buffers@[i]) == arguments@[i]@,
{
    let mut buffers: Vec<Bytes> = Vec::new();
    let mut i: usize = 0;
    while i < arguments.len()
        invariant
            0 <= i <= arguments@.len(),
            buffers@.len() == i,
            forall|j: int|
                0 <= j < i ==> bytes_content(#[trigger] buffers@[j]) == arguments@[j]@,
        decreases arguments@.len() - i,
    {
        buffers.push(bytes_from_vec(slice_to_vec(arguments[i].as_slice())));
        i += 1;
    }
    buffers
}

} // verus!
