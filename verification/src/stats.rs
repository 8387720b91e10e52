//! The telemetry-counters snapshot handed across the boundary.
//!
//! The counters themselves live in an external collaborator; the bridge
//! only assembles the snapshot it reports: an insertion-ordered
//! text-to-text mapping of the totals, rendered in decimal.

use crate::text::{spec_udecimal, u64_to_decimal};
use vstd::prelude::*;

verus! {

/// Assembles the statistics snapshot for the given counter totals: an
/// ordered mapping with exactly the keys `total_connections` and
/// `total_clients`, in that order, each mapped to its total rendered in
/// decimal.
pub fn statistics_snapshot(total_connections: u64, total_clients: u64) -> (snapshot: Vec<
    (String, String),
>)
    ensures
        snapshot@.len() == 2,
        snapshot@[0].0@ == "total_connections"@,
        snapshot@[0].1@ == spec_udecimal(total_connections as nat),
        snapshot@[1].0@ == "total_clients"@,
        snapshot@[1].1@ == spec_udecimal(total_clients as nat),
{
    let mut snapshot: Vec<(String, String)> = Vec::new();
    snapshot.push(("total_connections".to_owned(), u64_to_decimal(total_connections)));
    snapshot.push(("total_clients".to_owned(), u64_to_decimal(total_clients)));
    snapshot
}

} // verus!
