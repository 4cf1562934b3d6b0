//! Supported networks: lookup by chain id, and the lists derived from the table.

use vstd::prelude::*;
use vstd::string::*;

pub mod definitions;

pub use definitions::{NetworkInfo, NETWORK_COUNT};

verus! {

use definitions::{is_row, network_at, network_row, row_parts};
use crate::decimal::{decimal, decimal_chars};

/// The index of the first row at or after `from` whose chain id is `network_id`;
/// `NETWORK_COUNT` if there is none.
pub open spec fn row_index_from(network_id: u64, from: int) -> int
    decreases NETWORK_COUNT - from,
{
    if from >= NETWORK_COUNT {
        NETWORK_COUNT as int
    } else if network_row(from).id == network_id {
        from
    } else {
        row_index_from(network_id, from + 1)
    }
}

/// The index of the first row whose chain id is `network_id`; `NETWORK_COUNT` if there is
/// none.
pub open spec fn row_index(network_id: u64) -> int {
    row_index_from(network_id, 0)
}

/// Some row of the table has the chain id `network_id`.
pub open spec fn is_supported(network_id: u64) -> bool {
    row_index(network_id) < NETWORK_COUNT
}

/// The index of the first row whose chain id is `network_id`.
pub fn find_network(network_id: u64) -> (r: Option<usize>)
    ensures
        r is Some <==> is_supported(network_id),
        r is Some ==> r->0 == row_index(network_id),
{
    let mut i: usize = 0;
    while i < NETWORK_COUNT
        invariant
            i <= NETWORK_COUNT,
            row_index(network_id) == row_index_from(network_id, i as int),
        decreases NETWORK_COUNT - i,
    {
        let (id, _name, _host, _traces) = row_parts(i);
        if id == network_id {
            return Some(i);
        }
        i += 1;
    }
    None
}

/// The message that reports `network_id` as unsupported.
pub open spec fn unsupported_message(network_id: u64) -> Seq<char> {
    "Unsupported network ID: "@ + decimal(network_id as nat)
}

/// Validates that a network id is supported and returns its information.
pub fn validate_network(network_id: u64) -> (r: Result<NetworkInfo, String>)
    ensures
        r is Ok <==> is_supported(network_id),
        r is Ok ==> is_row(r->Ok_0, row_index(network_id)),
        r is Err ==> r->Err_0@ == unsupported_message(network_id),
{
    match find_network(network_id) {
        Some(i) => Ok(network_at(i)),
        None => {
            let mut msg = crate::text::chars_of("Unsupported network ID: ");
            let digits = decimal_chars(network_id);
            crate::text::push_chars(&mut msg, &digits);
            Err(crate::text::string_of(&msg))
        },
    }
}

/// All supported network ids, in table order.
pub fn supported_network_ids() -> (ids: Vec<u64>)
    ensures
        ids@.len() == NETWORK_COUNT,
        forall|i: int| 0 <= i < NETWORK_COUNT ==> ids@[i] == network_row(i).id,
{
    let mut ids: Vec<u64> = Vec::new();
    let mut i: usize = 0;
    while i < NETWORK_COUNT
        invariant
            i <= NETWORK_COUNT,
            ids@.len() == i,
            forall|j: int| 0 <= j < i ==> ids@[j] == network_row(j).id,
        decreases NETWORK_COUNT - i,
    {
        let (id, _name, _host, _traces) = row_parts(i);
        ids.push(id);
        i += 1;
    }
    ids
}

/// The indices below `n` of the rows whose endpoint serves traces, in increasing order.
pub open spec fn trace_rows(n: int) -> Seq<int>
    decreases n,
{
    if n <= 0 {
        Seq::empty()
    } else if network_row(n - 1).traces {
        trace_rows(n - 1).push(n - 1)
    } else {
        trace_rows(n - 1)
    }
}

/// All networks whose endpoint serves traces, in table order.
pub fn networks_with_traces() -> (found: Vec<NetworkInfo>)
    ensures
        found@.len() == trace_rows(NETWORK_COUNT as int).len(),
        forall|k: int|
            0 <= k < found@.len() ==> is_row(
                #[trigger] found@[k],
                trace_rows(NETWORK_COUNT as int)[k],
            ),
{
    let mut found: Vec<NetworkInfo> = Vec::new();
    let mut i: usize = 0;
    while i < NETWORK_COUNT
        invariant
            i <= NETWORK_COUNT,
            found@.len() == trace_rows(i as int).len(),
            forall|k: int|
                0 <= k < found@.len() ==> is_row(#[trigger] found@[k], trace_rows(i as int)[k]),
        decreases NETWORK_COUNT - i,
    {
        let info = network_at(i);
        if info.supports_traces {
            found.push(info);
        }
        i += 1;
    }
    found
}

} // verus!
