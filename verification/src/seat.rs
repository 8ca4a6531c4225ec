//! Per-client seat records.
//!
//! One seat entry is created when a client connects, keyed by the client's
//! identity.  The registry performs no locking of its own: callers already
//! hold the compositor's single lock.  The observed lifecycle inserts on
//! connect and shows no eviction on disconnect; a reconnect that reuses a
//! client identity therefore overwrites the stale entry rather than
//! duplicating it.

use vstd::prelude::*;

verus! {

/// Per-client input and session metadata, keyed by the owning client.
#[derive(Clone, Copy, PartialEq, Eq, Structural, Debug)]
pub struct SeatData {
    pub client: u64,
}

impl SeatData {
    /// A fresh seat record for one client.
    pub fn new(client: u64) -> (seat: Self)
        ensures
            seat.client == client,
    {
        SeatData { client }
    }
}

/// What connecting a client does to the seat table: a new entry for that
/// client, overwriting any stale prior entry for the same identity.
pub open spec fn seat_connect(seats: Map<u64, SeatData>, client: u64) -> Map<u64, SeatData> {
    seats.insert(client, (SeatData { client }))
}

/// Connecting two distinct clients yields two independent entries, each
/// retrievable by its own client identity.
pub proof fn lemma_seat_entries_independent(seats: Map<u64, SeatData>, a: u64, b: u64)
    requires
        a != b,
    ensures
        seat_connect(seat_connect(seats, a), b).contains_key(a),
        seat_connect(seat_connect(seats, a), b).contains_key(b),
        seat_connect(seat_connect(seats, a), b)[a] == (SeatData { client: a }),
        seat_connect(seat_connect(seats, a), b)[b] == (SeatData { client: b }),
{
}

/// Reusing a client identity overwrites the stale entry rather than
/// duplicating it: connecting the same client twice leaves the same table as
/// connecting it once.
pub proof fn lemma_seat_reconnect_overwrites(seats: Map<u64, SeatData>, client: u64)
    ensures
        seat_connect(seat_connect(seats, client), client) =~= seat_connect(seats, client),
        seat_connect(seats, client).dom() =~= seats.dom().insert(client),
{
}

} // verus!
