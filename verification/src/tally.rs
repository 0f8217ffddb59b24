//! Sums over the requests of the contract (what they move, and what they
//! announce) and over its streams.
use crate::types::{Event, Request, Stream};
use soroban_sdk::Address;
use vstd::prelude::*;

verus! {

/// The sum of a measure over a sequence of requests.
pub open spec fn total(requests: Seq<Request>, measure: spec_fn(Request) -> int) -> int
    decreases requests.len(),
{
    if requests.len() == 0 {
        0
    } else {
        total(requests.drop_last(), measure) + measure(requests.last())
    }
}

pub broadcast proof fn lemma_total_empty(measure: spec_fn(Request) -> int)
    ensures
        #[trigger] total(Seq::empty(), measure) == 0,
{
}

pub broadcast proof fn lemma_total_push(
    requests: Seq<Request>,
    request: Request,
    measure: spec_fn(Request) -> int,
)
    ensures
        #[trigger] total(requests.push(request), measure) == total(requests, measure) + measure(
            request,
        ),
{
    assert(requests.push(request).drop_last() =~= requests);
}

pub broadcast proof fn lemma_total_concat(
    before: Seq<Request>,
    added: Seq<Request>,
    measure: spec_fn(Request) -> int,
)
    ensures
        #[trigger] total(before + added, measure) == total(before, measure) + total(
            added,
            measure,
        ),
    decreases added.len(),
{
    if added.len() == 0 {
        assert(before + added =~= before);
    } else {
        assert((before + added).drop_last() =~= before + added.drop_last());
        lemma_total_concat(before, added.drop_last(), measure);
    }
}

pub broadcast group group_total {
    lemma_total_empty,
    lemma_total_push,
    lemma_total_concat,
}

/// What a request moves of `token` out of the account `from` into the account
/// `to`, under a numbering `account` of addresses.
pub open spec fn moved_by(
    request: Request,
    account: spec_fn(Address) -> int,
    token: int,
    from: int,
    to: int,
) -> int {
    match request {
        Request::Transfer { token: t, from: f, to: g, amount } => if account(t) == token && account(
            f,
        ) == from && account(g) == to {
            amount as int
        } else {
            0
        },
        _ => 0,
    }
}

/// What the given requests move of `token` out of the account `from` into the
/// account `to`, under a numbering `account` of addresses.
pub open spec fn moved(
    requests: Seq<Request>,
    account: spec_fn(Address) -> int,
    token: int,
    from: int,
    to: int,
) -> int {
    total(requests, |request: Request| moved_by(request, account, token, from, to))
}

/// What a request transfers, whoever the parties are.
pub open spec fn transferred_by(request: Request) -> int {
    match request {
        Request::Transfer { amount, .. } => amount as int,
        _ => 0,
    }
}

/// The sum of all transfers among the given requests.
pub open spec fn transferred(requests: Seq<Request>) -> int {
    total(requests, |request: Request| transferred_by(request))
}

/// By how much serving a request changes the balance of `holder` in `token`,
/// under a numbering `account` of addresses.
pub open spec fn balance_change_by(
    request: Request,
    account: spec_fn(Address) -> int,
    token: int,
    holder: int,
) -> int {
    match request {
        Request::Transfer { token: t, from, to, amount } => if account(t) == token {
            (if account(to) == holder {
                amount as int
            } else {
                0
            }) - (if account(from) == holder {
                amount as int
            } else {
                0
            })
        } else {
            0
        },
        _ => 0,
    }
}

/// By how much serving the given requests changes the balance of `holder` in
/// `token`, under a numbering `account` of addresses.
pub open spec fn balance_change(
    requests: Seq<Request>,
    account: spec_fn(Address) -> int,
    token: int,
    holder: int,
) -> int {
    total(requests, |request: Request| balance_change_by(request, account, token, holder))
}

/// What a request announces to be paid to the recipient of the stream `id`.
pub open spec fn announced_paid_by(request: Request, id: u32) -> int {
    match request {
        Request::Publish(Event::Withdrawn(event)) if event.stream_id == id => event.amount as int,
        Request::Publish(Event::Canceled(event)) if event.stream_id == id =>
            event.paid_to_recipient as int,
        _ => 0,
    }
}

/// What the given requests announce to be paid to the recipient of the stream
/// `id`.
pub open spec fn announced_paid(requests: Seq<Request>, id: u32) -> int {
    total(requests, |request: Request| announced_paid_by(request, id))
}

/// What a request announces to be refunded to the sender of the stream `id`.
pub open spec fn announced_refund_by(request: Request, id: u32) -> int {
    match request {
        Request::Publish(Event::Canceled(event)) if event.stream_id == id =>
            event.refunded_to_sender as int,
        _ => 0,
    }
}

/// What the given requests announce to be refunded to the sender of the stream
/// `id`.
pub open spec fn announced_refund(requests: Seq<Request>, id: u32) -> int {
    total(requests, |request: Request| announced_refund_by(request, id))
}

/// The measure of the stream `id`, or nothing where there is no such stream.
pub open spec fn stream_share(
    streams: Map<u32, Stream>,
    measure: spec_fn(Stream) -> int,
    id: int,
) -> int {
    if 0 <= id <= u32::MAX && streams.contains_key(id as u32) {
        measure(streams[id as u32])
    } else {
        0
    }
}

/// The sum of a measure over the streams with ids below `bound`.
pub open spec fn streams_total(
    streams: Map<u32, Stream>,
    measure: spec_fn(Stream) -> int,
    bound: nat,
) -> int
    decreases bound,
{
    if bound == 0 {
        0
    } else {
        streams_total(streams, measure, (bound - 1) as nat) + stream_share(
            streams,
            measure,
            bound - 1,
        )
    }
}

/// Setting a stream changes a sum by the difference that it makes to its own
/// share.
pub proof fn lemma_streams_total_insert(
    streams: Map<u32, Stream>,
    measure: spec_fn(Stream) -> int,
    bound: nat,
    id: u32,
    stream: Stream,
)
    ensures
        streams_total(streams.insert(id, stream), measure, bound) == streams_total(
            streams,
            measure,
            bound,
        ) + if id < bound {
            measure(stream) - stream_share(streams, measure, id as int)
        } else {
            0
        },
    decreases bound,
{
    if bound > 0 {
        lemma_streams_total_insert(streams, measure, (bound - 1) as nat, id, stream);
    }
}

/// A sum is at most another one if every share is.
pub proof fn lemma_streams_total_ordered(
    streams: Map<u32, Stream>,
    smaller: spec_fn(Stream) -> int,
    larger: spec_fn(Stream) -> int,
    bound: nat,
)
    requires
        forall|id: u32| #[trigger]
            streams.contains_key(id) ==> smaller(streams[id]) <= larger(streams[id]),
    ensures
        streams_total(streams, smaller, bound) <= streams_total(streams, larger, bound),
    decreases bound,
{
    if bound > 0 {
        lemma_streams_total_ordered(streams, smaller, larger, (bound - 1) as nat);
    }
}

} // verus!
