//! The decisions of the `Receive` future, which drains the stream of rpcs that
//! the server sends to the client.
use vstd::prelude::*;

verus! {

/// What one poll of the incoming half of the connection yields.
#[derive(Debug)]
pub enum Incoming<I, E> {
    /// The server sent an rpc to the client.
    Rpc(I),
    /// The server properly terminated the connection.
    End,
    /// Nothing is available yet.
    NotReady,
    /// The connection failed.
    Failed(E),
}

/// What a poll of the `Receive` future yields once it stops polling the
/// incoming stream.
#[derive(Debug, PartialEq, Eq, Structural)]
pub enum ReceiveStatus<E> {
    /// The server properly terminated the connection.
    Done,
    /// The incoming stream has nothing available yet.
    Pending,
    /// The connection failed with this error.
    Failed(E),
}

/// How the `Receive` future reacts to one poll of the incoming stream:
/// `None` means that it polls the stream again, which it does after each
/// rpc of the server; anything else ends the current poll of the future.
pub open spec fn spec_receive_step<I, E>(event: Incoming<I, E>) -> Option<ReceiveStatus<E>> {
    match event {
        Incoming::Rpc(_) => None,
        Incoming::End => Some(ReceiveStatus::Done),
        Incoming::NotReady => Some(ReceiveStatus::Pending),
        Incoming::Failed(e) => Some(ReceiveStatus::Failed(e)),
    }
}

/// What one poll of the `Receive` future yields when the incoming stream
/// yields the events of `trace`, one per poll of the stream, in order:
/// `None` where the trace runs out before the poll ends.
pub open spec fn receive_run<I, E>(trace: Seq<Incoming<I, E>>) -> Option<ReceiveStatus<E>>
    decreases trace.len(),
{
    if trace.len() == 0 {
        None
    } else {
        match spec_receive_step(trace[0]) {
            None => receive_run(trace.drop_first()),
            Some(status) => Some(status),
        }
    }
}

/// Every event of `trace` is an rpc of the server.
pub open spec fn all_rpcs<I, E>(trace: Seq<Incoming<I, E>>) -> bool {
    forall|i: int| 0 <= i < trace.len() ==> (#[trigger] trace[i]) is Rpc
}

/// Reacts to one poll of the incoming stream of rpcs: an rpc is dropped and
/// the stream is polled again (`None`); the end of the stream completes the
/// future; a pending stream leaves it pending; an error fails it.
pub fn receive_step<I, E>(event: Incoming<I, E>) -> (status: Option<ReceiveStatus<E>>)
    ensures
        status == spec_receive_step(event),
{
    match event {
        Incoming::Rpc(_) => None,
        Incoming::End => Some(ReceiveStatus::Done),
        Incoming::NotReady => Some(ReceiveStatus::Pending),
        Incoming::Failed(e) => Some(ReceiveStatus::Failed(e)),
    }
}

/// Rpcs of the server have no effect on the outcome of a poll of `Receive`:
/// whatever rpcs come first, the poll ends as it would without them.
pub proof fn lemma_rpcs_are_ignored<I, E>(rpcs: Seq<Incoming<I, E>>, rest: Seq<Incoming<I, E>>)
    requires
        all_rpcs(rpcs),
    ensures
        receive_run(rpcs + rest) == receive_run(rest),
    decreases rpcs.len(),
{
    if rpcs.len() > 0 {
        assert(rpcs[0] is Rpc);
        assert((rpcs + rest).drop_first() =~= rpcs.drop_first() + rest);
        lemma_rpcs_are_ignored(rpcs.drop_first(), rest);
    } else {
        assert(rpcs + rest =~= rest);
    }
}

/// A poll of `Receive` ends as the first event of the incoming stream that is
/// not an rpc decides: done at the end of the stream, pending while the
/// stream is, failed with the stream's error.
pub proof fn lemma_first_non_rpc_decides<I, E>(trace: Seq<Incoming<I, E>>, k: int)
    requires
        0 <= k < trace.len(),
        all_rpcs(trace.take(k)),
        !(trace[k] is Rpc),
    ensures
        receive_run(trace) == spec_receive_step(trace[k]),
{
    let rest = trace.skip(k);
    assert(trace =~= trace.take(k) + rest);
    lemma_rpcs_are_ignored(trace.take(k), rest);
    assert(rest[0] == trace[k]);
}

/// A poll of `Receive` completes with `()` exactly when the server terminates
/// the connection before anything but rpcs happens on it.
pub proof fn lemma_done_iff_end<I, E>(trace: Seq<Incoming<I, E>>)
    ensures
        receive_run(trace) == Some(ReceiveStatus::<E>::Done) <==> exists|k: int|
            0 <= k < trace.len() && all_rpcs(#[trigger] trace.take(k)) && trace[k] is End,
    decreases trace.len(),
{
    if trace.len() > 0 {
        let tail = trace.drop_first();
        lemma_done_iff_end(tail);
        if trace[0] is Rpc {
            if receive_run(trace) == Some(ReceiveStatus::<E>::Done) {
                let k = choose|k: int| 0 <= k < tail.len() && all_rpcs(#[trigger] tail.take(k)) && tail[k] is End;
                assert(trace.take(k + 1) =~= seq![trace[0]] + tail.take(k));
                assert(all_rpcs(trace.take(k + 1)));
                assert(trace[k + 1] is End);
            }
            if exists|k: int| 0 <= k < trace.len() && all_rpcs(#[trigger] trace.take(k)) && trace[k] is End {
                let k = choose|k: int| 0 <= k < trace.len() && all_rpcs(#[trigger] trace.take(k)) && trace[k] is End;
                assert(k > 0);
                assert(tail.take(k - 1) =~= trace.take(k).drop_first());
                assert(all_rpcs(tail.take(k - 1)));
                assert(tail[k - 1] is End);
            }
        } else {
            if exists|k: int| 0 <= k < trace.len() && all_rpcs(#[trigger] trace.take(k)) && trace[k] is End {
                let k = choose|k: int| 0 <= k < trace.len() && all_rpcs(#[trigger] trace.take(k)) && trace[k] is End;
                if k > 0 {
                    assert(trace.take(k)[0] is Rpc);
                }
            }
            if trace[0] is End {
                assert(all_rpcs(trace.take(0)));
            }
        }
    }
}

} // verus!
