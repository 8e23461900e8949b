use ssb_client::{receive_step, Incoming, ReceiveStatus};

/// Drives one poll of the `Receive` future over the given events of the
/// incoming stream, the way the future's `poll` does.
fn run(events: Vec<Incoming<u32, &'static str>>) -> Option<ReceiveStatus<&'static str>> {
    for event in events {
        if let Some(status) = receive_step(event) {
            return Some(status);
        }
    }
    None
}

#[test]
fn rpc_is_dropped_and_stream_polled_again() {
    assert_eq!(receive_step::<u32, &str>(Incoming::Rpc(3)), None);
}

#[test]
fn end_of_stream_completes() {
    assert_eq!(receive_step::<u32, &str>(Incoming::End), Some(ReceiveStatus::Done));
}

#[test]
fn not_ready_stream_leaves_future_pending() {
    assert_eq!(receive_step::<u32, &str>(Incoming::NotReady), Some(ReceiveStatus::Pending));
}

#[test]
fn stream_error_fails_future() {
    assert_eq!(
        receive_step::<u32, &str>(Incoming::Failed("not json")),
        Some(ReceiveStatus::Failed("not json"))
    );
}

#[test]
fn rpcs_before_end_are_ignored() {
    let events = vec![Incoming::Rpc(1), Incoming::Rpc(2), Incoming::Rpc(3), Incoming::End, Incoming::Failed("later")];
    assert_eq!(run(events), Some(ReceiveStatus::Done));
    assert_eq!(run(vec![Incoming::End]), Some(ReceiveStatus::Done));
}

#[test]
fn first_non_rpc_event_decides() {
    let events = vec![Incoming::Rpc(1), Incoming::NotReady, Incoming::End];
    assert_eq!(run(events), Some(ReceiveStatus::Pending));
    let events = vec![Incoming::Rpc(1), Incoming::Failed("closed"), Incoming::End];
    assert_eq!(run(events), Some(ReceiveStatus::Failed("closed")));
    assert_eq!(run(vec![Incoming::Rpc(1), Incoming::Rpc(2)]), None);
}
