use plutonic::Bar;
use plutonic::Completion;
use plutonic::ControlAction;
use plutonic::ControlError;
use plutonic::DecodeError;
use plutonic::Frame;
use plutonic::FrameKind;
use plutonic::InboundItem;
use plutonic::LoopEffect;
use plutonic::SessionClosedError;
use plutonic::SessionHandle;
use plutonic::Settings;
use plutonic::SubscriptionSet;
use plutonic::TransportError;

fn bars_of(symbols: &[&str]) -> SubscriptionSet {
    SubscriptionSet {
        bars: symbols.iter().map(|s| s.to_string()).collect(),
        quotes: Vec::new(),
        trades: Vec::new(),
    }
}

fn bar_frame(symbol: &str, close: u64) -> Frame {
    Frame::Bar(Bar {
        symbol: symbol.to_string(),
        open: close,
        high: close + 1,
        low: close - 1,
        close,
        volume: 100,
        timestamp: close * 10,
    })
}

fn handle() -> SessionHandle {
    SessionHandle::new(Settings { subscriber_capacity: 8 })
}

#[test]
fn subscribe_without_connect_fails() {
    let mut h = handle();
    assert_eq!(h.subscribe(bars_of(&["AAPL"])), Err(SessionClosedError));
    assert_eq!(h.unsubscribe(bars_of(&["AAPL"])), Err(SessionClosedError));
    assert!(!h.is_connected());
}

#[test]
fn subscribe_after_connect_succeeds() {
    let mut h = handle();
    h.connect();
    assert!(h.is_connected());
    assert_eq!(h.subscribe(bars_of(&["AAPL"])), Ok(0));
    assert_eq!(h.subscribe(bars_of(&["MSFT"])), Ok(1));
    assert_eq!(h.queued_commands(), 2);
}

#[test]
fn commands_serviced_in_fifo_order() {
    let mut h = handle();
    h.connect();
    let t0 = h.subscribe(bars_of(&["AAPL"])).unwrap();
    let t1 = h.subscribe(bars_of(&["MSFT"])).unwrap();
    let t2 = h.unsubscribe(bars_of(&["AAPL"])).unwrap();

    let c0 = h.begin_handshake().expect("first command");
    assert_eq!(c0.ticket, t0);
    assert!(matches!(c0.action, ControlAction::Subscribe(_)));
    assert_eq!(
        h.on_inbound(InboundItem::AckOk),
        LoopEffect::Complete(Completion { ticket: t0, outcome: Ok(()) })
    );

    let c1 = h.begin_handshake().expect("second command");
    assert_eq!(c1.ticket, t1);
    assert_eq!(
        h.on_inbound(InboundItem::AckOk),
        LoopEffect::Complete(Completion { ticket: t1, outcome: Ok(()) })
    );

    let c2 = h.begin_handshake().expect("third command");
    assert_eq!(c2.ticket, t2);
    assert!(matches!(c2.action, ControlAction::Unsubscribe(_)));
    assert_eq!(
        h.on_inbound(InboundItem::AckOk),
        LoopEffect::Complete(Completion { ticket: t2, outcome: Ok(()) })
    );

    assert!(h.begin_handshake().is_none());
}

#[test]
fn acknowledged_subscriptions_follow_handshakes() {
    let mut h = handle();
    h.connect();
    h.subscribe(bars_of(&["AAPL", "MSFT"])).unwrap();
    h.begin_handshake().unwrap();
    h.on_inbound(InboundItem::AckOk);
    assert!(h.acked_covers(FrameKind::Bar, &"AAPL".to_string()));
    assert!(h.acked_covers(FrameKind::Bar, &"MSFT".to_string()));
    assert!(!h.acked_covers(FrameKind::Quote, &"AAPL".to_string()));

    h.unsubscribe(bars_of(&["AAPL"])).unwrap();
    h.begin_handshake().unwrap();
    h.on_inbound(InboundItem::AckOk);
    assert!(!h.acked_covers(FrameKind::Bar, &"AAPL".to_string()));
    assert!(h.acked_covers(FrameKind::Bar, &"MSFT".to_string()));
}

#[test]
fn rejected_handshake_is_caller_local() {
    let mut h = handle();
    h.connect();
    let t = h.subscribe(bars_of(&["AAPL"])).unwrap();
    h.begin_handshake().unwrap();
    assert_eq!(
        h.on_inbound(InboundItem::AckRejected),
        LoopEffect::Complete(Completion {
            ticket: t,
            outcome: Err(ControlError::Rejected)
        })
    );
    // The session survives: the acked set is untouched and later commands work.
    assert!(!h.acked_covers(FrameKind::Bar, &"AAPL".to_string()));
    assert!(h.is_connected());
    assert_eq!(h.subscribe(bars_of(&["MSFT"])), Ok(t + 1));
}

#[test]
fn frames_read_during_handshake_are_not_republished() {
    let mut h = handle();
    let sub = h.register_subscriber(FrameKind::Bar);
    h.connect();
    h.subscribe(bars_of(&["AAPL"])).unwrap();
    h.begin_handshake().unwrap();
    assert_eq!(
        h.on_inbound(InboundItem::Frame(bar_frame("AAPL", 10))),
        LoopEffect::ConsumedByHandshake
    );
    h.on_inbound(InboundItem::AckOk);
    // The consumed frame never reaches the fan-out.
    assert_eq!(h.take_frame(sub), None);
    // After the handshake, frames flow again.
    assert_eq!(
        h.on_inbound(InboundItem::Frame(bar_frame("AAPL", 11))),
        LoopEffect::Published
    );
    assert_eq!(h.take_frame(sub), Some(bar_frame("AAPL", 11)));
}

#[test]
fn unexpected_ack_is_discarded() {
    let mut h = handle();
    h.connect();
    assert_eq!(h.on_inbound(InboundItem::AckOk), LoopEffect::UnexpectedAck);
    assert_eq!(h.on_inbound(InboundItem::AckRejected), LoopEffect::UnexpectedAck);
    assert!(h.is_connected());
}

#[test]
fn malformed_frame_is_skipped_not_fatal() {
    let mut h = handle();
    let sub = h.register_subscriber(FrameKind::Bar);
    h.connect();
    assert_eq!(
        h.on_inbound(InboundItem::Malformed(DecodeError)),
        LoopEffect::Discarded
    );
    // The bad frame never appears in any fan-out output.
    assert_eq!(h.take_frame(sub), None);
    // Subsequent valid frames are still delivered.
    assert_eq!(
        h.on_inbound(InboundItem::Frame(bar_frame("AAPL", 7))),
        LoopEffect::Published
    );
    assert_eq!(h.take_frame(sub), Some(bar_frame("AAPL", 7)));
    assert!(h.is_connected());
}

#[test]
fn transport_error_tears_the_session_down() {
    let mut h = handle();
    h.connect();
    h.subscribe(bars_of(&["AAPL"])).unwrap();
    let t1 = h.subscribe(bars_of(&["MSFT"])).unwrap();
    // Take the first command up, then lose the transport mid-handshake.
    let c0 = h.begin_handshake().unwrap();
    assert_eq!(
        h.on_inbound(InboundItem::Failed(TransportError)),
        LoopEffect::Terminated(Some(Completion {
            ticket: c0.ticket,
            outcome: Err(ControlError::SessionClosed)
        }))
    );
    // The cancellation signal is observably raised.
    assert!(h.session_is_cancelled());
    // Later commands fail fast.
    assert_eq!(h.subscribe(bars_of(&["TSLA"])), Err(SessionClosedError));
    // The still-queued command is answered, not silently dropped.
    let done = h.teardown();
    assert_eq!(done.len(), 1);
    assert_eq!(done[0].ticket, t1);
    assert_eq!(done[0].outcome, Err(ControlError::SessionClosed));
    assert!(!h.has_live_session());
}

#[test]
fn exhausted_stream_is_fatal() {
    let mut h = handle();
    h.connect();
    assert_eq!(
        h.on_inbound(InboundItem::Exhausted),
        LoopEffect::Terminated(None)
    );
    assert!(h.session_is_cancelled());
    assert_eq!(h.subscribe(bars_of(&["AAPL"])), Err(SessionClosedError));
}

#[test]
fn disconnect_cancels_within_one_iteration() {
    let mut h = handle();
    h.connect();
    h.disconnect();
    // The signal is raised at once; the loop observes it at its next
    // iteration and terminates.
    assert!(h.session_is_cancelled());
    assert_eq!(h.on_cancelled(), LoopEffect::Terminated(None));
    let done = h.teardown();
    assert!(done.is_empty());
    // Commands after disconnect fail fast.
    assert_eq!(h.subscribe(bars_of(&["AAPL"])), Err(SessionClosedError));
    assert_eq!(h.unsubscribe(bars_of(&["AAPL"])), Err(SessionClosedError));
}

#[test]
fn cancellation_with_pending_handshake_fails_the_caller() {
    let mut h = handle();
    h.connect();
    let t = h.subscribe(bars_of(&["AAPL"])).unwrap();
    h.begin_handshake().unwrap();
    h.disconnect();
    assert_eq!(
        h.on_cancelled(),
        LoopEffect::Terminated(Some(Completion {
            ticket: t,
            outcome: Err(ControlError::SessionClosed)
        }))
    );
}

#[test]
fn reconnect_after_teardown() {
    let mut h = handle();
    h.connect();
    h.on_inbound(InboundItem::Failed(TransportError));
    h.teardown();
    h.connect();
    assert!(h.is_connected());
    assert_eq!(h.subscribe(bars_of(&["AAPL"])), Ok(0));
}

#[test]
fn scenario_two_subscribers_one_registering_late() {
    let mut h = handle();
    let a = h.register_subscriber(FrameKind::Bar);
    h.connect();
    h.subscribe(bars_of(&["AAPL"])).unwrap();
    h.begin_handshake().unwrap();
    h.on_inbound(InboundItem::AckOk);
    assert!(h.acked_covers(FrameKind::Bar, &"AAPL".to_string()));

    // Three bar frames arrive in sequence; B registers after the first
    // has been published.
    h.on_inbound(InboundItem::Frame(bar_frame("AAPL", 1)));
    let b = h.register_subscriber(FrameKind::Bar);
    h.on_inbound(InboundItem::Frame(bar_frame("AAPL", 2)));
    h.on_inbound(InboundItem::Frame(bar_frame("AAPL", 3)));

    // A receives all three frames, in order.
    assert_eq!(h.take_frame(a), Some(bar_frame("AAPL", 1)));
    assert_eq!(h.take_frame(a), Some(bar_frame("AAPL", 2)));
    assert_eq!(h.take_frame(a), Some(bar_frame("AAPL", 3)));
    assert_eq!(h.take_frame(a), None);

    // B receives frames 2 and 3 only.
    assert_eq!(h.take_frame(b), Some(bar_frame("AAPL", 2)));
    assert_eq!(h.take_frame(b), Some(bar_frame("AAPL", 3)));
    assert_eq!(h.take_frame(b), None);
}
