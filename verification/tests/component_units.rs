use plutonic::cancel::CancelTree;
use plutonic::command::Command;
use plutonic::command::CommandQueue;
use plutonic::command::ControlAction;
use plutonic::Bar;
use plutonic::Frame;
use plutonic::FrameKind;
use plutonic::InboundItem;
use plutonic::LoopEffect;
use plutonic::Quote;
use plutonic::Service;
use plutonic::SessionHandle;
use plutonic::Settings;
use plutonic::SubscriptionSet;
use plutonic::Trade;

fn symbols(list: &[&str]) -> Vec<String> {
    list.iter().map(|s| s.to_string()).collect()
}

#[test]
fn frame_kind_and_symbol() {
    let b = Frame::Bar(Bar {
        symbol: "AAPL".to_string(),
        open: 1,
        high: 2,
        low: 1,
        close: 2,
        volume: 3,
        timestamp: 4,
    });
    let q = Frame::Quote(Quote {
        symbol: "MSFT".to_string(),
        bid_price: 10,
        bid_size: 1,
        ask_price: 11,
        ask_size: 2,
        timestamp: 5,
    });
    let t = Frame::Trade(Trade {
        symbol: "TSLA".to_string(),
        price: 20,
        size: 2,
        timestamp: 6,
    });
    assert_eq!(b.kind(), FrameKind::Bar);
    assert_eq!(q.kind(), FrameKind::Quote);
    assert_eq!(t.kind(), FrameKind::Trade);
    assert_eq!(b.symbol(), "AAPL");
    assert_eq!(q.symbol(), "MSFT");
    assert_eq!(t.symbol(), "TSLA");
    assert_eq!(b.clone(), b);
}

#[test]
fn subscription_set_merge_and_subtract() {
    let mut acked = SubscriptionSet::empty();
    let req = SubscriptionSet {
        bars: symbols(&["AAPL", "MSFT"]),
        quotes: symbols(&["AAPL"]),
        trades: Vec::new(),
    };
    acked.merge(&req);
    assert!(acked.covers(FrameKind::Bar, &"AAPL".to_string()));
    assert!(acked.covers(FrameKind::Bar, &"MSFT".to_string()));
    assert!(acked.covers(FrameKind::Quote, &"AAPL".to_string()));
    assert!(!acked.covers(FrameKind::Trade, &"AAPL".to_string()));
    assert!(!acked.covers(FrameKind::Bar, &"TSLA".to_string()));

    let drop_req = SubscriptionSet {
        bars: symbols(&["AAPL"]),
        quotes: Vec::new(),
        trades: Vec::new(),
    };
    acked.subtract(&drop_req);
    assert!(!acked.covers(FrameKind::Bar, &"AAPL".to_string()));
    assert!(acked.covers(FrameKind::Bar, &"MSFT".to_string()));
    assert!(acked.covers(FrameKind::Quote, &"AAPL".to_string()));
}

#[test]
fn merging_duplicates_is_idempotent_on_membership() {
    let mut acked = SubscriptionSet::empty();
    let req = SubscriptionSet {
        bars: symbols(&["AAPL", "AAPL"]),
        quotes: Vec::new(),
        trades: Vec::new(),
    };
    acked.merge(&req);
    acked.merge(&req);
    assert!(acked.covers(FrameKind::Bar, &"AAPL".to_string()));
    let drop_req = SubscriptionSet {
        bars: symbols(&["AAPL"]),
        quotes: Vec::new(),
        trades: Vec::new(),
    };
    acked.subtract(&drop_req);
    assert!(!acked.covers(FrameKind::Bar, &"AAPL".to_string()));
}

#[test]
fn command_queue_is_fifo() {
    let mut q = CommandQueue::new();
    assert_eq!(q.len(), 0);
    for ticket in 0..3u64 {
        q.enqueue(Command {
            ticket,
            action: ControlAction::Subscribe(SubscriptionSet::empty()),
        });
    }
    assert_eq!(q.len(), 3);
    assert_eq!(q.dequeue().unwrap().ticket, 0);
    assert_eq!(q.dequeue().unwrap().ticket, 1);
    assert_eq!(q.dequeue().unwrap().ticket, 2);
    assert!(q.dequeue().is_none());
}

#[test]
fn cancel_tree_propagates_to_descendants() {
    let mut t = CancelTree::new();
    let root = t.add_root();
    let child = t.add_child(root);
    let grandchild = t.add_child(child);
    let sibling = t.add_child(root);
    assert!(!t.is_cancelled(grandchild));

    // Cancelling a mid-level node reaches its descendants only.
    t.cancel(child);
    assert!(t.is_cancelled(child));
    assert!(t.is_cancelled(grandchild));
    assert!(!t.is_cancelled(root));
    assert!(!t.is_cancelled(sibling));

    // Cancelling the root reaches everything beneath it.
    t.cancel(root);
    assert!(t.is_cancelled(root));
    assert!(t.is_cancelled(sibling));
}

#[test]
fn child_of_cancelled_parent_starts_cancelled() {
    let mut t = CancelTree::new();
    let root = t.add_root();
    t.cancel(root);
    let child = t.add_child(root);
    assert!(t.is_cancelled(child));
}

#[test]
fn settings_default_capacity() {
    let s = Settings::default();
    assert_eq!(s.subscriber_capacity, 2048);
}

#[test]
fn bounded_subscriber_drops_newest_when_full() {
    let mut h = SessionHandle::new(Settings { subscriber_capacity: 2 });
    let lazy = h.register_subscriber(FrameKind::Trade);
    let eager = h.register_subscriber(FrameKind::Trade);
    h.connect();
    for price in 1..=3u64 {
        let f = Frame::Trade(Trade {
            symbol: "AAPL".to_string(),
            price,
            size: 1,
            timestamp: price,
        });
        assert_eq!(h.on_inbound(InboundItem::Frame(f)), LoopEffect::Published);
        // The eager consumer drains immediately and sees every frame.
        let got = h.take_frame(eager).expect("eager consumer keeps up");
        assert_eq!(got.symbol(), "AAPL");
        if let Frame::Trade(tr) = got {
            assert_eq!(tr.price, price);
        } else {
            panic!("expected a trade frame");
        }
    }
    // The lazy consumer holds at most its capacity, oldest first: the
    // third frame was dropped for it alone, never reordered.
    let first = h.take_frame(lazy).expect("first queued frame");
    let second = h.take_frame(lazy).expect("second queued frame");
    assert!(h.take_frame(lazy).is_none());
    if let (Frame::Trade(a), Frame::Trade(b)) = (first, second) {
        assert_eq!(a.price, 1);
        assert_eq!(b.price, 2);
    } else {
        panic!("expected trade frames");
    }
}

#[test]
fn publication_ignores_other_kinds() {
    let mut h = SessionHandle::new(Settings { subscriber_capacity: 4 });
    let bars = h.register_subscriber(FrameKind::Bar);
    h.connect();
    let f = Frame::Quote(Quote {
        symbol: "AAPL".to_string(),
        bid_price: 1,
        bid_size: 1,
        ask_price: 2,
        ask_size: 1,
        timestamp: 1,
    });
    assert_eq!(h.on_inbound(InboundItem::Frame(f)), LoopEffect::Published);
    assert_eq!(h.take_frame(bars), None);
}

#[test]
fn service_trait_controls_the_handle() {
    let mut h = SessionHandle::new(Settings { subscriber_capacity: 4 });
    h.start();
    assert!(h.is_connected());
    h.stop();
    assert!(!h.is_connected());
    assert!(h.session_is_cancelled());
    // A second stop is harmless.
    h.stop();

    let mut other = SessionHandle::new(Settings { subscriber_capacity: 4 });
    other.start();
    other.shutdown();
    assert!(other.session_is_cancelled());
}
