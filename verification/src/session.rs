//! The live session and its caller-facing handle.
//!
//! A [`SessionHandle`] owns the whole state of the connection manager: the
//! cancellation forest, the fan-out, and — while a session is live — the
//! session's command queue, handshake phase and acknowledged subscription
//! set. Callers reach it through `connect`, `disconnect`, `subscribe` and
//! `unsubscribe`; the surrounding event loop drives it through
//! `begin_handshake`, `on_inbound`, `on_cancelled` and `teardown`, and
//! performs the effect each of those returns. The embedder serializes
//! concurrent callers with a short-held lock around these calls and never
//! holds it across a suspension point.
//!
//! The loop services exactly one event per iteration. A control handshake
//! is driven over the same inbound stream that delivers data: while an
//! acknowledgement is awaited the session is in a distinct phase in which
//! inbound data frames are consumed by the handshake driver and not
//! published, and no second handshake may begin.

use vstd::prelude::*;

use crate::cancel::cancel_post;
use crate::cancel::CancelTree;
use crate::command::same_request;
use crate::command::tickets_of;
use crate::command::Command;
use crate::command::CommandQueue;
use crate::command::ControlAction;
use crate::errors::ControlError;
use crate::errors::DecodeError;
use crate::errors::SessionClosedError;
use crate::errors::TransportError;
use crate::fanout::publish_post;
use crate::fanout::FanOut;
use crate::frame::Frame;
use crate::frame::FrameKind;
use crate::subs::merged;
use crate::subs::subtracted;
use crate::subs::SubscriptionSet;

verus! {

/// Construction-time choices of the connection manager.
#[derive(Clone, Copy, Debug, PartialEq, Eq, Structural)]
pub struct Settings {
    /// Queue bound handed to every registered subscriber; when a
    /// subscriber's queue holds this many undelivered frames, further
    /// frames are dropped for that subscriber until it drains.
    pub subscriber_capacity: usize,
}

impl Default for Settings {
    /// Room for plenty of undelivered frames per subscriber.
    fn default() -> (s: Self)
        ensures
            s.subscriber_capacity == 2048,
    {
        Settings { subscriber_capacity: 2048 }
    }
}

/// One item read from the inbound side of the transport.
#[derive(Debug)]
pub enum InboundItem {
    /// A successfully decoded data frame.
    Frame(Frame),
    /// A frame that could not be decoded. Never fatal.
    Malformed(DecodeError),
    /// The acknowledgement of the handshake in flight: accepted.
    AckOk,
    /// The acknowledgement of the handshake in flight: rejected.
    AckRejected,
    /// The transport failed unrecoverably. Fatal.
    Failed(TransportError),
    /// The inbound stream is exhausted. Fatal.
    Exhausted,
}

/// The outcome of one control handshake, addressed to the completion
/// channel of the caller that issued the command.
#[derive(Clone, Copy, Debug, PartialEq, Eq)]
pub struct Completion {
    /// The issuing caller's completion channel.
    pub ticket: u64,
    /// Success, or why the handshake failed.
    pub outcome: Result<(), ControlError>,
}

/// What the surrounding loop must do after one serviced event.
#[derive(Clone, Copy, Debug, PartialEq, Eq)]
pub enum LoopEffect {
    /// The frame was published to the fan-out; keep looping.
    Published,
    /// A malformed frame was discarded; worth a log line, never fatal.
    Discarded,
    /// A data frame arrived while an acknowledgement was awaited; it was
    /// consumed by the handshake driver and is not re-delivered.
    ConsumedByHandshake,
    /// An acknowledgement arrived outside any handshake; discarded.
    UnexpectedAck,
    /// Surface this outcome on the issuing caller's completion channel;
    /// the session continues either way.
    Complete(Completion),
    /// The session is down: exit the loop and call `teardown`. Surfaces
    /// the pending handshake's failure first, if one was in flight.
    Terminated(Option<Completion>),
}

/// Whether the loop is between handshakes or driving one.
enum LoopPhase {
    /// Inbound data frames are published to the fan-out; a queued command
    /// may be taken up.
    Idle,
    /// This command's request has been sent and its acknowledgement is
    /// being awaited on the shared inbound stream.
    AwaitingAck(Command),
}

/// The state of one live session.
struct LiveSession {
    /// This session's node in the cancellation forest.
    cancel_id: usize,
    /// Commands accepted but not yet taken up by the loop.
    queue: CommandQueue,
    /// Idle, or driving one handshake.
    phase: LoopPhase,
    /// The currently acknowledged subscriptions.
    acked: SubscriptionSet,
    /// The handle still holds this session's command sender.
    sender_live: bool,
    /// The loop has terminated; only `teardown` remains.
    terminated: bool,
    /// Tickets of every command accepted into the queue, in order.
    arrivals: Ghost<Seq<u64>>,
    /// Tickets whose handshake has been taken up, in order.
    served: Ghost<Seq<u64>>,
}

/// Caller-facing facade of the connection manager, holding at most one
/// live session at a time.
pub struct SessionHandle {
    settings: Settings,
    tree: CancelTree,
    /// The parent cancellation signal every session is spawned beneath.
    root: usize,
    fanout: FanOut,
    /// Next command ticket to hand out; tickets are never reused.
    next_ticket: u64,
    live: Option<LiveSession>,
}

/// Internal consistency of one live session.
spec fn live_wf(s: LiveSession) -> bool {
    &&& s.arrivals@ == s.served@ + tickets_of(s.queue@)
    &&& forall|i: int, j: int|
        0 <= i < j < s.arrivals@.len() ==> #[trigger] s.arrivals@[i] < #[trigger] s.arrivals@[j]
    &&& match s.phase {
        LoopPhase::AwaitingAck(c) => s.served@.len() > 0 && s.served@.last() == c.ticket,
        LoopPhase::Idle => true,
    }
    &&& match s.phase {
        LoopPhase::AwaitingAck(_) => !s.terminated,
        LoopPhase::Idle => true,
    }
}

impl SessionHandle {
    /// The cancellation forest.
    pub closed spec fn tree_view(self) -> CancelTree {
        self.tree
    }

    /// The fan-out of decoded frames.
    pub closed spec fn fanout_view(self) -> FanOut {
        self.fanout
    }

    /// The parent cancellation signal.
    pub closed spec fn root_node(self) -> int {
        self.root as int
    }

    /// The construction-time choices.
    pub closed spec fn settings_view(self) -> Settings {
        self.settings
    }

    /// The next command ticket to be handed out.
    pub closed spec fn next_ticket_spec(self) -> u64 {
        self.next_ticket
    }

    /// Whether a session exists, live or awaiting teardown.
    pub closed spec fn has_session(self) -> bool {
        self.live is Some
    }

    /// The live session's node in the cancellation forest.
    pub closed spec fn session_node(self) -> int {
        match self.live {
            Some(s) => s.cancel_id as int,
            None => 0,
        }
    }

    /// Whether the session's cancellation signal has been observed as
    /// raised, through its own flag or an ancestor's.
    pub closed spec fn session_cancelled(self) -> bool {
        self.tree.observes_cancel(self.session_node())
    }

    /// Whether the handle still holds the session's command sender.
    pub closed spec fn sender_installed(self) -> bool {
        match self.live {
            Some(s) => s.sender_live,
            None => false,
        }
    }

    /// Whether the session loop has terminated.
    pub closed spec fn is_terminated(self) -> bool {
        match self.live {
            Some(s) => s.terminated,
            None => false,
        }
    }

    /// Whether a command issued now would be accepted: a session exists,
    /// the handle still holds its sender, and the loop has not terminated.
    pub open spec fn accepts_commands(self) -> bool {
        self.has_session() && self.sender_installed() && !self.is_terminated()
    }

    /// The commands accepted but not yet taken up, oldest first.
    pub closed spec fn queued(self) -> Seq<Command> {
        match self.live {
            Some(s) => s.queue@,
            None => Seq::empty(),
        }
    }

    /// The command whose handshake is in flight, if any.
    pub closed spec fn pending(self) -> Option<Command> {
        match self.live {
            Some(s) => match s.phase {
                LoopPhase::Idle => None,
                LoopPhase::AwaitingAck(c) => Some(c),
            },
            None => None,
        }
    }

    /// Whether the loop is between handshakes.
    pub open spec fn handshake_idle(self) -> bool {
        self.pending() is None
    }

    /// The currently acknowledged subscriptions.
    pub closed spec fn acked_subs(self) -> SubscriptionSet {
        match self.live {
            Some(s) => s.acked,
            None => arbitrary(),
        }
    }

    /// Tickets of every command accepted into this session, in order.
    pub closed spec fn arrivals(self) -> Seq<u64> {
        match self.live {
            Some(s) => s.arrivals@,
            None => Seq::empty(),
        }
    }

    /// Tickets whose handshake has been taken up, in order.
    pub closed spec fn served(self) -> Seq<u64> {
        match self.live {
            Some(s) => s.served@,
            None => Seq::empty(),
        }
    }

    /// Internal consistency of the whole handle.
    pub closed spec fn wf(self) -> bool {
        &&& self.tree.wf()
        &&& self.root < self.tree.len()
        &&& self.fanout.wf()
        &&& self.settings.subscriber_capacity > 0
        &&& match self.live {
            Some(s) => {
                &&& live_wf(s)
                &&& s.cancel_id < self.tree.len()
                &&& self.tree.reaches(s.cancel_id as int, self.root as int)
                &&& forall|i: int|
                    0 <= i < s.arrivals@.len() ==> #[trigger] s.arrivals@[i] < self.next_ticket
            },
            None => true,
        }
    }

    /// A handle with no session and no subscribers, under a fresh parent
    /// cancellation signal.
    pub fn new(settings: Settings) -> (h: Self)
        requires
            settings.subscriber_capacity > 0,
        ensures
            h.wf(),
            !h.has_session(),
            !h.accepts_commands(),
            h.settings_view() == settings,
            h.fanout_view().subscriber_count() == 0,
            h.fanout_view().log() == Seq::<Frame>::empty(),
            h.next_ticket_spec() == 0,
            !h.tree_view().observes_cancel(h.root_node()),
    {
        let mut tree = CancelTree::new();
        let root = tree.add_root();
        SessionHandle {
            settings,
            tree,
            root,
            fanout: FanOut::new(),
            next_ticket: 0,
            live: None,
        }
    }

    /// Starts a fresh session: creates a child cancellation signal beneath
    /// the parent and installs the new session's command sender. Always
    /// creates a new session; a previous one must have been fully torn
    /// down first.
    pub fn connect(&mut self)
        requires
            old(self).wf(),
            !old(self).has_session(),
        ensures
            final(self).wf(),
            final(self).has_session(),
            final(self).accepts_commands(),
            final(self).handshake_idle(),
            !final(self).is_terminated(),
            final(self).queued() == Seq::<Command>::empty(),
            final(self).arrivals() == Seq::<u64>::empty(),
            final(self).served() == Seq::<u64>::empty(),
            final(self).acked_subs().bars_set() == Set::<Seq<char>>::empty(),
            final(self).acked_subs().quotes_set() == Set::<Seq<char>>::empty(),
            final(self).acked_subs().trades_set() == Set::<Seq<char>>::empty(),
            final(self).fanout_view() == old(self).fanout_view(),
            final(self).next_ticket_spec() == old(self).next_ticket_spec(),
            final(self).settings_view() == old(self).settings_view(),
            final(self).root_node() == old(self).root_node(),
            final(self).tree_view().reaches(final(self).session_node(), final(self).root_node()),
            final(self).session_cancelled() == old(self).tree_view().observes_cancel(
                old(self).root_node(),
            ),
            forall|i: int|
                0 <= i < old(self).tree_view().len() ==> final(self).tree_view().observes_cancel(i)
                    == old(self).tree_view().observes_cancel(i),
    {
        let id = self.tree.add_child(self.root);
        self.live = Some(
            LiveSession {
                cancel_id: id,
                queue: CommandQueue::new(),
                phase: LoopPhase::Idle,
                acked: SubscriptionSet::empty(),
                sender_live: true,
                terminated: false,
                arrivals: Ghost(Seq::empty()),
                served: Ghost(Seq::empty()),
            },
        );
    }

    /// Accepts one command if a live session holds a sender: stamps it
    /// with a fresh ticket and appends it to the queue. Never blocks and
    /// never touches the transport. With no live session it fails at once
    /// and clears a stale sender, if one was left behind.
    fn push_command(&mut self, action: ControlAction) -> (r: Result<u64, SessionClosedError>)
        requires
            old(self).wf(),
            old(self).next_ticket_spec() < u64::MAX,
        ensures
            final(self).wf(),
            final(self).has_session() == old(self).has_session(),
            final(self).fanout_view() == old(self).fanout_view(),
            final(self).tree_view() == old(self).tree_view(),
            final(self).root_node() == old(self).root_node(),
            final(self).session_node() == old(self).session_node(),
            final(self).settings_view() == old(self).settings_view(),
            final(self).is_terminated() == old(self).is_terminated(),
            final(self).pending() == old(self).pending(),
            final(self).served() == old(self).served(),
            final(self).acked_subs() == old(self).acked_subs(),
            old(self).accepts_commands() ==> r == Ok::<u64, SessionClosedError>(
                old(self).next_ticket_spec(),
            ) && final(self).queued() == old(self).queued().push(
                (Command { ticket: old(self).next_ticket_spec(), action: action }),
            ) && final(self).arrivals() == old(self).arrivals().push(old(self).next_ticket_spec())
                && final(self).next_ticket_spec() == old(self).next_ticket_spec() + 1 && final(self).accepts_commands(),
            !old(self).accepts_commands() ==> r == Err::<u64, SessionClosedError>(
                SessionClosedError,
            ) && !final(self).accepts_commands() && !final(self).sender_installed() && final(self).queued() == old(self).queued() && final(self).arrivals() == old(self).arrivals()
                && final(self).next_ticket_spec() == old(self).next_ticket_spec(),
    {
        match &mut self.live {
            Some(s) => {
                if s.sender_live && !s.terminated {
                    let t = self.next_ticket;
                    let cmd = Command { ticket: t, action };
                    let ghost pre_queue = s.queue@;
                    s.queue.enqueue(cmd);
                    s.arrivals = Ghost(s.arrivals@.push(t));
                    self.next_ticket = t + 1;
                    proof {
                        assert(tickets_of(s.queue@) =~= tickets_of(pre_queue).push(t));
                        assert(s.arrivals@ =~= s.served@ + tickets_of(s.queue@));
                    }
                    Ok(t)
                } else {
                    s.sender_live = false;
                    Err(SessionClosedError)
                }
            },
            None => Err(SessionClosedError),
        }
    }

    /// Asks the session to add these symbols to the live feed. Returns at
    /// once with the command's ticket; the handshake's outcome reaches the
    /// caller later through its completion channel. Fails with
    /// [`SessionClosedError`] if and only if no live session holds a
    /// sender, and then clears a stale sender as a side effect.
    pub fn subscribe(&mut self, symbols: SubscriptionSet) -> (r: Result<u64, SessionClosedError>)
        requires
            old(self).wf(),
            old(self).next_ticket_spec() < u64::MAX,
        ensures
            final(self).wf(),
            final(self).has_session() == old(self).has_session(),
            final(self).fanout_view() == old(self).fanout_view(),
            final(self).tree_view() == old(self).tree_view(),
            final(self).is_terminated() == old(self).is_terminated(),
            final(self).pending() == old(self).pending(),
            final(self).served() == old(self).served(),
            final(self).acked_subs() == old(self).acked_subs(),
            old(self).accepts_commands() ==> r == Ok::<u64, SessionClosedError>(
                old(self).next_ticket_spec(),
            ) && final(self).queued() == old(self).queued().push(
                (Command {
                    ticket: old(self).next_ticket_spec(),
                    action: ControlAction::Subscribe(symbols),
                }),
            ) && final(self).arrivals() == old(self).arrivals().push(old(self).next_ticket_spec())
                && final(self).next_ticket_spec() == old(self).next_ticket_spec() + 1 && final(self).accepts_commands(),
            !old(self).accepts_commands() ==> r == Err::<u64, SessionClosedError>(
                SessionClosedError,
            ) && !final(self).accepts_commands() && !final(self).sender_installed() && final(self).queued() == old(self).queued() && final(self).arrivals() == old(self).arrivals(),
    {
        self.push_command(ControlAction::Subscribe(symbols))
    }

    /// Asks the session to remove these symbols from the live feed.
    /// Returns at once with the command's ticket; the handshake's outcome
    /// reaches the caller later through its completion channel. Fails with
    /// [`SessionClosedError`] if and only if no live session holds a
    /// sender, and then clears a stale sender as a side effect.
    pub fn unsubscribe(&mut self, symbols: SubscriptionSet) -> (r: Result<u64, SessionClosedError>)
        requires
            old(self).wf(),
            old(self).next_ticket_spec() < u64::MAX,
        ensures
            final(self).wf(),
            final(self).has_session() == old(self).has_session(),
            final(self).fanout_view() == old(self).fanout_view(),
            final(self).tree_view() == old(self).tree_view(),
            final(self).is_terminated() == old(self).is_terminated(),
            final(self).pending() == old(self).pending(),
            final(self).served() == old(self).served(),
            final(self).acked_subs() == old(self).acked_subs(),
            old(self).accepts_commands() ==> r == Ok::<u64, SessionClosedError>(
                old(self).next_ticket_spec(),
            ) && final(self).queued() == old(self).queued().push(
                (Command {
                    ticket: old(self).next_ticket_spec(),
                    action: ControlAction::Unsubscribe(symbols),
                }),
            ) && final(self).arrivals() == old(self).arrivals().push(old(self).next_ticket_spec())
                && final(self).next_ticket_spec() == old(self).next_ticket_spec() + 1 && final(self).accepts_commands(),
            !old(self).accepts_commands() ==> r == Err::<u64, SessionClosedError>(
                SessionClosedError,
            ) && !final(self).accepts_commands() && !final(self).sender_installed() && final(self).queued() == old(self).queued() && final(self).arrivals() == old(self).arrivals(),
    {
        self.push_command(ControlAction::Unsubscribe(symbols))
    }

    /// Releases the session's command sender and raises its cancellation
    /// signal: later commands fail fast, and the loop observes the signal
    /// at its next iteration and exits. Harmless with no session.
    pub fn disconnect(&mut self)
        requires
            old(self).wf(),
        ensures
            final(self).wf(),
            !final(self).accepts_commands(),
            final(self).has_session() == old(self).has_session(),
            final(self).fanout_view() == old(self).fanout_view(),
            final(self).session_node() == old(self).session_node(),
            final(self).queued() == old(self).queued(),
            final(self).arrivals() == old(self).arrivals(),
            final(self).served() == old(self).served(),
            final(self).pending() == old(self).pending(),
            final(self).is_terminated() == old(self).is_terminated(),
            final(self).next_ticket_spec() == old(self).next_ticket_spec(),
            old(self).has_session() ==> cancel_post(
                old(self).tree_view(),
                final(self).tree_view(),
                old(self).session_node(),
            ) && final(self).session_cancelled() && !final(self).sender_installed(),
            !old(self).has_session() ==> *final(self) == *old(self),
    {
        match &mut self.live {
            Some(s) => {
                s.sender_live = false;
                let id = s.cancel_id;
                self.tree.cancel(id);
                proof {
                    crate::cancel::lemma_reaches_self(old(self).tree_view(), id as int);
                }
            },
            None => {},
        }
    }

    /// Raises the parent cancellation signal: every session spawned
    /// beneath it — the live one included — observes cancellation.
    pub fn cancel_all(&mut self)
        requires
            old(self).wf(),
        ensures
            final(self).wf(),
            cancel_post(old(self).tree_view(), final(self).tree_view(), old(self).root_node()),
            final(self).has_session() == old(self).has_session(),
            final(self).fanout_view() == old(self).fanout_view(),
            final(self).queued() == old(self).queued(),
            final(self).arrivals() == old(self).arrivals(),
            final(self).served() == old(self).served(),
            final(self).pending() == old(self).pending(),
            final(self).is_terminated() == old(self).is_terminated(),
            final(self).sender_installed() == old(self).sender_installed(),
            old(self).has_session() ==> final(self).session_cancelled(),
    {
        let root = self.root;
        self.tree.cancel(root);
    }

    /// Whether a fresh command ticket can still be issued.
    pub fn can_issue_ticket(&self) -> (r: bool)
        ensures
            r == (self.next_ticket_spec() < u64::MAX),
    {
        self.next_ticket < u64::MAX
    }

    /// Whether the session loop has terminated.
    pub fn session_terminated(&self) -> (r: bool)
        ensures
            r == self.is_terminated(),
    {
        match &self.live {
            Some(s) => s.terminated,
            None => false,
        }
    }

    /// Whether a command issued now would be accepted.
    pub fn is_connected(&self) -> (r: bool)
        ensures
            r == self.accepts_commands(),
    {
        match &self.live {
            Some(s) => s.sender_live && !s.terminated,
            None => false,
        }
    }

    /// Whether a session exists, live or awaiting teardown.
    pub fn has_live_session(&self) -> (r: bool)
        ensures
            r == self.has_session(),
    {
        match &self.live {
            Some(_) => true,
            None => false,
        }
    }

    /// Whether the loop is between handshakes.
    pub fn is_idle(&self) -> (r: bool)
        requires
            self.has_session(),
        ensures
            r == self.handshake_idle(),
    {
        match &self.live {
            Some(s) => match &s.phase {
                LoopPhase::Idle => true,
                LoopPhase::AwaitingAck(_) => false,
            },
            None => unreached(),
        }
    }

    /// Whether the session's cancellation signal has been raised, through
    /// its own flag or an ancestor's.
    pub fn session_is_cancelled(&self) -> (r: bool)
        requires
            self.wf(),
            self.has_session(),
        ensures
            r == self.session_cancelled(),
    {
        match &self.live {
            Some(s) => self.tree.is_cancelled(s.cancel_id),
            None => unreached(),
        }
    }

    /// How many commands wait in the queue.
    pub fn queued_commands(&self) -> (n: usize)
        ensures
            n == self.queued().len(),
    {
        match &self.live {
            Some(s) => s.queue.len(),
            None => 0,
        }
    }

    /// Takes up the oldest queued command, if any: the loop enters the
    /// `AwaitingAck` phase for it and must now send the returned request
    /// over the outbound control interface, then keep reading the shared
    /// inbound stream until the matching acknowledgement arrives. Only an
    /// idle loop may begin a handshake: one handshake fully completes or
    /// fails before the next is taken up.
    pub fn begin_handshake(&mut self) -> (r: Option<Command>)
        requires
            old(self).wf(),
            old(self).has_session(),
            !old(self).is_terminated(),
            old(self).handshake_idle(),
        ensures
            final(self).wf(),
            final(self).has_session(),
            !final(self).is_terminated(),
            final(self).sender_installed() == old(self).sender_installed(),
            final(self).session_node() == old(self).session_node(),
            final(self).root_node() == old(self).root_node(),
            final(self).fanout_view() == old(self).fanout_view(),
            final(self).tree_view() == old(self).tree_view(),
            final(self).acked_subs() == old(self).acked_subs(),
            final(self).arrivals() == old(self).arrivals(),
            final(self).next_ticket_spec() == old(self).next_ticket_spec(),
            final(self).settings_view() == old(self).settings_view(),
            old(self).queued().len() == 0 ==> r is None && final(self).queued() == old(self).queued() && final(self).handshake_idle() && final(self).served() == old(self).served(),
            old(self).queued().len() > 0 ==> final(self).queued() == old(self).queued().drop_first() && final(self).pending() == Some(old(self).queued()[0]) && final(self).served() == old(self).served().push(old(self).queued()[0].ticket) && (match r {
                Some(c) => c.ticket == old(self).queued()[0].ticket && same_request(
                    c.action,
                    old(self).queued()[0].action,
                ),
                None => false,
            }),
    {
        let s = match &mut self.live {
            Some(s) => s,
            None => unreached(),
        };
        let ghost pre_queue = s.queue@;
        match s.queue.dequeue() {
            None => None,
            Some(cmd) => {
                let copy = cmd.clone();
                s.served = Ghost(s.served@.push(cmd.ticket));
                s.phase = LoopPhase::AwaitingAck(cmd);
                proof {
                    assert(tickets_of(s.queue@) =~= tickets_of(pre_queue).drop_first());
                    assert(tickets_of(pre_queue)[0] == pre_queue[0].ticket);
                    assert(s.arrivals@ =~= s.served@ + tickets_of(s.queue@));
                }
                Some(copy)
            },
        }
    }

    /// Services one item read from the inbound stream. While idle, a
    /// decoded frame is published to the fan-out and a malformed frame is
    /// discarded without further consequence. While an acknowledgement is
    /// awaited, data frames are consumed by the handshake driver and not
    /// re-delivered; the acknowledgement completes the handshake, updates
    /// the acknowledged subscriptions on success, and surfaces the
    /// outcome to the issuing caller — a rejection never tears the
    /// session down. Transport failure or stream exhaustion is fatal: the
    /// session's cancellation signal is raised and the loop must exit
    /// without serving further queued commands.
    pub fn on_inbound(&mut self, item: InboundItem) -> (e: LoopEffect)
        requires
            old(self).wf(),
            old(self).has_session(),
            !old(self).is_terminated(),
        ensures
            final(self).wf(),
            final(self).has_session(),
            final(self).session_node() == old(self).session_node(),
            final(self).root_node() == old(self).root_node(),
            final(self).settings_view() == old(self).settings_view(),
            final(self).next_ticket_spec() == old(self).next_ticket_spec(),
            final(self).sender_installed() == old(self).sender_installed(),
            final(self).queued() == old(self).queued(),
            final(self).arrivals() == old(self).arrivals(),
            final(self).served() == old(self).served(),
            item matches InboundItem::Frame(f) ==> (old(self).handshake_idle() ==> e
                == LoopEffect::Published && publish_post(
                old(self).fanout_view(),
                final(self).fanout_view(),
                f,
            ) && final(self).fanout_view().wf() && final(self).handshake_idle() && !final(self).is_terminated() && final(self).tree_view() == old(self).tree_view() && final(self).acked_subs() == old(self).acked_subs()),
            item matches InboundItem::Frame(f) ==> (!old(self).handshake_idle() ==> e
                == LoopEffect::ConsumedByHandshake && *final(self) == *old(self)),
            item is Malformed ==> e == LoopEffect::Discarded && *final(self) == *old(self),
            (item is AckOk || item is AckRejected) && old(self).handshake_idle() ==> e
                == LoopEffect::UnexpectedAck && *final(self) == *old(self),
            old(self).pending() matches Some(c) ==> (item is AckOk ==> e == LoopEffect::Complete(
                (Completion { ticket: c.ticket, outcome: Ok::<(), ControlError>(()) }),
            ) && final(self).handshake_idle() && !final(self).is_terminated() && (match c.action {
                ControlAction::Subscribe(sy) => merged(
                    old(self).acked_subs(),
                    sy,
                    final(self).acked_subs(),
                ),
                ControlAction::Unsubscribe(sy) => subtracted(
                    old(self).acked_subs(),
                    sy,
                    final(self).acked_subs(),
                ),
            }) && final(self).fanout_view() == old(self).fanout_view() && final(self).tree_view()
                == old(self).tree_view()),
            old(self).pending() matches Some(c) ==> (item is AckRejected ==> e
                == LoopEffect::Complete(
                (Completion { ticket: c.ticket, outcome: Err::<(), ControlError>(ControlError::Rejected) }),
            ) && final(self).handshake_idle() && !final(self).is_terminated() && final(self).acked_subs() == old(self).acked_subs() && final(self).fanout_view() == old(self).fanout_view() && final(self).tree_view() == old(self).tree_view()),
            (item is Failed || item is Exhausted) ==> final(self).is_terminated() && cancel_post(
                old(self).tree_view(),
                final(self).tree_view(),
                old(self).session_node(),
            ) && final(self).session_cancelled() && final(self).fanout_view() == old(self).fanout_view() && final(self).acked_subs() == old(self).acked_subs() && final(self).handshake_idle() && (old(self).handshake_idle() ==> e == LoopEffect::Terminated(None))
                && (old(self).pending() matches Some(c) ==> e == LoopEffect::Terminated(
                Some(
                    (Completion {
                        ticket: c.ticket,
                        outcome: Err::<(), ControlError>(ControlError::SessionClosed),
                    }),
                ),
            )),
    {
        match item {
            InboundItem::Frame(f) => {
                let idle = self.is_idle();
                if idle {
                    self.fanout.publish(&f);
                    LoopEffect::Published
                } else {
                    LoopEffect::ConsumedByHandshake
                }
            },
            InboundItem::Malformed(_) => LoopEffect::Discarded,
            InboundItem::AckOk => {
                let s = match &mut self.live {
                    Some(s) => s,
                    None => unreached(),
                };
                match &s.phase {
                    LoopPhase::Idle => LoopEffect::UnexpectedAck,
                    LoopPhase::AwaitingAck(c) => {
                        let t = c.ticket;
                        match &c.action {
                            ControlAction::Subscribe(sy) => s.acked.merge(sy),
                            ControlAction::Unsubscribe(sy) => s.acked.subtract(sy),
                        }
                        s.phase = LoopPhase::Idle;
                        LoopEffect::Complete(Completion { ticket: t, outcome: Ok(()) })
                    },
                }
            },
            InboundItem::AckRejected => {
                let s = match &mut self.live {
                    Some(s) => s,
                    None => unreached(),
                };
                match &s.phase {
                    LoopPhase::Idle => LoopEffect::UnexpectedAck,
                    LoopPhase::AwaitingAck(c) => {
                        let t = c.ticket;
                        s.phase = LoopPhase::Idle;
                        LoopEffect::Complete(
                            Completion { ticket: t, outcome: Err(ControlError::Rejected) },
                        )
                    },
                }
            },
            InboundItem::Failed(_) | InboundItem::Exhausted => {
                let s = match &mut self.live {
                    Some(s) => s,
                    None => unreached(),
                };
                s.terminated = true;
                let done = match &s.phase {
                    LoopPhase::Idle => None,
                    LoopPhase::AwaitingAck(c) => Some(
                        Completion { ticket: c.ticket, outcome: Err(ControlError::SessionClosed) },
                    ),
                };
                s.phase = LoopPhase::Idle;
                let id = s.cancel_id;
                self.tree.cancel(id);
                proof {
                    crate::cancel::lemma_reaches_self(old(self).tree_view(), id as int);
                }
                LoopEffect::Terminated(done)
            },
        }
    }

    /// Services the cancellation branch of the loop: the session's signal
    /// was observed as raised, so the session terminates at this very
    /// iteration, even with a handshake in flight — whose caller then
    /// learns that the session closed rather than hearing nothing.
    pub fn on_cancelled(&mut self) -> (e: LoopEffect)
        requires
            old(self).wf(),
            old(self).has_session(),
            !old(self).is_terminated(),
        ensures
            final(self).wf(),
            final(self).has_session(),
            final(self).is_terminated(),
            final(self).handshake_idle(),
            final(self).session_node() == old(self).session_node(),
            final(self).root_node() == old(self).root_node(),
            final(self).settings_view() == old(self).settings_view(),
            final(self).next_ticket_spec() == old(self).next_ticket_spec(),
            final(self).sender_installed() == old(self).sender_installed(),
            final(self).fanout_view() == old(self).fanout_view(),
            final(self).tree_view() == old(self).tree_view(),
            final(self).acked_subs() == old(self).acked_subs(),
            final(self).queued() == old(self).queued(),
            final(self).arrivals() == old(self).arrivals(),
            final(self).served() == old(self).served(),
            old(self).handshake_idle() ==> e == LoopEffect::Terminated(None),
            old(self).pending() matches Some(c) ==> e == LoopEffect::Terminated(
                Some(
                    (Completion {
                        ticket: c.ticket,
                        outcome: Err::<(), ControlError>(ControlError::SessionClosed),
                    }),
                ),
            ),
    {
        let s = match &mut self.live {
            Some(s) => s,
            None => unreached(),
        };
        s.terminated = true;
        let done = match &s.phase {
            LoopPhase::Idle => None,
            LoopPhase::AwaitingAck(c) => Some(
                Completion { ticket: c.ticket, outcome: Err(ControlError::SessionClosed) },
            ),
        };
        s.phase = LoopPhase::Idle;
        LoopEffect::Terminated(done)
    }

    /// Dismantles a terminated session. Every command still queued is
    /// answered with a closed-session failure, in queue order — a command
    /// accepted before teardown surfaces as an explicit failure, never as
    /// silence — and the handle is left ready for a fresh `connect`.
    pub fn teardown(&mut self) -> (done: Vec<Completion>)
        requires
            old(self).wf(),
            old(self).has_session(),
            old(self).is_terminated(),
        ensures
            final(self).wf(),
            !final(self).has_session(),
            !final(self).accepts_commands(),
            final(self).fanout_view() == old(self).fanout_view(),
            final(self).tree_view() == old(self).tree_view(),
            final(self).root_node() == old(self).root_node(),
            final(self).next_ticket_spec() == old(self).next_ticket_spec(),
            final(self).settings_view() == old(self).settings_view(),
            done@.len() == old(self).queued().len(),
            forall|i: int|
                0 <= i < done@.len() ==> (#[trigger] done@[i]).ticket == old(self).queued()[i].ticket
                    && done@[i].outcome == Err::<(), ControlError>(ControlError::SessionClosed),
    {
        let ghost pre = *old(self);
        let mut done: Vec<Completion> = Vec::new();
        {
            let s = match &mut self.live {
                Some(s) => s,
                None => unreached(),
            };
            while s.queue.len() > 0
                invariant
                    done@.len() + s.queue@.len() == pre.queued().len(),
                    s.queue@ == pre.queued().skip(done@.len() as int),
                    forall|i: int|
                        0 <= i < done@.len() ==> (#[trigger] done@[i]).ticket
                            == pre.queued()[i].ticket && done@[i].outcome == Err::<
                            (),
                            ControlError,
                        >(ControlError::SessionClosed),
                decreases s.queue@.len(),
            {
                let ghost k = done@.len() as int;
                match s.queue.dequeue() {
                    Some(c) => {
                        done.push(
                            Completion { ticket: c.ticket, outcome: Err(ControlError::SessionClosed) },
                        );
                        proof {
                            assert(s.queue@ =~= pre.queued().skip(k + 1));
                        }
                    },
                    None => {
                        proof {
                            assert(false);
                        }
                    },
                }
            }
        }
        self.live = None;
        done
    }

    /// Registers a data consumer for one frame kind: it obtains an
    /// independent queue, bounded by the configured capacity, holding
    /// only frames published after this registration. Consumers exist
    /// independently of any live session.
    pub fn register_subscriber(&mut self, kind: FrameKind) -> (id: usize)
        requires
            old(self).wf(),
        ensures
            final(self).wf(),
            crate::fanout::register_post(
                old(self).fanout_view(),
                final(self).fanout_view(),
                kind,
                old(self).settings_view().subscriber_capacity as int,
                id as int,
            ),
            final(self).fanout_view().wf(),
            final(self).tree_view() == old(self).tree_view(),
            final(self).has_session() == old(self).has_session(),
            final(self).accepts_commands() == old(self).accepts_commands(),
            final(self).queued() == old(self).queued(),
            final(self).arrivals() == old(self).arrivals(),
            final(self).served() == old(self).served(),
            final(self).pending() == old(self).pending(),
            final(self).acked_subs() == old(self).acked_subs(),
            final(self).next_ticket_spec() == old(self).next_ticket_spec(),
            final(self).settings_view() == old(self).settings_view(),
            final(self).session_node() == old(self).session_node(),
            final(self).is_terminated() == old(self).is_terminated(),
    {
        let cap = self.settings.subscriber_capacity;
        self.fanout.register(kind, cap)
    }

    /// Hands subscriber `id` its oldest undelivered frame, if any.
    pub fn take_frame(&mut self, id: usize) -> (r: Option<Frame>)
        requires
            old(self).wf(),
            id < old(self).fanout_view().subscriber_count(),
        ensures
            final(self).wf(),
            crate::fanout::take_post(
                old(self).fanout_view(),
                final(self).fanout_view(),
                id as int,
                r,
            ),
            final(self).fanout_view().wf(),
            final(self).tree_view() == old(self).tree_view(),
            final(self).has_session() == old(self).has_session(),
            final(self).accepts_commands() == old(self).accepts_commands(),
            final(self).queued() == old(self).queued(),
            final(self).arrivals() == old(self).arrivals(),
            final(self).served() == old(self).served(),
            final(self).pending() == old(self).pending(),
            final(self).acked_subs() == old(self).acked_subs(),
            final(self).is_terminated() == old(self).is_terminated(),
    {
        self.fanout.take_next(id)
    }

    /// A well-formed handle has a well-formed fan-out and cancellation
    /// forest, and a positive subscriber queue bound.
    pub proof fn lemma_wf_components(self)
        requires
            self.wf(),
        ensures
            self.fanout_view().wf(),
            self.tree_view().wf(),
            self.settings_view().subscriber_capacity > 0,
            self.has_session() ==> 0 <= self.session_node() < self.tree_view().len(),
            0 <= self.root_node() < self.tree_view().len(),
    {
    }

    /// Every command accepted into the session is accounted for: the
    /// arrivals are exactly the handshakes taken up so far followed by
    /// the commands still queued, in order — an accepted command is never
    /// silently lost.
    pub proof fn lemma_commands_accounted(self)
        requires
            self.wf(),
            self.has_session(),
        ensures
            self.arrivals() == self.served() + tickets_of(self.queued()),
    {
    }

    /// Commands are taken up for handshake at most once each, in strict
    /// FIFO order of arrival at the queue: the tickets served so far are
    /// exactly the first served-many tickets that arrived, and no ticket
    /// is ever served twice.
    pub proof fn lemma_fifo_service(self)
        requires
            self.wf(),
            self.has_session(),
        ensures
            self.served().len() <= self.arrivals().len(),
            self.served() == self.arrivals().take(self.served().len() as int),
            forall|i: int, j: int|
                0 <= i < j < self.served().len() ==> #[trigger] self.served()[i]
                    != #[trigger] self.served()[j],
    {
        assert(self.served() =~= self.arrivals().take(self.served().len() as int));
        assert forall|i: int, j: int| 0 <= i < j < self.served().len() implies #[trigger] self.served()[i]
            != #[trigger] self.served()[j] by {
            assert(self.arrivals()[i] < self.arrivals()[j]);
        }
    }

    /// Whether the acknowledged subscriptions cover one symbol for one
    /// frame kind.
    pub fn acked_covers(&self, kind: FrameKind, symbol: &String) -> (r: bool)
        requires
            self.has_session(),
        ensures
            r == self.acked_subs().symbols_of(kind).contains(symbol@),
    {
        match &self.live {
            Some(s) => s.acked.covers(kind, symbol),
            None => unreached(),
        }
    }
}

/// Start/stop control of a long-running component, for a supervisor that
/// manages several of them uniformly.
pub trait Service {
    /// The validity the component maintains across operations.
    spec fn inv(&self) -> bool;

    /// Brings the component up.
    fn start(&mut self)
        requires
            old(self).inv(),
        ensures
            final(self).inv(),
    ;

    /// Stops the component.
    fn stop(&mut self)
        requires
            old(self).inv(),
        ensures
            final(self).inv(),
    ;

    /// Cancels the component and everything spawned beneath it.
    fn shutdown(&mut self)
        requires
            old(self).inv(),
        ensures
            final(self).inv(),
    ;
}

impl Service for SessionHandle {
    open spec fn inv(&self) -> bool {
        self.wf()
    }

    /// Opens a session if none exists.
    fn start(&mut self) {
        if !self.has_live_session() {
            self.connect();
        }
    }

    /// Releases the sender and cancels the live session, if any.
    fn stop(&mut self) {
        self.disconnect();
    }

    /// Raises the parent cancellation signal.
    fn shutdown(&mut self) {
        self.cancel_all();
    }
}

} // verus!
