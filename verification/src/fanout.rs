//! One-to-many distribution of decoded frames.
//!
//! Each subscriber registers for one frame kind and obtains an
//! independent bounded queue. Publication never blocks and never waits
//! for a consumer: a frame is appended to every matching queue that has
//! spare capacity and is dropped, for that subscriber only, when its
//! queue is full. A slow consumer may therefore miss frames, but it never
//! sees a frame twice and never sees frames out of arrival order.
//!
//! To state that law, the fan-out carries a ghost log of every frame ever
//! published, and each subscriber carries the ghost positions in that log
//! its queued frames came from.

use vstd::prelude::*;

use crate::frame::Frame;
use crate::frame::FrameKind;

verus! {

/// One subscriber's bounded queue of frames of a single kind.
struct SubscriberQueue {
    /// The frame kind this subscriber receives.
    kind: FrameKind,
    /// The most frames the queue may hold; publication drops the newest
    /// frame for this subscriber when the bound is reached.
    capacity: usize,
    /// Undelivered frames, oldest first.
    frames: Vec<Frame>,
    /// Length of the publish log when this subscriber registered: frames
    /// published earlier can never appear in its queue.
    born: Ghost<int>,
    /// For each queued frame, its position in the publish log.
    sources: Ghost<Seq<int>>,
}

/// One-to-many fan-out of decoded frames to independently paced
/// subscribers.
pub struct FanOut {
    subs: Vec<SubscriberQueue>,
    /// Every frame ever published, in publication order.
    log: Ghost<Seq<Frame>>,
}

/// How one subscriber changes when a frame is published at log position
/// `at`: appended when the kind matches and there is spare capacity,
/// untouched otherwise.
spec fn published_to(pre: SubscriberQueue, post: SubscriberQueue, at: int, f: Frame) -> bool {
    if pre.kind == f.kind_spec() && pre.frames@.len() < pre.capacity {
        &&& post.kind == pre.kind
        &&& post.capacity == pre.capacity
        &&& post.born == pre.born
        &&& post.frames@ == pre.frames@.push(f)
        &&& post.sources@ == pre.sources@.push(at)
    } else {
        post == pre
    }
}

/// Well-formedness of one subscriber against the publish log.
spec fn sub_wf(s: SubscriberQueue, log: Seq<Frame>) -> bool {
    &&& s.capacity > 0
    &&& s.frames@.len() <= s.capacity
    &&& s.sources@.len() == s.frames@.len()
    &&& 0 <= s.born@ <= log.len()
    &&& forall|j: int| 0 <= j < s.sources@.len() ==> s.born@ <= #[trigger] s.sources@[j] < log.len()
    &&& forall|j: int, k: int|
        0 <= j < k < s.sources@.len() ==> #[trigger] s.sources@[j] < #[trigger] s.sources@[k]
    &&& forall|j: int| 0 <= j < s.frames@.len() ==> log[#[trigger] s.sources@[j]] == s.frames@[j]
    &&& forall|j: int| 0 <= j < s.frames@.len() ==> (#[trigger] s.frames@[j]).kind_spec() == s.kind
}

/// How a fan-out changes when one frame is published: the frame is
/// appended to the queue of every subscriber of its kind with spare
/// capacity, dropped for every matching subscriber whose queue is full,
/// and every other subscriber is untouched.
pub open spec fn publish_post(pre: FanOut, post: FanOut, f: Frame) -> bool {
    &&& post.subscriber_count() == pre.subscriber_count()
    &&& post.log() == pre.log().push(f)
    &&& forall|i: int|
        0 <= i < pre.subscriber_count() ==> post.kind_of(i) == pre.kind_of(i)
            && post.capacity_of(i) == pre.capacity_of(i) && post.born_of(i) == pre.born_of(i)
    &&& forall|i: int|
        0 <= i < pre.subscriber_count() && pre.kind_of(i) == f.kind_spec() && pre.queue_of(
            i,
        ).len() < pre.capacity_of(i) ==> post.queue_of(i) == pre.queue_of(i).push(f)
    &&& forall|i: int|
        0 <= i < pre.subscriber_count() && !(pre.kind_of(i) == f.kind_spec() && pre.queue_of(
            i,
        ).len() < pre.capacity_of(i)) ==> post.queue_of(i) == pre.queue_of(i)
}

/// How a fan-out changes when a subscriber is registered: a fresh empty
/// queue of the given kind and bound is added, everything else stays.
pub open spec fn register_post(
    pre: FanOut,
    post: FanOut,
    kind: FrameKind,
    capacity: int,
    id: int,
) -> bool {
    &&& id == pre.subscriber_count()
    &&& post.subscriber_count() == pre.subscriber_count() + 1
    &&& post.log() == pre.log()
    &&& post.kind_of(id) == kind
    &&& post.capacity_of(id) == capacity
    &&& post.queue_of(id) == Seq::<Frame>::empty()
    &&& post.born_of(id) == pre.log().len()
    &&& forall|i: int|
        0 <= i < pre.subscriber_count() ==> post.kind_of(i) == pre.kind_of(i) && post.capacity_of(
            i,
        ) == pre.capacity_of(i) && post.queue_of(i) == pre.queue_of(i) && post.born_of(i)
            == pre.born_of(i) && post.delivered_from(i) == pre.delivered_from(i)
}

/// How a fan-out changes when subscriber `i` takes its oldest frame:
/// `r` is that frame (or nothing, from an empty queue), the queue loses
/// its head, and every other subscriber is untouched.
pub open spec fn take_post(pre: FanOut, post: FanOut, i: int, r: Option<Frame>) -> bool {
    &&& post.subscriber_count() == pre.subscriber_count()
    &&& post.log() == pre.log()
    &&& post.kind_of(i) == pre.kind_of(i)
    &&& post.capacity_of(i) == pre.capacity_of(i)
    &&& post.born_of(i) == pre.born_of(i)
    &&& forall|k: int|
        0 <= k < pre.subscriber_count() && k != i ==> post.kind_of(k) == pre.kind_of(k)
            && post.capacity_of(k) == pre.capacity_of(k) && post.queue_of(k) == pre.queue_of(k)
            && post.born_of(k) == pre.born_of(k) && post.delivered_from(k) == pre.delivered_from(k)
    &&& pre.queue_of(i).len() == 0 ==> r is None && post.queue_of(i) == pre.queue_of(i)
    &&& pre.queue_of(i).len() > 0 ==> r == Some(pre.queue_of(i)[0]) && post.queue_of(i)
        == pre.queue_of(i).drop_first() && post.delivered_from(i) == pre.delivered_from(
        i,
    ).drop_first()
}

impl FanOut {
    /// How many subscribers are registered.
    pub closed spec fn subscriber_count(self) -> nat {
        self.subs@.len()
    }

    /// Every frame ever published, in publication order.
    pub closed spec fn log(self) -> Seq<Frame> {
        self.log@
    }

    /// The frame kind subscriber `i` receives.
    pub closed spec fn kind_of(self, i: int) -> FrameKind {
        self.subs@[i].kind
    }

    /// The queue bound of subscriber `i`.
    pub closed spec fn capacity_of(self, i: int) -> int {
        self.subs@[i].capacity as int
    }

    /// The undelivered frames of subscriber `i`, oldest first.
    pub closed spec fn queue_of(self, i: int) -> Seq<Frame> {
        self.subs@[i].frames@
    }

    /// The length the publish log had when subscriber `i` registered.
    pub closed spec fn born_of(self, i: int) -> int {
        self.subs@[i].born@
    }

    /// The publish-log positions subscriber `i`'s queued frames came from.
    pub closed spec fn delivered_from(self, i: int) -> Seq<int> {
        self.subs@[i].sources@
    }

    /// Every subscriber's queue is bounded by its capacity and holds, in
    /// strictly increasing log order, frames of its kind published since
    /// it registered.
    pub closed spec fn wf(self) -> bool {
        forall|i: int| 0 <= i < self.subs@.len() ==> sub_wf(#[trigger] self.subs@[i], self.log@)
    }

    /// A fan-out with no subscribers and nothing published yet.
    pub fn new() -> (f: Self)
        ensures
            f.wf(),
            f.subscriber_count() == 0,
            f.log() == Seq::<Frame>::empty(),
    {
        FanOut { subs: Vec::new(), log: Ghost(Seq::empty()) }
    }

    /// Registers a subscriber for one frame kind with its own bounded
    /// queue, and returns its identifier. The new queue starts empty:
    /// frames published before registration are never delivered to it.
    pub fn register(&mut self, kind: FrameKind, capacity: usize) -> (id: usize)
        requires
            old(self).wf(),
            capacity > 0,
        ensures
            final(self).wf(),
            register_post(*old(self), *final(self), kind, capacity as int, id as int),
    {
        let id = self.subs.len();
        let ghost born = self.log@.len() as int;
        self.subs.push(
            SubscriberQueue {
                kind,
                capacity,
                frames: Vec::new(),
                born: Ghost(born),
                sources: Ghost(Seq::empty()),
            },
        );
        id
    }

    /// Publishes one frame: appends it to the queue of every subscriber
    /// of its kind that has spare capacity, drops it for every matching
    /// subscriber whose queue is full, and leaves subscribers of other
    /// kinds untouched. With no matching subscriber this is a no-op apart
    /// from the ghost log. Publication never waits for a consumer.
    pub fn publish(&mut self, frame: &Frame)
        requires
            old(self).wf(),
        ensures
            final(self).wf(),
            publish_post(*old(self), *final(self), *frame),
    {
        let n = self.subs.len();
        let mut i: usize = 0;
        while i < n
            invariant
                old(self).wf(),
                i <= n,
                n == self.subs@.len(),
                n == old(self).subs@.len(),
                self.log@ == old(self).log@,
                forall|k: int| i <= k < n ==> self.subs@[k] == old(self).subs@[k],
                forall|k: int|
                    0 <= k < i ==> published_to(
                        old(self).subs@[k],
                        #[trigger] self.subs@[k],
                        old(self).log@.len() as int,
                        *frame,
                    ),
            decreases n - i,
        {
            let matches_kind = {
                let fk = frame.kind();
                self.subs[i].kind == fk
            };
            let has_room = self.subs[i].frames.len() < self.subs[i].capacity;
            if matches_kind && has_room {
                let cloned = frame.clone();
                let ghost at = self.log@.len() as int;
                let s = &mut self.subs[i];
                s.frames.push(cloned);
                s.sources = Ghost(s.sources@.push(at));
            }
            i += 1;
        }
        self.log = Ghost(self.log@.push(*frame));
        proof {
            assert forall|k: int| 0 <= k < self.subs@.len() implies sub_wf(
                #[trigger] self.subs@[k],
                self.log@,
            ) by {
                assert(sub_wf(old(self).subs@[k], old(self).log@));
                assert(published_to(
                    old(self).subs@[k],
                    self.subs@[k],
                    old(self).log@.len() as int,
                    *frame,
                ));
            }
        }
    }

    /// Hands subscriber `i` its oldest undelivered frame, if any.
    pub fn take_next(&mut self, i: usize) -> (r: Option<Frame>)
        requires
            old(self).wf(),
            i < old(self).subscriber_count(),
        ensures
            final(self).wf(),
            take_post(*old(self), *final(self), i as int, r),
    {
        let s = &mut self.subs[i];
        let r = if s.frames.len() == 0 {
            None
        } else {
            let f = s.frames.remove(0);
            s.sources = Ghost(s.sources@.drop_first());
            Some(f)
        };
        proof {
            assert(old(self).subs@[i as int].frames@.len() > 0 ==> self.subs@[i as int].frames@
                =~= old(self).subs@[i as int].frames@.drop_first());
            assert forall|k: int| 0 <= k < self.subs@.len() implies sub_wf(
                #[trigger] self.subs@[k],
                self.log@,
            ) by {
                assert(sub_wf(old(self).subs@[k], old(self).log@));
            }
        }
        r
    }

    /// How many frames subscriber `i` is currently holding.
    pub fn queued_len(&self, i: usize) -> (n: usize)
        requires
            self.wf(),
            i < self.subscriber_count(),
        ensures
            n == self.queue_of(i as int).len(),
    {
        self.subs[i].frames.len()
    }

    /// How many registered subscribers there are.
    pub fn len(&self) -> (n: usize)
        ensures
            n == self.subscriber_count(),
    {
        self.subs.len()
    }

    /// Delivery is in order and at most once: each subscriber's queue
    /// lists frames taken from strictly increasing positions of the
    /// publish log — never a frame twice, never two frames out of
    /// publication order — and every queued frame is of the subscriber's
    /// kind, was published after the subscriber registered, and is held
    /// within the queue's bound.
    pub proof fn lemma_delivery_ordered(self, i: int)
        requires
            self.wf(),
            0 <= i < self.subscriber_count(),
        ensures
            self.delivered_from(i).len() == self.queue_of(i).len(),
            self.queue_of(i).len() <= self.capacity_of(i),
            forall|j: int, k: int|
                0 <= j < k < self.delivered_from(i).len() ==> #[trigger] self.delivered_from(i)[j]
                    < #[trigger] self.delivered_from(i)[k],
            forall|j: int|
                0 <= j < self.queue_of(i).len() ==> self.born_of(i) <= #[trigger] self.delivered_from(i)[j] < self.log().len() && self.log()[self.delivered_from(i)[j]] == self.queue_of(i)[j] && self.queue_of(i)[j].kind_spec() == self.kind_of(i),
    {
        assert(sub_wf(self.subs@[i], self.log@));
    }
}

} // verus!
