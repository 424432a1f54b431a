//! Fan-out of gestures to subscribers: each subscriber has a queue of its
//! own, and every published gesture goes to every connected subscriber.

use vstd::prelude::*;

use crate::proto::ProtoGesture;

verus! {

/// A subscriber slot as the contracts see it: `None` once disconnected.
pub open spec fn slot_view(slot: Option<Vec<ProtoGesture>>) -> Option<Seq<ProtoGesture>> {
    match slot {
        Some(q) => Some(q@),
        None => None,
    }
}

/// A slot after `g` is published: a connected subscriber's queue gets it
/// at the end.
pub open spec fn publish_slot(slot: Option<Seq<ProtoGesture>>, g: ProtoGesture) -> Option<
    Seq<ProtoGesture>,
> {
    match slot {
        Some(q) => Some(q.push(g)),
        None => None,
    }
}

/// All slots after `g` is published.
pub open spec fn publish_one(h: Seq<Option<Seq<ProtoGesture>>>, g: ProtoGesture) -> Seq<
    Option<Seq<ProtoGesture>>,
> {
    h.map_values(|slot: Option<Seq<ProtoGesture>>| publish_slot(slot, g))
}

/// All slots after `gs` is published, one gesture after another.
pub open spec fn publish_all(h: Seq<Option<Seq<ProtoGesture>>>, gs: Seq<ProtoGesture>) -> Seq<
    Option<Seq<ProtoGesture>>,
>
    decreases gs.len(),
{
    if gs.len() == 0 {
        h
    } else {
        publish_one(publish_all(h, gs.drop_last()), gs.last())
    }
}

/// Subscriber queues, indexed by subscriber id.
pub struct Hub {
    queues: Vec<Option<Vec<ProtoGesture>>>,
}

impl View for Hub {
    type V = Seq<Option<Seq<ProtoGesture>>>;

    closed spec fn view(&self) -> Seq<Option<Seq<ProtoGesture>>> {
        self.queues@.map_values(|slot: Option<Vec<ProtoGesture>>| slot_view(slot))
    }
}

impl Hub {
    /// A hub without subscribers.
    pub fn new() -> (r: Hub)
        ensures
            r@ == Seq::<Option<Seq<ProtoGesture>>>::empty(),
    {
        let r = Hub { queues: Vec::new() };
        assert(r@ =~= Seq::<Option<Seq<ProtoGesture>>>::empty());
        r
    }

    /// Connects a subscriber with an empty queue, in the first vacant slot
    /// or else in a new one, and returns its id; `None` when every slot is
    /// taken and no new one can be numbered. A subscriber receives only
    /// what is published after it connects.
    pub fn subscribe(&mut self) -> (r: Option<usize>)
        ensures
            match r {
                Some(id) => {
                    &&& id <= old(self)@.len()
                    &&& forall|j: int| 0 <= j < id ==> old(self)@[j] is Some
                    &&& id < old(self)@.len() ==> old(self)@[id as int] is None && final(self)@
                        == old(self)@.update(id as int, Some(Seq::empty()))
                    &&& id == old(self)@.len() ==> final(self)@ == old(self)@.push(
                        Some(Seq::empty()),
                    )
                },
                None => {
                    &&& old(self)@.len() == usize::MAX
                    &&& forall|j: int| 0 <= j < old(self)@.len() ==> old(self)@[j] is Some
                    &&& final(self)@ == old(self)@
                },
            },
    {
        let n = self.queues.len();
        let mut i: usize = 0;
        while i < n
            invariant
                n == self.queues@.len(),
                self@ == old(self)@,
                i <= n,
                forall|j: int| 0 <= j < i ==> old(self)@[j] is Some,
            decreases n - i,
        {
            if self.queues[i].is_none() {
                self.queues.set(i, Some(Vec::new()));
                assert(self@ =~= old(self)@.update(i as int, Some(Seq::empty())));
                return Some(i);
            }
            i += 1;
        }
        if n == usize::MAX {
            return None;
        }
        self.queues.push(Some(Vec::new()));
        assert(self@ =~= old(self)@.push(Some(Seq::empty())));
        Some(n)
    }

    /// Appends `g` to the queue of every connected subscriber.
    pub fn publish(&mut self, g: ProtoGesture)
        ensures
            final(self)@ == publish_one(old(self)@, g),
    {
        let n = self.queues.len();
        let mut i: usize = 0;
        while i < n
            invariant
                n == self.queues@.len(),
                n == old(self)@.len(),
                i <= n,
                forall|j: int|
                    0 <= j < i ==> slot_view(#[trigger] self.queues@[j]) == publish_slot(
                        slot_view(old(self).queues@[j]),
                        g,
                    ),
                forall|j: int| i <= j < n ==> #[trigger] self.queues@[j] == old(self).queues@[j],
            decreases n - i,
        {
            if let Some(q) = &mut self.queues[i] {
                q.push(g);
            }
            i += 1;
        }
        assert(self@ =~= publish_one(old(self)@, g));
    }

    /// Hands over everything queued for subscriber `id` and leaves its
    /// queue empty; `None` when `id` is not connected.
    pub fn take(&mut self, id: usize) -> (r: Option<Vec<ProtoGesture>>)
        ensures
            slot_view(r) == (if id < old(self)@.len() {
                old(self)@[id as int]
            } else {
                None
            }),
            final(self)@ == (if id < old(self)@.len() && old(self)@[id as int] is Some {
                old(self)@.update(id as int, Some(Seq::empty()))
            } else {
                old(self)@
            }),
    {
        if id >= self.queues.len() {
            return None;
        }
        let r = match &mut self.queues[id] {
            Some(q) => {
                let mut out: Vec<ProtoGesture> = Vec::new();
                std::mem::swap(q, &mut out);
                Some(out)
            },
            None => None,
        };
        proof {
            if old(self)@[id as int] is Some {
                assert(self@ =~= old(self)@.update(id as int, Some(Seq::empty())));
            } else {
                assert(self@ =~= old(self)@);
            }
        }
        r
    }

    /// Disconnects subscriber `id`, dropping what was queued for it.
    pub fn disconnect(&mut self, id: usize)
        ensures
            final(self)@ == (if id < old(self)@.len() {
                old(self)@.update(id as int, None)
            } else {
                old(self)@
            }),
    {
        if id < self.queues.len() {
            self.queues.set(id, None);
            assert(self@ =~= old(self)@.update(id as int, None));
        }
    }
}

proof fn lemma_publish_all_slot(h: Seq<Option<Seq<ProtoGesture>>>, gs: Seq<ProtoGesture>, j: int)
    requires
        0 <= j < h.len(),
    ensures
        publish_all(h, gs).len() == h.len(),
        publish_all(h, gs)[j] == match h[j] {
            Some(q) => Some(q + gs),
            None => None,
        },
    decreases gs.len(),
{
    if gs.len() > 0 {
        lemma_publish_all_slot(h, gs.drop_last(), j);
        if let Some(q) = h[j] {
            assert(q + gs.drop_last() + seq![gs.last()] =~= q + gs);
        }
    } else {
        if let Some(q) = h[j] {
            assert(q + gs =~= q);
        }
    }
}

/// Two connected subscribers `a` and `b` both receive every gesture
/// published after they connected, in the order published. If `a`
/// disconnects part way, `b` still receives all of it, neither later nor
/// less.
pub proof fn lemma_fan_out(
    h: Seq<Option<Seq<ProtoGesture>>>,
    a: int,
    b: int,
    gs1: Seq<ProtoGesture>,
    gs2: Seq<ProtoGesture>,
)
    requires
        0 <= a < h.len(),
        0 <= b < h.len(),
        a != b,
        h[a] is Some,
        h[b] is Some,
    ensures
        publish_all(h, gs1 + gs2)[a] == Some(h[a].unwrap() + gs1 + gs2),
        publish_all(h, gs1 + gs2)[b] == Some(h[b].unwrap() + gs1 + gs2),
        publish_all(publish_all(h, gs1).update(a, None), gs2)[b] == Some(
            h[b].unwrap() + gs1 + gs2,
        ),
{
    lemma_publish_all_slot(h, gs1 + gs2, a);
    lemma_publish_all_slot(h, gs1 + gs2, b);
    assert(h[a].unwrap() + (gs1 + gs2) =~= h[a].unwrap() + gs1 + gs2);
    assert(h[b].unwrap() + (gs1 + gs2) =~= h[b].unwrap() + gs1 + gs2);
    lemma_publish_all_slot(h, gs1, b);
    let mid = publish_all(h, gs1).update(a, None);
    lemma_publish_all_slot(mid, gs2, b);
}

} // verus!
