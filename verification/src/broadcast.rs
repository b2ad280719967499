//! The generic fan-out engine: one broadcaster per message category drains
//! that category's ingress queue and forwards each message, in registry
//! order, to every sink that was registered when the broadcaster started.
//!
//! The behaviour is pinned by a small mathematical model. A
//! [`BroadcastState`] holds the ingress queue, the full sink registry, the
//! length of the registry snapshot taken when the broadcaster started, and
//! whether the broadcaster has halted. [`step_model`] is the effect of
//! dequeuing and fanning out one message; [`run_model`] iterates it until
//! the ingress is drained or the broadcaster halts. The executable
//! functions are proved to follow this model exactly, and the laws at the
//! bottom of the module are proved of the model itself.
//!
//! Failure semantics follow the design: delivery to a closed sink is not
//! isolated — it halts the whole category's broadcaster, so sinks later in
//! registry order miss that message and every later one until the task is
//! restarted from outside.

use vstd::prelude::*;

use crate::queue::{Queue, QueueModel};

verus! {

/// Runtime state of one category's fan-out task: how many sinks its
/// registry snapshot held when it started, and whether a failed delivery
/// has halted it.
pub struct Broadcaster {
    pub snapshot_len: usize,
    pub halted: bool,
}

/// Mathematical state of one category: the broadcaster's snapshot length
/// and halt flag together with the ingress queue and the sink registry.
#[verifier::ext_equal]
pub ghost struct BroadcastState<T> {
    pub snapshot_len: int,
    pub halted: bool,
    pub ingress: QueueModel<T>,
    pub sinks: Seq<QueueModel<T>>,
}

/// The mathematical registry behind a vector of sink queues.
pub open spec fn registry_view<T>(senders: Seq<Queue<T>>) -> Seq<QueueModel<T>> {
    senders.map_values(|q: Queue<T>| q@)
}

/// Bundle the executable pieces of one category into its model state.
pub open spec fn state_of<T>(
    b: Broadcaster,
    ingress: QueueModel<T>,
    sinks: Seq<QueueModel<T>>,
) -> BroadcastState<T> {
    BroadcastState { snapshot_len: b.snapshot_len as int, halted: b.halted, ingress, sinks }
}

/// Index of the first closed sink among the first `n`, scanning from `i`;
/// `n` when every sink in `[i, n)` is open.
pub open spec fn first_closed_from<T>(sinks: Seq<QueueModel<T>>, i: int, n: int) -> int
    decreases n - i,
{
    if i >= n {
        n
    } else if !sinks[i].open {
        i
    } else {
        first_closed_from(sinks, i + 1, n)
    }
}

/// Index of the first closed sink among the first `n`, or `n` if none.
/// Delivery of one message reaches exactly the sinks before this index.
pub open spec fn first_closed<T>(sinks: Seq<QueueModel<T>>, n: int) -> int {
    first_closed_from(sinks, 0, n)
}

/// The registry after `m` has been appended to the first `c` sinks.
pub open spec fn delivered_upto<T>(sinks: Seq<QueueModel<T>>, c: int, m: T) -> Seq<
    QueueModel<T>,
> {
    Seq::new(
        sinks.len(),
        |i: int|
            if i < c {
                QueueModel { open: sinks[i].open, items: sinks[i].items.push(m) }
            } else {
                sinks[i]
            },
    )
}

/// The registry after one message has been fanned out across a snapshot of
/// length `n`: every sink before the first closed one receives a copy.
pub open spec fn deliver_model<T>(sinks: Seq<QueueModel<T>>, n: int, m: T) -> Seq<
    QueueModel<T>,
> {
    delivered_upto(sinks, first_closed(sinks, n), m)
}

/// One broadcaster step: when active and the ingress holds a message,
/// dequeue it, deliver it to each snapshotted sink in registry order up to
/// the first closed sink, and halt if a closed sink was hit.
pub open spec fn step_model<T>(s: BroadcastState<T>) -> BroadcastState<T> {
    if s.halted || s.ingress.items.len() == 0 {
        s
    } else {
        let k = first_closed(s.sinks, s.snapshot_len);
        BroadcastState {
            snapshot_len: s.snapshot_len,
            halted: k < s.snapshot_len,
            ingress: QueueModel { open: s.ingress.open, items: s.ingress.items.drop_first() },
            sinks: deliver_model(s.sinks, s.snapshot_len, s.ingress.items[0]),
        }
    }
}

/// Run the broadcaster until its ingress is drained or it halts. The live
/// task never returns while its ingress stays open; this is the effect of
/// everything it gets to process.
pub open spec fn run_model<T>(s: BroadcastState<T>) -> BroadcastState<T>
    decreases s.ingress.items.len(),
{
    if s.halted || s.ingress.items.len() == 0 {
        s
    } else {
        run_model(step_model(s))
    }
}

proof fn lemma_first_closed_from_bounds<T>(sinks: Seq<QueueModel<T>>, i: int, n: int)
    requires
        0 <= i <= n,
    ensures
        i <= first_closed_from(sinks, i, n) <= n,
        forall|j: int| i <= j < first_closed_from(sinks, i, n) ==> sinks[j].open,
        first_closed_from(sinks, i, n) < n ==> !sinks[first_closed_from(sinks, i, n)].open,
    decreases n - i,
{
    if i < n && sinks[i].open {
        lemma_first_closed_from_bounds(sinks, i + 1, n);
    }
}

/// Basic facts about the first closed sink: it lies within the snapshot,
/// every sink before it is open, and it is itself closed when it exists.
pub proof fn lemma_first_closed_bounds<T>(sinks: Seq<QueueModel<T>>, n: int)
    requires
        0 <= n,
    ensures
        0 <= first_closed(sinks, n) <= n,
        forall|j: int| 0 <= j < first_closed(sinks, n) ==> sinks[j].open,
        first_closed(sinks, n) < n ==> !sinks[first_closed(sinks, n)].open,
{
    lemma_first_closed_from_bounds(sinks, 0, n);
}

impl Broadcaster {
    /// Start a category's fan-out task: snapshot the registry as it stands
    /// now. Sinks registered after this point are invisible to this
    /// broadcaster for its whole lifetime.
    pub fn start<T>(senders: &Vec<Queue<T>>) -> (b: Broadcaster)
        ensures
            b.snapshot_len == senders@.len(),
            !b.halted,
    {
        Broadcaster { snapshot_len: senders.len(), halted: false }
    }
}

fn sink_at<T>(senders: &mut Vec<Queue<T>>, i: usize) -> (s: &mut Queue<T>)
    requires
        i < old(senders)@.len(),
    ensures
        *s == old(senders)@[i as int],
        final(senders)@ == old(senders)@.update(i as int, *final(s)),
{
    &mut senders[i]
}

/// Fan one message out across the snapshot, in registry order, one sink at
/// a time, stopping at the first closed sink. Returns whether every
/// snapshotted sink accepted its copy.
fn deliver_to_all<T: Copy>(m: T, snapshot_len: usize, senders: &mut Vec<Queue<T>>) -> (ok:
    bool)
    requires
        snapshot_len <= old(senders)@.len(),
    ensures
        final(senders)@.len() == old(senders)@.len(),
        registry_view(final(senders)@) == deliver_model(
            registry_view(old(senders)@),
            snapshot_len as int,
            m,
        ),
        ok == (first_closed(registry_view(old(senders)@), snapshot_len as int)
            == snapshot_len as int),
{
    let ghost sinks0 = registry_view(senders@);
    let ghost k: int = first_closed(sinks0, snapshot_len as int);
    proof {
        lemma_first_closed_bounds(sinks0, snapshot_len as int);
        assert(registry_view(senders@) =~= delivered_upto(sinks0, 0, m));
    }
    let mut i: usize = 0;
    let mut ok = true;
    while i < snapshot_len && ok
        invariant
            snapshot_len <= senders@.len(),
            senders@.len() == sinks0.len(),
            i <= snapshot_len,
            k == first_closed(sinks0, snapshot_len as int),
            0 <= k <= snapshot_len,
            forall|j: int| 0 <= j < k ==> sinks0[j].open,
            k < snapshot_len ==> !sinks0[k].open,
            ok ==> i <= k && registry_view(senders@) == delivered_upto(sinks0, i as int, m),
            !ok ==> i == k && k < snapshot_len && registry_view(senders@) == delivered_upto(
                sinks0,
                k,
                m,
            ),
        decreases snapshot_len - i + (if ok { 1int } else { 0int }),
    {
        let ghost before = senders@;
        let sink = sink_at(senders, i);
        assert(sink@ == delivered_upto(sinks0, i as int, m)[i as int]);
        assert(sink@.open == sinks0[i as int].open);
        let accepted = sink.send(m);
        proof {
            assert(registry_view(senders@) =~= registry_view(before).update(
                i as int,
                final(sink)@,
            ));
        }
        if accepted {
            proof {
                assert(i < k) by {
                    if i >= k {
                        assert(!sinks0[i as int].open);
                    }
                }
                assert(registry_view(senders@) =~= delivered_upto(sinks0, i + 1int, m));
            }
            i = i + 1;
        } else {
            proof {
                assert(i == k) by {
                    if i < k {
                        assert(sinks0[i as int].open);
                    }
                }
                assert(registry_view(senders@) =~= delivered_upto(sinks0, k, m));
            }
            ok = false;
        }
    }
    proof {
        if ok {
            assert(i == snapshot_len);
            assert(k == snapshot_len as int);
        }
        assert(registry_view(senders@) =~= delivered_upto(sinks0, k, m));
    }
    ok
}

/// Drain the ingress queue, fanning each message out across the snapshot
/// taken at `b`'s start, halting the category on the first failed
/// delivery. The live task suspends instead of returning when the ingress
/// is empty but open; this processes everything the task would before
/// suspending.
pub fn broadcast_message<T: Copy>(
    b: &mut Broadcaster,
    receiver: &mut Queue<T>,
    senders: &mut Vec<Queue<T>>,
)
    requires
        old(b).snapshot_len <= old(senders)@.len(),
    ensures
        state_of(*final(b), final(receiver)@, registry_view(final(senders)@)) == run_model(
            state_of(*old(b), old(receiver)@, registry_view(old(senders)@)),
        ),
        final(b).snapshot_len == old(b).snapshot_len,
        final(senders)@.len() == old(senders)@.len(),
{
    let ghost s0 = state_of(*b, receiver@, registry_view(senders@));
    while !b.halted && receiver.len() > 0
        invariant
            b.snapshot_len as int == s0.snapshot_len,
            b.snapshot_len <= senders@.len(),
            senders@.len() == s0.sinks.len(),
            run_model(state_of(*b, receiver@, registry_view(senders@))) == run_model(s0),
        decreases receiver@.items.len(),
    {
        let ghost s_iter = state_of(*b, receiver@, registry_view(senders@));
        let m = receiver.recv().unwrap();
        let ok = deliver_to_all(m, b.snapshot_len, senders);
        if !ok {
            b.halted = true;
        }
        proof {
            lemma_first_closed_bounds(s_iter.sinks, s_iter.snapshot_len);
            assert(state_of(*b, receiver@, registry_view(senders@)) =~~= step_model(s_iter));
        }
    }
    proof {
        assert(state_of(*b, receiver@, registry_view(senders@)) == run_model(s0));
    }
}

/// Law: with every snapshotted sink open, draining N pending messages
/// delivers all N, in publication order, to every one of the snapshotted
/// sinks — each ends up with exactly the same messages in the same
/// relative order — and the broadcaster never halts.
pub proof fn lemma_broadcast_delivers_all<T>(s: BroadcastState<T>)
    requires
        !s.halted,
        0 <= s.snapshot_len <= s.sinks.len(),
        forall|i: int| 0 <= i < s.snapshot_len ==> s.sinks[i].open,
    ensures
        !run_model(s).halted,
        run_model(s).ingress.items.len() == 0,
        run_model(s).sinks.len() == s.sinks.len(),
        forall|i: int|
            0 <= i < s.snapshot_len ==> run_model(s).sinks[i].items == s.sinks[i].items
                + s.ingress.items,
        forall|i: int| 0 <= i < s.snapshot_len ==> run_model(s).sinks[i].open == s.sinks[i].open,
    decreases s.ingress.items.len(),
{
    lemma_first_closed_bounds(s.sinks, s.snapshot_len);
    if s.ingress.items.len() == 0 {
        assert(forall|i: int|
            0 <= i < s.snapshot_len ==> run_model(s).sinks[i].items =~= s.sinks[i].items
                + s.ingress.items);
    } else {
        let k = first_closed(s.sinks, s.snapshot_len);
        assert(k == s.snapshot_len) by {
            if k < s.snapshot_len {
                assert(s.sinks[k].open);
            }
        }
        let s1 = step_model(s);
        assert(s1.sinks.len() == s.sinks.len());
        assert(forall|i: int| 0 <= i < s1.snapshot_len ==> s1.sinks[i].open);
        lemma_broadcast_delivers_all(s1);
        assert(run_model(s) == run_model(s1));
        assert forall|i: int| 0 <= i < s.snapshot_len implies run_model(s).sinks[i].items
            == s.sinks[i].items + s.ingress.items by {
            assert(run_model(s1).sinks[i].items == s1.sinks[i].items + s1.ingress.items);
            assert(s1.sinks[i].items == s.sinks[i].items.push(s.ingress.items[0]));
            assert(s.sinks[i].items.push(s.ingress.items[0]) + s.ingress.items.drop_first()
                =~= s.sinks[i].items + s.ingress.items);
        }
    }
}

/// Law: snapshot-at-start. A sink registered after the broadcaster
/// started — one whose index lies at or beyond the snapshot length — is
/// never touched by the run: it receives none of the messages published
/// before or during the broadcaster's lifetime.
pub proof fn lemma_late_registrations_unchanged<T>(s: BroadcastState<T>)
    requires
        0 <= s.snapshot_len <= s.sinks.len(),
    ensures
        run_model(s).sinks.len() == s.sinks.len(),
        run_model(s).snapshot_len == s.snapshot_len,
        forall|i: int|
            s.snapshot_len <= i < s.sinks.len() ==> run_model(s).sinks[i] == s.sinks[i],
    decreases s.ingress.items.len(),
{
    if !s.halted && s.ingress.items.len() > 0 {
        lemma_first_closed_bounds(s.sinks, s.snapshot_len);
        let s1 = step_model(s);
        lemma_late_registrations_unchanged(s1);
        assert(run_model(s) == run_model(s1));
        assert forall|i: int| s.snapshot_len <= i < s.sinks.len() implies run_model(s).sinks[i]
            == s.sinks[i] by {
            assert(s1.sinks[i] == s.sinks[i]);
            assert(run_model(s1).sinks[i] == s1.sinks[i]);
        }
    }
}

/// Law: blast radius of one closed sink. When a message is pending and
/// some snapshotted sink is closed, the run delivers that one message to
/// exactly the sinks before the first closed one, halts the whole
/// category, and leaves every later message undelivered in the ingress.
pub proof fn lemma_closed_sink_halts_category<T>(s: BroadcastState<T>)
    requires
        !s.halted,
        s.ingress.items.len() > 0,
        0 <= s.snapshot_len <= s.sinks.len(),
        first_closed(s.sinks, s.snapshot_len) < s.snapshot_len,
    ensures
        run_model(s).halted,
        run_model(s).ingress.items == s.ingress.items.drop_first(),
        run_model(s).sinks.len() == s.sinks.len(),
        forall|j: int|
            0 <= j < first_closed(s.sinks, s.snapshot_len) ==> run_model(s).sinks[j].items
                == s.sinks[j].items.push(s.ingress.items[0]),
        forall|j: int|
            first_closed(s.sinks, s.snapshot_len) <= j < s.sinks.len() ==> run_model(s).sinks[j]
                == s.sinks[j],
{
    lemma_first_closed_bounds(s.sinks, s.snapshot_len);
    let s1 = step_model(s);
    assert(s1.halted);
    assert(run_model(s1) == s1);
    assert(run_model(s) == run_model(s1));
}

} // verus!
