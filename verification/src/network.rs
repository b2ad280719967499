//! The channel registry and the network coordinator.
//!
//! [`Channels`] owns, for each of the four message categories, one
//! unbounded ingress queue and the ordered registry of node inbound queues
//! for that category. [`Network`] owns a `Channels` and drives the four
//! fan-out pipelines. In the live system each node keeps the consumer end
//! of its inbound queues and hands the registry a producer handle; in this
//! model the registry entry stands for the node's inbound queue itself, so
//! what a node would have received can be read off the registry.
//!
//! The lifecycle is configure-then-run: all nodes are registered first,
//! then [`Network::run_network`] snapshots each registry and drains each
//! ingress. A registration made after a broadcaster started lands beyond
//! that broadcaster's snapshot and is proved untouched
//! ([`crate::broadcast::lemma_late_registrations_unchanged`]).

use vstd::prelude::*;

use crate::broadcast::{registry_view, run_model, BroadcastState, Broadcaster};
use crate::broadcast::{broadcast_message, lemma_broadcast_delivers_all};
use crate::message::{Block, BlockVerifyTx, GetNonExistingBlockTx, Transaction};
use crate::queue::{send_model, Queue, QueueModel};

verus! {

/// A simulated node, as the core sees it: a bundle of four independent
/// inbound queues, one per message category. The field names follow the
/// handles a node hands out for registration; in this model the handle
/// and the queue behind it are one value.
pub struct Node {
    pub client_tx_sender: Queue<Transaction>,
    pub mined_block_sender: Queue<Block>,
    pub block_verify_tx_sender: Queue<BlockVerifyTx>,
    pub non_existing_block_request_sender: Queue<GetNonExistingBlockTx>,
}

impl Node {
    /// A node whose four inbound queues are fresh, open and empty.
    pub fn new() -> (n: Node)
        ensures
            n.client_tx_sender@.open,
            n.client_tx_sender@.items.len() == 0,
            n.mined_block_sender@.open,
            n.mined_block_sender@.items.len() == 0,
            n.block_verify_tx_sender@.open,
            n.block_verify_tx_sender@.items.len() == 0,
            n.non_existing_block_request_sender@.open,
            n.non_existing_block_request_sender@.items.len() == 0,
    {
        Node {
            client_tx_sender: Queue::new(),
            mined_block_sender: Queue::new(),
            block_verify_tx_sender: Queue::new(),
            non_existing_block_request_sender: Queue::new(),
        }
    }
}

/// Mathematical value of a [`Channels`]: per category, the ingress queue
/// and the ordered sink registry.
#[verifier::ext_equal]
pub ghost struct ChannelsModel {
    pub tx_ingress: QueueModel<Transaction>,
    pub node_tx_senders: Seq<QueueModel<Transaction>>,
    pub mined_block_ingress: QueueModel<Block>,
    pub node_mined_block_senders: Seq<QueueModel<Block>>,
    pub block_verify_tx_ingress: QueueModel<BlockVerifyTx>,
    pub node_block_verify_tx_senders: Seq<QueueModel<BlockVerifyTx>>,
    pub non_existing_block_request_ingress: QueueModel<GetNonExistingBlockTx>,
    pub node_non_existing_block_request_senders: Seq<QueueModel<GetNonExistingBlockTx>>,
}

/// The channel registry: four independent ingress queues, and per
/// category the registry of node inbound queues in registration order.
pub struct Channels {
    pub tx_ingress: Queue<Transaction>,
    pub node_tx_senders: Vec<Queue<Transaction>>,
    pub mined_block_ingress: Queue<Block>,
    pub node_mined_block_senders: Vec<Queue<Block>>,
    pub block_verify_tx_ingress: Queue<BlockVerifyTx>,
    pub node_block_verify_tx_senders: Vec<Queue<BlockVerifyTx>>,
    pub non_existing_block_request_ingress: Queue<GetNonExistingBlockTx>,
    pub node_non_existing_block_request_senders: Vec<Queue<GetNonExistingBlockTx>>,
}

impl View for Channels {
    type V = ChannelsModel;

    open spec fn view(&self) -> ChannelsModel {
        ChannelsModel {
            tx_ingress: self.tx_ingress@,
            node_tx_senders: registry_view(self.node_tx_senders@),
            mined_block_ingress: self.mined_block_ingress@,
            node_mined_block_senders: registry_view(self.node_mined_block_senders@),
            block_verify_tx_ingress: self.block_verify_tx_ingress@,
            node_block_verify_tx_senders: registry_view(self.node_block_verify_tx_senders@),
            non_existing_block_request_ingress: self.non_existing_block_request_ingress@,
            node_non_existing_block_request_senders: registry_view(
                self.node_non_existing_block_request_senders@,
            ),
        }
    }
}

/// The registry as construction leaves it: every ingress open and empty,
/// every sink registry empty.
pub open spec fn fresh_channels_model() -> ChannelsModel {
    ChannelsModel {
        tx_ingress: QueueModel { open: true, items: Seq::empty() },
        node_tx_senders: Seq::empty(),
        mined_block_ingress: QueueModel { open: true, items: Seq::empty() },
        node_mined_block_senders: Seq::empty(),
        block_verify_tx_ingress: QueueModel { open: true, items: Seq::empty() },
        node_block_verify_tx_senders: Seq::empty(),
        non_existing_block_request_ingress: QueueModel { open: true, items: Seq::empty() },
        node_non_existing_block_request_senders: Seq::empty(),
    }
}

/// The registries after a sequence of nodes has been appended, each node
/// contributing its four inbound queues in registration order.
pub open spec fn registered_model(c: ChannelsModel, nodes: Seq<Node>) -> ChannelsModel {
    ChannelsModel {
        node_tx_senders: c.node_tx_senders + nodes.map_values(
            |n: Node| n.client_tx_sender@,
        ),
        node_mined_block_senders: c.node_mined_block_senders + nodes.map_values(
            |n: Node| n.mined_block_sender@,
        ),
        node_block_verify_tx_senders: c.node_block_verify_tx_senders + nodes.map_values(
            |n: Node| n.block_verify_tx_sender@,
        ),
        node_non_existing_block_request_senders: c.node_non_existing_block_request_senders
            + nodes.map_values(|n: Node| n.non_existing_block_request_sender@),
        ..c
    }
}

impl Default for Channels {
    /// Four fresh ingress queues; all four registries empty.
    fn default() -> (c: Channels)
        ensures
            c@ == fresh_channels_model(),
    {
        let c = Channels {
            tx_ingress: Queue::new(),
            node_tx_senders: Vec::new(),
            mined_block_ingress: Queue::new(),
            node_mined_block_senders: Vec::new(),
            block_verify_tx_ingress: Queue::new(),
            node_block_verify_tx_senders: Vec::new(),
            non_existing_block_request_ingress: Queue::new(),
            node_non_existing_block_request_senders: Vec::new(),
        };
        proof {
            assert(c@ =~~= fresh_channels_model());
        }
        c
    }
}

/// Wiring of node topology into a channel registry.
pub trait ChannelConfigurer {
    /// The registry's mathematical value, as [`registered_model`] speaks
    /// of it.
    spec fn chan_model(&self) -> ChannelsModel;

    /// Append each node's four inbound queues, in sequence order, to the
    /// corresponding category registries. Purely additive: registering
    /// the same topology twice duplicates every entry, and each message
    /// is then delivered twice to the duplicated nodes. To be called
    /// exactly once, fully, before broadcasting starts.
    fn set_pipeline(&mut self, nodes: Vec<Node>)
        ensures
            final(self).chan_model() == registered_model(old(self).chan_model(), nodes@),
    ;
}

impl ChannelConfigurer for Channels {
    open spec fn chan_model(&self) -> ChannelsModel {
        self@
    }

    fn set_pipeline(&mut self, nodes: Vec<Node>) {
        let ghost m0 = self@;
        let ghost nodes0 = nodes@;
        let mut rest = nodes;
        while rest.len() > 0
            invariant
                rest@.len() <= nodes0.len(),
                rest@ == nodes0.subrange(
                    nodes0.len() - rest@.len(),
                    nodes0.len() as int,
                ),
                self@ == registered_model(
                    m0,
                    nodes0.take(nodes0.len() - rest@.len()),
                ),
            decreases rest@.len(),
        {
            let ghost done: int = nodes0.len() - rest@.len();
            let node = rest.remove(0);
            assert(node == nodes0[done]);
            self.node_tx_senders.push(node.client_tx_sender);
            self.node_mined_block_senders.push(node.mined_block_sender);
            self.node_block_verify_tx_senders.push(node.block_verify_tx_sender);
            self.node_non_existing_block_request_senders.push(
                node.non_existing_block_request_sender,
            );
            proof {
                assert(rest@ =~= nodes0.subrange(done + 1, nodes0.len() as int));
                lemma_registered_model_snoc(m0, nodes0, done);
                assert(self@ =~~= registered_model(m0, nodes0.take(done + 1)));
            }
        }
        proof {
            assert(nodes0.take(nodes0.len() as int) =~= nodes0);
        }
    }
}

proof fn lemma_registered_model_snoc(c: ChannelsModel, nodes: Seq<Node>, k: int)
    requires
        0 <= k < nodes.len(),
    ensures
        registered_model(c, nodes.take(k + 1)) == (ChannelsModel {
            node_tx_senders: registered_model(c, nodes.take(k)).node_tx_senders.push(
                nodes[k].client_tx_sender@,
            ),
            node_mined_block_senders: registered_model(
                c,
                nodes.take(k),
            ).node_mined_block_senders.push(nodes[k].mined_block_sender@),
            node_block_verify_tx_senders: registered_model(
                c,
                nodes.take(k),
            ).node_block_verify_tx_senders.push(nodes[k].block_verify_tx_sender@),
            node_non_existing_block_request_senders: registered_model(
                c,
                nodes.take(k),
            ).node_non_existing_block_request_senders.push(
                nodes[k].non_existing_block_request_sender@,
            ),
            ..c
        }),
{
    assert(registered_model(c, nodes.take(k + 1)).node_tx_senders =~= registered_model(
        c,
        nodes.take(k),
    ).node_tx_senders.push(nodes[k].client_tx_sender@));
    assert(registered_model(c, nodes.take(k + 1)).node_mined_block_senders
        =~= registered_model(c, nodes.take(k)).node_mined_block_senders.push(
        nodes[k].mined_block_sender@,
    ));
    assert(registered_model(c, nodes.take(k + 1)).node_block_verify_tx_senders
        =~= registered_model(c, nodes.take(k)).node_block_verify_tx_senders.push(
        nodes[k].block_verify_tx_sender@,
    ));
    assert(registered_model(c, nodes.take(k + 1)).node_non_existing_block_request_senders
        =~= registered_model(c, nodes.take(k)).node_non_existing_block_request_senders.push(
        nodes[k].non_existing_block_request_sender@,
    ));
    assert(registered_model(c, nodes.take(k + 1)) =~~= (ChannelsModel {
        node_tx_senders: registered_model(c, nodes.take(k)).node_tx_senders.push(
            nodes[k].client_tx_sender@,
        ),
        node_mined_block_senders: registered_model(
            c,
            nodes.take(k),
        ).node_mined_block_senders.push(nodes[k].mined_block_sender@),
        node_block_verify_tx_senders: registered_model(
            c,
            nodes.take(k),
        ).node_block_verify_tx_senders.push(nodes[k].block_verify_tx_sender@),
        node_non_existing_block_request_senders: registered_model(
            c,
            nodes.take(k),
        ).node_non_existing_block_request_senders.push(
            nodes[k].non_existing_block_request_sender@,
        ),
        ..c
    }));
}

/// The network coordinator: owns the channel registry and drives the four
/// fan-out pipelines.
pub struct Network {
    pub channel: Channels,
}

impl Default for Network {
    fn default() -> (n: Network)
        ensures
            n.channel@ == fresh_channels_model(),
    {
        Network { channel: Channels::default() }
    }
}

/// Publishing a transaction to the ingress of the transaction category.
pub open spec fn publish_tx_model(c: ChannelsModel, t: Transaction) -> ChannelsModel {
    ChannelsModel { tx_ingress: send_model(c.tx_ingress, t), ..c }
}

/// Publishing a mined block to the ingress of the block category.
pub open spec fn publish_mined_block_model(c: ChannelsModel, b: Block) -> ChannelsModel {
    ChannelsModel { mined_block_ingress: send_model(c.mined_block_ingress, b), ..c }
}

/// The transaction broadcaster's start state: snapshot taken now, ingress
/// and registry as they stand.
pub open spec fn tx_run_state(c: ChannelsModel) -> BroadcastState<Transaction> {
    BroadcastState {
        snapshot_len: c.node_tx_senders.len() as int,
        halted: false,
        ingress: c.tx_ingress,
        sinks: c.node_tx_senders,
    }
}

/// The mined-block broadcaster's start state.
pub open spec fn mined_block_run_state(c: ChannelsModel) -> BroadcastState<Block> {
    BroadcastState {
        snapshot_len: c.node_mined_block_senders.len() as int,
        halted: false,
        ingress: c.mined_block_ingress,
        sinks: c.node_mined_block_senders,
    }
}

/// The verification-request broadcaster's start state.
pub open spec fn block_verify_run_state(c: ChannelsModel) -> BroadcastState<BlockVerifyTx> {
    BroadcastState {
        snapshot_len: c.node_block_verify_tx_senders.len() as int,
        halted: false,
        ingress: c.block_verify_tx_ingress,
        sinks: c.node_block_verify_tx_senders,
    }
}

/// The missing-block-request broadcaster's start state.
pub open spec fn non_existing_block_request_run_state(c: ChannelsModel) -> BroadcastState<
    GetNonExistingBlockTx,
> {
    BroadcastState {
        snapshot_len: c.node_non_existing_block_request_senders.len() as int,
        halted: false,
        ingress: c.non_existing_block_request_ingress,
        sinks: c.node_non_existing_block_request_senders,
    }
}

/// Effect of the transaction category's broadcaster on the registry.
pub open spec fn run_tx_category(c: ChannelsModel) -> ChannelsModel {
    let r = run_model(tx_run_state(c));
    ChannelsModel { tx_ingress: r.ingress, node_tx_senders: r.sinks, ..c }
}

/// Effect of the mined-block category's broadcaster on the registry.
pub open spec fn run_mined_block_category(c: ChannelsModel) -> ChannelsModel {
    let r = run_model(mined_block_run_state(c));
    ChannelsModel { mined_block_ingress: r.ingress, node_mined_block_senders: r.sinks, ..c }
}

/// Effect of the verification-request category's broadcaster.
pub open spec fn run_block_verify_category(c: ChannelsModel) -> ChannelsModel {
    let r = run_model(block_verify_run_state(c));
    ChannelsModel {
        block_verify_tx_ingress: r.ingress,
        node_block_verify_tx_senders: r.sinks,
        ..c
    }
}

/// Effect of the missing-block-request category's broadcaster.
pub open spec fn run_non_existing_block_request_category(c: ChannelsModel) -> ChannelsModel {
    let r = run_model(non_existing_block_request_run_state(c));
    ChannelsModel {
        non_existing_block_request_ingress: r.ingress,
        node_non_existing_block_request_senders: r.sinks,
        ..c
    }
}

/// Effect of all four broadcasters. The categories touch disjoint state,
/// so the order of composition is immaterial
/// ([`lemma_cross_category_unordered`]).
pub open spec fn run_network_model(c: ChannelsModel) -> ChannelsModel {
    run_non_existing_block_request_category(
        run_block_verify_category(run_mined_block_category(run_tx_category(c))),
    )
}

impl Network {
    /// Register nodes, delegating to the channel registry. As additive
    /// and non-idempotent as [`ChannelConfigurer::set_pipeline`].
    pub fn set_pipeline(&mut self, nodes: Vec<Node>)
        ensures
            final(self).channel@ == registered_model(old(self).channel@, nodes@),
    {
        self.channel.set_pipeline(nodes);
    }

    /// One category's broadcaster, from task start to the point where the
    /// live task would suspend (ingress drained) or die (delivery to a
    /// closed sink): snapshot the registry, then drain. `Err` exactly
    /// when a failed delivery halted the category.
    pub fn run_broadcaster<T: Copy>(receiver: &mut Queue<T>, senders: &mut Vec<Queue<T>>) -> (r:
        Result<(), String>)
        ensures
            ({
                let s0 = BroadcastState {
                    snapshot_len: old(senders)@.len() as int,
                    halted: false,
                    ingress: old(receiver)@,
                    sinks: registry_view(old(senders)@),
                };
                final(receiver)@ == run_model(s0).ingress && registry_view(final(senders)@)
                    == run_model(s0).sinks && (r is Ok <==> !run_model(s0).halted)
            }),
    {
        let mut b = Broadcaster::start(senders);
        broadcast_message(&mut b, receiver, senders);
        if b.halted {
            Err(String::from_str("delivery to a closed node queue halted the category"))
        } else {
            Ok(())
        }
    }

    /// Launch the four broadcasters and let each work through what its
    /// ingress holds. Each snapshots its registry at its own start. `Ok`
    /// exactly when no category's broadcaster was halted by a delivery
    /// failure; one halted category does not keep the others from
    /// delivering.
    pub fn run_network(&mut self) -> (r: Result<(), String>)
        ensures
            final(self).channel@ == run_network_model(old(self).channel@),
            r is Ok <==> {
                &&& !run_model(tx_run_state(old(self).channel@)).halted
                &&& !run_model(mined_block_run_state(old(self).channel@)).halted
                &&& !run_model(block_verify_run_state(old(self).channel@)).halted
                &&& !run_model(
                    non_existing_block_request_run_state(old(self).channel@),
                ).halted
            },
    {
        let ghost c0 = self.channel@;
        let r1 = Self::run_broadcaster(
            &mut self.channel.tx_ingress,
            &mut self.channel.node_tx_senders,
        );
        let ghost c1 = self.channel@;
        proof {
            assert(c1 =~~= run_tx_category(c0));
        }
        let r2 = Self::run_broadcaster(
            &mut self.channel.mined_block_ingress,
            &mut self.channel.node_mined_block_senders,
        );
        let ghost c2 = self.channel@;
        proof {
            assert(c2 =~~= run_mined_block_category(c1));
        }
        let r3 = Self::run_broadcaster(
            &mut self.channel.block_verify_tx_ingress,
            &mut self.channel.node_block_verify_tx_senders,
        );
        let ghost c3 = self.channel@;
        proof {
            assert(c3 =~~= run_block_verify_category(c2));
        }
        let r4 = Self::run_broadcaster(
            &mut self.channel.non_existing_block_request_ingress,
            &mut self.channel.node_non_existing_block_request_senders,
        );
        proof {
            assert(self.channel@ =~~= run_non_existing_block_request_category(c3));
            assert(mined_block_run_state(c1) == mined_block_run_state(c0));
            assert(block_verify_run_state(c2) == block_verify_run_state(c0));
            assert(non_existing_block_request_run_state(c3)
                == non_existing_block_request_run_state(c0));
        }
        if r1.is_ok() && r2.is_ok() && r3.is_ok() && r4.is_ok() {
            Ok(())
        } else {
            Err(String::from_str("a category broadcaster halted"))
        }
    }
}

/// Law: with every registered node's inbound queue open in every
/// category, running the network drains all four ingress queues, no
/// category halts, and every registered node's queue for each category
/// ends holding what it already held followed by every pending message of
/// that category, in publication order — the same sequence at every node.
pub proof fn lemma_run_network_delivers_all(c: ChannelsModel)
    requires
        forall|i: int| 0 <= i < c.node_tx_senders.len() ==> c.node_tx_senders[i].open,
        forall|i: int|
            0 <= i < c.node_mined_block_senders.len() ==> c.node_mined_block_senders[i].open,
        forall|i: int|
            0 <= i < c.node_block_verify_tx_senders.len()
                ==> c.node_block_verify_tx_senders[i].open,
        forall|i: int|
            0 <= i < c.node_non_existing_block_request_senders.len()
                ==> c.node_non_existing_block_request_senders[i].open,
    ensures
        !run_model(tx_run_state(c)).halted,
        !run_model(mined_block_run_state(c)).halted,
        !run_model(block_verify_run_state(c)).halted,
        !run_model(non_existing_block_request_run_state(c)).halted,
        run_network_model(c).tx_ingress.items.len() == 0,
        run_network_model(c).mined_block_ingress.items.len() == 0,
        run_network_model(c).block_verify_tx_ingress.items.len() == 0,
        run_network_model(c).non_existing_block_request_ingress.items.len() == 0,
        run_network_model(c).node_tx_senders.len() == c.node_tx_senders.len(),
        run_network_model(c).node_mined_block_senders.len() == c.node_mined_block_senders.len(),
        run_network_model(c).node_block_verify_tx_senders.len()
            == c.node_block_verify_tx_senders.len(),
        run_network_model(c).node_non_existing_block_request_senders.len()
            == c.node_non_existing_block_request_senders.len(),
        forall|i: int|
            0 <= i < c.node_tx_senders.len() ==> run_network_model(c).node_tx_senders[i].items
                == c.node_tx_senders[i].items + c.tx_ingress.items,
        forall|i: int|
            0 <= i < c.node_mined_block_senders.len() ==> run_network_model(
                c,
            ).node_mined_block_senders[i].items == c.node_mined_block_senders[i].items
                + c.mined_block_ingress.items,
        forall|i: int|
            0 <= i < c.node_block_verify_tx_senders.len() ==> run_network_model(
                c,
            ).node_block_verify_tx_senders[i].items == c.node_block_verify_tx_senders[i].items
                + c.block_verify_tx_ingress.items,
        forall|i: int|
            0 <= i < c.node_non_existing_block_request_senders.len() ==> run_network_model(
                c,
            ).node_non_existing_block_request_senders[i].items
                == c.node_non_existing_block_request_senders[i].items
                + c.non_existing_block_request_ingress.items,
{
    let c1 = run_tx_category(c);
    let c2 = run_mined_block_category(c1);
    let c3 = run_block_verify_category(c2);
    lemma_broadcast_delivers_all(tx_run_state(c));
    assert(mined_block_run_state(c1) == mined_block_run_state(c));
    lemma_broadcast_delivers_all(mined_block_run_state(c));
    assert(block_verify_run_state(c2) == block_verify_run_state(c));
    lemma_broadcast_delivers_all(block_verify_run_state(c));
    assert(non_existing_block_request_run_state(c3) == non_existing_block_request_run_state(c));
    lemma_broadcast_delivers_all(non_existing_block_request_run_state(c));
    assert(run_network_model(c).node_tx_senders == run_model(tx_run_state(c)).sinks);
    assert(run_network_model(c).node_mined_block_senders == run_model(
        mined_block_run_state(c),
    ).sinks);
    assert(run_network_model(c).node_block_verify_tx_senders == run_model(
        block_verify_run_state(c),
    ).sinks);
    assert(run_network_model(c).node_non_existing_block_request_senders == run_model(
        non_existing_block_request_run_state(c),
    ).sinks);
}

/// Law: cross-category interleaving is unordered. The four categories
/// share no state, so publishing a transaction and a mined block in
/// either order leaves the registry in the same state, and the two
/// categories' broadcasters commute: no relative delivery order across
/// categories is guaranteed — or even expressible — in the model.
pub proof fn lemma_cross_category_unordered(c: ChannelsModel, t: Transaction, b: Block)
    ensures
        publish_mined_block_model(publish_tx_model(c, t), b) == publish_tx_model(
            publish_mined_block_model(c, b),
            t,
        ),
        run_mined_block_category(run_tx_category(c)) == run_tx_category(
            run_mined_block_category(c),
        ),
        run_tx_category(publish_mined_block_model(c, b)).tx_ingress == run_tx_category(
            c,
        ).tx_ingress,
        run_tx_category(publish_mined_block_model(c, b)).node_tx_senders == run_tx_category(
            c,
        ).node_tx_senders,
{
    assert(publish_mined_block_model(publish_tx_model(c, t), b) =~~= publish_tx_model(
        publish_mined_block_model(c, b),
        t,
    ));
    assert(tx_run_state(run_mined_block_category(c)) == tx_run_state(c));
    assert(mined_block_run_state(run_tx_category(c)) == mined_block_run_state(c));
    assert(run_mined_block_category(run_tx_category(c)) =~~= run_tx_category(
        run_mined_block_category(c),
    ));
    assert(tx_run_state(publish_mined_block_model(c, b)) == tx_run_state(c));
}

} // verus!
