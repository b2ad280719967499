use chain_net::broadcast::{broadcast_message, Broadcaster};
use chain_net::client::{Client, TxTrigger, TxTriggerController};
use chain_net::message::{Address, Block, BlockVerifyTx, GetNonExistingBlockTx, Transaction};
use chain_net::network::{ChannelConfigurer, Network, Node};
use chain_net::queue::Queue;

#[test]
fn fifo_queue_send_recv_order() {
    let mut q: Queue<Transaction> = Queue::new();
    let a = Transaction::new(Address::new(1), 10);
    let b = Transaction::new(Address::new(2), 20);
    assert!(q.send(a));
    assert!(q.send(b));
    assert_eq!(q.len(), 2);
    assert_eq!(q.recv(), Some(a));
    assert_eq!(q.recv(), Some(b));
    assert_eq!(q.recv(), None);
}

#[test]
fn closed_queue_refuses_and_keeps_items() {
    let mut q: Queue<Block> = Queue::new();
    assert!(q.send(Block::new(7)));
    q.close();
    assert!(!q.is_open());
    assert!(!q.send(Block::new(8)));
    assert_eq!(q.len(), 1);
    assert_eq!(q.recv(), Some(Block::new(7)));
}

#[test]
fn channels_default_empty() {
    let net = Network::default();
    assert_eq!(net.channel.tx_ingress.len(), 0);
    assert!(net.channel.tx_ingress.is_open());
    assert_eq!(net.channel.node_tx_senders.len(), 0);
    assert_eq!(net.channel.node_mined_block_senders.len(), 0);
    assert_eq!(net.channel.node_block_verify_tx_senders.len(), 0);
    assert_eq!(net.channel.node_non_existing_block_request_senders.len(), 0);
}

#[test]
fn registration_order_is_call_order() {
    let mut net = Network::default();
    net.set_pipeline(vec![Node::new(), Node::new()]);
    assert_eq!(net.channel.node_tx_senders.len(), 2);
    // A second registration appends: the operation is additive, never
    // deduplicating.
    net.set_pipeline(vec![Node::new()]);
    assert_eq!(net.channel.node_tx_senders.len(), 3);
    assert_eq!(net.channel.node_mined_block_senders.len(), 3);
    assert_eq!(net.channel.node_block_verify_tx_senders.len(), 3);
    assert_eq!(net.channel.node_non_existing_block_request_senders.len(), 3);
}

#[test]
fn all_nodes_receive_same_messages_in_order() {
    let mut net = Network::default();
    net.set_pipeline(vec![Node::new(), Node::new()]);
    for id in 0..3u64 {
        assert!(net.channel.mined_block_ingress.send(Block::new(id)));
    }
    assert!(net.run_network().is_ok());
    assert_eq!(net.channel.mined_block_ingress.len(), 0);
    for sink in net.channel.node_mined_block_senders.iter_mut() {
        assert_eq!(sink.recv(), Some(Block::new(0)));
        assert_eq!(sink.recv(), Some(Block::new(1)));
        assert_eq!(sink.recv(), Some(Block::new(2)));
        assert_eq!(sink.recv(), None);
    }
}

#[test]
fn late_registered_node_receives_nothing() {
    let mut net = Network::default();
    net.set_pipeline(vec![Node::new(), Node::new()]);
    let tx1 = Transaction::new(Address::new(1), 5);
    let tx2 = Transaction::new(Address::new(2), 6);
    assert!(net.channel.tx_ingress.send(tx1));

    // The broadcaster snapshots the registry as it starts.
    let mut b = Broadcaster::start(&net.channel.node_tx_senders);

    // Registered after the start: invisible to this broadcaster.
    net.set_pipeline(vec![Node::new()]);
    assert!(net.channel.tx_ingress.send(tx2));

    broadcast_message(
        &mut b,
        &mut net.channel.tx_ingress,
        &mut net.channel.node_tx_senders,
    );
    assert!(!b.halted);
    for sink in net.channel.node_tx_senders[..2].iter_mut() {
        assert_eq!(sink.recv(), Some(tx1));
        assert_eq!(sink.recv(), Some(tx2));
        assert_eq!(sink.recv(), None);
    }
    assert_eq!(net.channel.node_tx_senders[2].len(), 0);
    assert_eq!(net.channel.node_tx_senders[2].recv(), None);
}

#[test]
fn cross_category_publish_order_is_immaterial() {
    let tx = Transaction::new(Address::new(9), 42);
    let blk = Block::new(17);

    let mut first = Network::default();
    first.set_pipeline(vec![Node::new()]);
    assert!(first.channel.tx_ingress.send(tx));
    assert!(first.channel.mined_block_ingress.send(blk));
    assert!(first.run_network().is_ok());

    let mut second = Network::default();
    second.set_pipeline(vec![Node::new()]);
    assert!(second.channel.mined_block_ingress.send(blk));
    assert!(second.channel.tx_ingress.send(tx));
    assert!(second.run_network().is_ok());

    // Whichever category was published to first, each category delivers
    // the same messages: no cross-category order exists to observe.
    assert_eq!(first.channel.node_tx_senders[0].recv(), Some(tx));
    assert_eq!(second.channel.node_tx_senders[0].recv(), Some(tx));
    assert_eq!(first.channel.node_mined_block_senders[0].recv(), Some(blk));
    assert_eq!(second.channel.node_mined_block_senders[0].recv(), Some(blk));
}

#[test]
fn zero_interval_trigger_still_enqueues() {
    let client = Client::new(Address::new(3));
    let mut ingress: Queue<Transaction> = Queue::new();
    let r = client.run_tx_trigger(Some(0), 5, &mut ingress);
    assert!(r.is_ok());
    assert_eq!(ingress.len(), 5);
    for _ in 0..5 {
        let tx = ingress.recv().unwrap();
        assert_eq!(tx.origin, Address::new(3));
        assert!(tx.amount < 100);
    }
}

#[test]
fn missing_interval_is_fatal_before_first_iteration() {
    let client = Client::new(Address::new(4));
    let mut ingress: Queue<Transaction> = Queue::new();
    let r = client.run_tx_trigger(None, 5, &mut ingress);
    assert!(r.is_err());
    assert_eq!(ingress.len(), 0);
}

#[test]
fn trigger_on_closed_ingress_swallows_failure() {
    let client = Client::new(Address::new(5));
    let mut ingress: Queue<Transaction> = Queue::new();
    ingress.close();
    assert!(client.rand_tx_trigger(&mut ingress).is_ok());
    assert_eq!(ingress.len(), 0);
    assert!(client.run_tx_trigger(Some(10), 4, &mut ingress).is_ok());
    assert_eq!(ingress.len(), 0);
}

#[test]
fn generated_transactions_carry_origin_and_bounded_amount() {
    let client = Client::new(Address::new(6));
    assert_eq!(client.amount, 0);
    for _ in 0..20 {
        let tx = client.generate_transaction();
        assert_eq!(tx.origin, Address::new(6));
        assert!(tx.amount < 100);
    }
    let mut ingress: Queue<Transaction> = Queue::new();
    assert!(client.rand_tx_trigger(&mut ingress).is_ok());
    assert_eq!(ingress.len(), 1);
    let tx = ingress.recv().unwrap();
    assert_eq!(tx.origin, Address::new(6));
    assert!(tx.amount < 100);
}

#[test]
fn three_nodes_two_transactions_scenario() {
    let mut net = Network::default();
    net.set_pipeline(vec![Node::new(), Node::new(), Node::new()]);
    let a = Transaction::new(Address::new(1), 10);
    let b = Transaction::new(Address::new(2), 20);
    assert!(net.channel.tx_ingress.send(a));
    assert!(net.channel.tx_ingress.send(b));
    assert!(net.run_network().is_ok());
    for sink in net.channel.node_tx_senders.iter_mut() {
        assert_eq!(sink.recv(), Some(a));
        assert_eq!(sink.recv(), Some(b));
        assert_eq!(sink.recv(), None);
    }
}

#[test]
fn closed_sink_halts_category_broadcaster() {
    let mut net = Network::default();
    net.set_pipeline(vec![Node::new(), Node::new(), Node::new()]);
    // The middle node's transaction queue is permanently closed.
    net.channel.node_tx_senders[1].close();
    let m1 = Transaction::new(Address::new(1), 1);
    let m2 = Transaction::new(Address::new(2), 2);
    assert!(net.channel.tx_ingress.send(m1));
    assert!(net.channel.tx_ingress.send(m2));

    let r = net.run_network();
    assert!(r.is_err());

    // The node before the closed sink got the first message; the closed
    // node and every node after it got nothing; the second message was
    // never delivered to anyone and stays undelivered.
    assert_eq!(net.channel.node_tx_senders[0].recv(), Some(m1));
    assert_eq!(net.channel.node_tx_senders[0].recv(), None);
    assert_eq!(net.channel.node_tx_senders[1].recv(), None);
    assert_eq!(net.channel.node_tx_senders[2].recv(), None);
    assert_eq!(net.channel.tx_ingress.len(), 1);
}

#[test]
fn halted_category_leaves_other_categories_delivering() {
    let mut net = Network::default();
    net.set_pipeline(vec![Node::new(), Node::new()]);
    net.channel.node_tx_senders[0].close();
    assert!(net.channel.tx_ingress.send(Transaction::new(Address::new(1), 1)));
    assert!(net.channel.mined_block_ingress.send(Block::new(5)));
    assert!(net.channel.block_verify_tx_ingress.send(BlockVerifyTx::new(6)));
    assert!(net
        .channel
        .non_existing_block_request_ingress
        .send(GetNonExistingBlockTx::new(7)));

    assert!(net.run_network().is_err());

    // Only the transaction category halted; the other three delivered.
    for sink in net.channel.node_mined_block_senders.iter_mut() {
        assert_eq!(sink.recv(), Some(Block::new(5)));
    }
    for sink in net.channel.node_block_verify_tx_senders.iter_mut() {
        assert_eq!(sink.recv(), Some(BlockVerifyTx::new(6)));
    }
    for sink in net.channel.node_non_existing_block_request_senders.iter_mut() {
        assert_eq!(sink.recv(), Some(GetNonExistingBlockTx::new(7)));
    }
}

#[test]
fn messages_published_before_start_reach_every_registered_node() {
    // Publishing happens before any broadcaster starts; every node that
    // was registered before the start sees the full sequence.
    let mut net = Network::default();
    net.set_pipeline(vec![Node::new(), Node::new(), Node::new(), Node::new()]);
    for id in 0..6u64 {
        assert!(net
            .channel
            .block_verify_tx_ingress
            .send(BlockVerifyTx::new(id)));
    }
    assert!(net.run_network().is_ok());
    for sink in net.channel.node_block_verify_tx_senders.iter_mut() {
        for id in 0..6u64 {
            assert_eq!(sink.recv(), Some(BlockVerifyTx::new(id)));
        }
        assert_eq!(sink.recv(), None);
    }
}
