//! The simulated client and its periodic transaction trigger.
//!
//! A client holds an address and publishes synthetic transactions, with a
//! random amount, to the transaction category's ingress queue. In the
//! live system the trigger loop is one cooperatively scheduled task that
//! repeats forever, sleeping between iterations for an interval read once
//! from the configuration source at loop start; here the publishing
//! decisions are verified over the queue model, and
//! [`TxTriggerController::run_tx_trigger`] states what any finite stretch
//! of that loop does to the ingress queue.

use rand::Rng;
use vstd::prelude::*;

use crate::message::{Address, Transaction};
use crate::queue::{send_model, Queue};

verus! {

/// Relies on rand::Rng::gen_range over the half-open range 0..100: the
/// sample is drawn uniformly from the range and so lies below 100; the
/// range is not empty, so the call does not panic.
#[verifier::external_body]
fn draw_amount() -> (r: u64)
    ensures
        r < 100,
{
    rand::thread_rng().gen_range(0u64..100)
}

/// A simulated participant that generates synthetic transaction load.
/// The balance is carried but never read by the core. The creator hands
/// each client its own address and the ingress queue to publish to.
pub struct Client {
    pub addr: Address,
    pub amount: u64,
}

impl Client {
    /// A client with the given address and a zero starting balance.
    pub fn new(addr: Address) -> (c: Client)
        ensures
            c.addr == addr,
            c.amount == 0,
    {
        Client { addr, amount: 0 }
    }

    /// Draw a random amount below 100 and build a transaction originating
    /// at this client.
    pub fn generate_transaction(&self) -> (t: Transaction)
        ensures
            t.origin == self.addr,
            t.amount < 100,
    {
        let amount = draw_amount();
        Transaction::new(self.addr, amount)
    }
}

/// The generate-and-submit capability of a transaction source.
pub trait TxTrigger {
    /// The address the source's transactions originate from.
    spec fn trigger_origin(&self) -> Address;

    /// Generate one transaction and publish it to the given ingress
    /// queue. A failed publish — the ingress permanently closed — is
    /// swallowed by design: lost synthetic load is simulation noise, so
    /// the result is `Ok` either way and a closed queue is left
    /// untouched.
    fn rand_tx_trigger(&self, net_tx_sender: &mut Queue<Transaction>) -> (r: Result<(), String>)
        ensures
            r is Ok,
            final(net_tx_sender)@.open == old(net_tx_sender)@.open,
            !old(net_tx_sender)@.open ==> final(net_tx_sender)@ == old(net_tx_sender)@,
            old(net_tx_sender)@.open ==> {
                &&& final(net_tx_sender)@.items.len() == old(net_tx_sender)@.items.len() + 1
                &&& final(net_tx_sender)@.items.drop_last() == old(net_tx_sender)@.items
                &&& final(net_tx_sender)@.items.last().origin == self.trigger_origin()
                &&& final(net_tx_sender)@.items.last().amount < 100
            },
    ;
}

impl TxTrigger for Client {
    open spec fn trigger_origin(&self) -> Address {
        self.addr
    }

    fn rand_tx_trigger(&self, net_tx_sender: &mut Queue<Transaction>) -> (r: Result<(), String>) {
        let tx = self.generate_transaction();
        let _ = net_tx_sender.send(tx);
        proof {
            if old(net_tx_sender)@.open {
                assert(old(net_tx_sender)@.items.push(tx).drop_last() =~= old(
                    net_tx_sender,
                )@.items);
            }
        }
        Ok(())
    }
}

/// The periodic driver that composes a transaction source with a
/// configured interval.
pub trait TxTriggerController: TxTrigger {
    /// A finite stretch of the trigger loop: `iterations` rounds of
    /// generate-and-submit against the given ingress queue. The live loop
    /// is unbounded and suspends for `tx_gen_slot` milliseconds between
    /// rounds; the interval is read once, before the first round, and a
    /// missing interval is fatal — the loop reports the startup failure
    /// without having published anything. The guarantees do not depend on
    /// the interval's value: a zero-duration interval still completes
    /// every round and still enqueues every generated transaction while
    /// the ingress is open.
    fn run_tx_trigger(
        &self,
        tx_gen_slot: Option<u64>,
        iterations: usize,
        net_tx_sender: &mut Queue<Transaction>,
    ) -> (r: Result<(), String>)
        ensures
            r is Ok <==> tx_gen_slot is Some,
            final(net_tx_sender)@.open == old(net_tx_sender)@.open,
            tx_gen_slot is None ==> final(net_tx_sender)@ == old(net_tx_sender)@,
            !old(net_tx_sender)@.open ==> final(net_tx_sender)@ == old(net_tx_sender)@,
            tx_gen_slot is Some && old(net_tx_sender)@.open ==> {
                &&& final(net_tx_sender)@.items.len() == old(net_tx_sender)@.items.len()
                    + iterations
                &&& final(net_tx_sender)@.items.take(old(net_tx_sender)@.items.len() as int)
                    == old(net_tx_sender)@.items
                &&& forall|j: int|
                    old(net_tx_sender)@.items.len() <= j < final(net_tx_sender)@.items.len()
                        ==> final(net_tx_sender)@.items[j].origin == self.trigger_origin()
                        && final(net_tx_sender)@.items[j].amount < 100
            },
    {
        if tx_gen_slot.is_none() {
            return Err(String::from_str("no transaction-generation interval configured"));
        }
        let ghost items0 = net_tx_sender@.items;
        let ghost open0 = net_tx_sender@.open;
        let mut i: usize = 0;
        while i < iterations
            invariant
                i <= iterations,
                net_tx_sender@.open == open0,
                !open0 ==> net_tx_sender@.items == items0,
                open0 ==> net_tx_sender@.items.len() == items0.len() + i
                    && net_tx_sender@.items.take(items0.len() as int) == items0 && (forall|j: int|
                    items0.len() <= j < net_tx_sender@.items.len()
                        ==> net_tx_sender@.items[j].origin == self.trigger_origin()
                        && net_tx_sender@.items[j].amount < 100),
            decreases iterations - i,
        {
            let ghost before = net_tx_sender@.items;
            let _ = self.rand_tx_trigger(net_tx_sender);
            proof {
                if open0 {
                    let cur = net_tx_sender@.items;
                    assert(cur.drop_last() == before);
                    assert(forall|j: int| 0 <= j < before.len() ==> cur[j] == cur.drop_last()[j]);
                    assert(cur.take(items0.len() as int) =~= items0);
                }
            }
            i = i + 1;
        }
        Ok(())
    }
}

impl TxTriggerController for Client {
}

} // verus!
