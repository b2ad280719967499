//! The message value types moved through the simulated network's queues.
//!
//! The surrounding simulation treats every payload as an opaque copyable
//! value: the fan-out engine never inspects a message, it only moves it.
//! Each type here carries the plain data the core reads — an identity value
//! for an address, an (origin, amount) pair for a transaction, and an
//! identity tag for the payloads the core forwards without interpretation.

use vstd::prelude::*;

verus! {

/// Identifier of a simulated participant. Equality is by identity value;
/// the creator of the simulation is responsible for handing each
/// participant a distinct value.
#[derive(Clone, Copy, PartialEq, Eq, Structural, Debug)]
pub struct Address {
    pub id: u64,
}

impl Address {
    pub fn new(id: u64) -> (a: Address)
        ensures
            a.id == id,
    {
        Address { id }
    }
}

/// A synthetic transaction: who published it and for how much.
#[derive(Clone, Copy, PartialEq, Eq, Structural, Debug)]
pub struct Transaction {
    pub origin: Address,
    pub amount: u64,
}

impl Transaction {
    pub fn new(origin: Address, amount: u64) -> (t: Transaction)
        ensures
            t.origin == origin,
            t.amount == amount,
    {
        Transaction { origin, amount }
    }
}

/// A mined block. Opaque to the fan-out core, which only copies it from the
/// ingress queue to every registered node; the tag stands for its content.
#[derive(Clone, Copy, PartialEq, Eq, Structural, Debug)]
pub struct Block {
    pub id: u64,
}

impl Block {
    pub fn new(id: u64) -> (b: Block)
        ensures
            b.id == id,
    {
        Block { id }
    }
}

/// A block-verification request, forwarded without interpretation.
#[derive(Clone, Copy, PartialEq, Eq, Structural, Debug)]
pub struct BlockVerifyTx {
    pub id: u64,
}

impl BlockVerifyTx {
    pub fn new(id: u64) -> (r: BlockVerifyTx)
        ensures
            r.id == id,
    {
        BlockVerifyTx { id }
    }
}

/// A request for a block a node found missing, forwarded without
/// interpretation.
#[derive(Clone, Copy, PartialEq, Eq, Structural, Debug)]
pub struct GetNonExistingBlockTx {
    pub id: u64,
}

impl GetNonExistingBlockTx {
    pub fn new(r_id: u64) -> (r: GetNonExistingBlockTx)
        ensures
            r.id == r_id,
    {
        GetNonExistingBlockTx { id: r_id }
    }
}

} // verus!
