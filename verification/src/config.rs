//! The configuration of a bus and of the nodes on it.

use vstd::prelude::*;

verus! {

/// The smallest id that a node can have.
pub const MIN_NODE_ID: u8 = 1;

/// The greatest id that a node can have.
pub const MAX_NODE_ID: u8 = 127;

/// Configuration of the CANopen bus and of its nodes.
#[derive(Debug)]
pub struct Config {
    /// Configuration of the CANopen bus.
    pub bus: BusConfig,
    /// Configuration of the nodes.
    pub node: Vec<Node>,
}

/// Configuration of the CANopen bus.
#[derive(Debug)]
pub struct BusConfig {
    /// The CAN interface to use.
    pub interface: String,
    /// The baudrate of the bus.
    pub baud_rate: usize,
}

/// Configuration of one node.
#[derive(Debug)]
pub struct Node {
    /// Node id
    pub node_id: u8,
    /// The path of the node's data sheet.
    pub eds_file: String,
}

/// Why a configuration is not used.
#[derive(Debug, Clone, Copy, PartialEq, Eq, Structural)]
pub enum ConfigError {
    /// The node at this position has an id outside 1 to 127.
    NodeIdOutOfRange(usize),
}

/// Whether `node_id` can be the id of a node.
pub open spec fn valid_node_id(node_id: u8) -> bool {
    MIN_NODE_ID <= node_id <= MAX_NODE_ID
}

impl Node {
    /// Whether this node has an id from 1 to 127.
    pub fn has_valid_id(&self) -> (valid: bool)
        ensures
            valid == valid_node_id(self.node_id),
    {
        MIN_NODE_ID <= self.node_id && self.node_id <= MAX_NODE_ID
    }
}

impl Config {
    /// Whether the node at position `i` is the first whose id is out of range.
    pub open spec fn is_first_invalid(&self, i: int) -> bool {
        &&& 0 <= i < self.node@.len()
        &&& !valid_node_id(self.node@[i].node_id)
        &&& forall|j: int| 0 <= j < i ==> valid_node_id(#[trigger] self.node@[j].node_id)
    }

    /// Checks that every node has an id from 1 to 127, and names the first that
    /// has not.
    pub fn validate(&self) -> (result: Result<(), ConfigError>)
        ensures
            match result {
                Ok(_) => forall|i: int|
                    0 <= i < self.node@.len() ==> valid_node_id(#[trigger] self.node@[i].node_id),
                Err(ConfigError::NodeIdOutOfRange(at)) => self.is_first_invalid(at as int),
            },
    {
        let mut i: usize = 0;
        while i < self.node.len()
            invariant
                i <= self.node@.len(),
                forall|j: int| 0 <= j < i ==> valid_node_id(#[trigger] self.node@[j].node_id),
            decreases self.node@.len() - i,
        {
            if !self.node[i].has_valid_id() {
                return Err(ConfigError::NodeIdOutOfRange(i));
            }
            i = i + 1;
        }
        Ok(())
    }
}

} // verus!
