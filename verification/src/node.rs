//! The node as the remote API reports it, the node as the table keeps it,
//! and the normalisation that leads from one to the other.

use vstd::prelude::*;
use crate::amount::{coin_text, sats_to_coin_text};
use crate::timestamp::{
    rfc3339_utc, timestamp_representable, utc_rfc3339, MAX_TIMESTAMP, MIN_TIMESTAMP,
};

verus! {

/// A node as fetched: capacity in satoshis, first observation in Unix
/// seconds.
#[derive(Debug)]
pub struct Node {
    public_key: String,
    alias: String,
    capacity: i64,
    first_seen: i64,
}

/// What a `Node` holds.
pub struct NodeView {
    pub public_key: Seq<char>,
    pub alias: Seq<char>,
    pub capacity: int,
    pub first_seen: int,
}

/// A node as stored and exported: every field is text, capacity and first
/// observation in their display forms.
#[derive(Debug)]
pub struct NodeExport {
    public_key: String,
    alias: String,
    capacity: String,
    first_seen: String,
}

/// What a `NodeExport` holds.
pub struct NodeExportView {
    pub public_key: Seq<char>,
    pub alias: Seq<char>,
    pub capacity: Seq<char>,
    pub first_seen: Seq<char>,
}

/// The stored form of a fetched node: identity and alias as they are, the
/// capacity as a decimal amount of coins, the first observation as RFC 3339
/// text.
pub open spec fn normalized(node: NodeView) -> NodeExportView {
    NodeExportView {
        public_key: node.public_key,
        alias: node.alias,
        capacity: coin_text(node.capacity),
        first_seen: rfc3339_utc(node.first_seen),
    }
}

/// What a sequence of fetched nodes holds.
pub open spec fn node_views(nodes: Seq<Node>) -> Seq<NodeView> {
    nodes.map_values(|n: Node| n@)
}

/// What a sequence of stored rows holds.
pub open spec fn row_views(rows: Seq<NodeExport>) -> Seq<NodeExportView> {
    rows.map_values(|r: NodeExport| r@)
}

impl View for Node {
    type V = NodeView;

    closed spec fn view(&self) -> NodeView {
        NodeView {
            public_key: self.public_key@,
            alias: self.alias@,
            capacity: self.capacity as int,
            first_seen: self.first_seen as int,
        }
    }
}

impl View for NodeExport {
    type V = NodeExportView;

    closed spec fn view(&self) -> NodeExportView {
        NodeExportView {
            public_key: self.public_key@,
            alias: self.alias@,
            capacity: self.capacity@,
            first_seen: self.first_seen@,
        }
    }
}

impl Node {
    /// A node with the given fields.
    pub fn new(public_key: String, alias: String, capacity: i64, first_seen: i64) -> (node: Node)
        ensures
            node@ == (NodeView {
                public_key: public_key@,
                alias: alias@,
                capacity: capacity as int,
                first_seen: first_seen as int,
            }),
    {
        Node { public_key, alias, capacity, first_seen }
    }

    /// The node's unique identifier.
    pub fn public_key(&self) -> (key: &str)
        ensures
            key@ == self@.public_key,
    {
        self.public_key.as_str()
    }

    /// The node's label.
    pub fn alias(&self) -> (alias: &str)
        ensures
            alias@ == self@.alias,
    {
        self.alias.as_str()
    }

    /// The capacity in satoshis, as fetched.
    pub fn capacity_sats(&self) -> (sats: i64)
        ensures
            sats == self@.capacity,
    {
        self.capacity
    }

    /// The first observation in Unix seconds, as fetched.
    pub fn first_seen_secs(&self) -> (secs: i64)
        ensures
            secs == self@.first_seen,
    {
        self.first_seen
    }

    /// The capacity as a decimal amount of coins.
    pub fn capacity(&self) -> (text: String)
        ensures
            text@ == coin_text(self@.capacity),
    {
        sats_to_coin_text(self.capacity)
    }

    /// Whether the first observation lies on a representable date.
    pub fn has_representable_first_seen(&self) -> (yes: bool)
        ensures
            yes == timestamp_representable(self@.first_seen),
    {
        MIN_TIMESTAMP <= self.first_seen && self.first_seen <= MAX_TIMESTAMP
    }

    /// The first observation as RFC 3339 text in UTC, such as
    /// `2020-09-30T01:39:00Z`.
    pub fn first_seen(&self) -> (text: String)
        requires
            timestamp_representable(self@.first_seen),
        ensures
            text@ == rfc3339_utc(self@.first_seen),
    {
        match utc_rfc3339(self.first_seen) {
            Some(text) => text,
            None => String::new(),
        }
    }

    /// The stored form of this node, or `None` where its first observation
    /// has no representable date.
    pub fn normalize(&self) -> (row: Option<NodeExport>)
        ensures
            row is Some <==> timestamp_representable(self@.first_seen),
            row matches Some(r) ==> r@ == normalized(self@),
    {
        match utc_rfc3339(self.first_seen) {
            Some(first_seen) => Some(
                NodeExport {
                    public_key: self.public_key.clone(),
                    alias: self.alias.clone(),
                    capacity: self.capacity(),
                    first_seen,
                },
            ),
            None => None,
        }
    }
}

impl NodeExport {
    /// A stored node with the given column values.
    pub fn new(public_key: String, alias: String, capacity: String, first_seen: String) -> (row:
        NodeExport)
        ensures
            row@ == (NodeExportView {
                public_key: public_key@,
                alias: alias@,
                capacity: capacity@,
                first_seen: first_seen@,
            }),
    {
        NodeExport { public_key, alias, capacity, first_seen }
    }

    /// The node's unique identifier.
    pub fn public_key(&self) -> (key: &str)
        ensures
            key@ == self@.public_key,
    {
        self.public_key.as_str()
    }

    /// The node's label.
    pub fn alias(&self) -> (alias: &str)
        ensures
            alias@ == self@.alias,
    {
        self.alias.as_str()
    }

    /// The capacity in coins, as decimal text.
    pub fn capacity(&self) -> (text: &str)
        ensures
            text@ == self@.capacity,
    {
        self.capacity.as_str()
    }

    /// The first observation, as RFC 3339 text.
    pub fn first_seen(&self) -> (text: &str)
        ensures
            text@ == self@.first_seen,
    {
        self.first_seen.as_str()
    }

    /// Whether this row and `other` are rows of the same node.
    pub fn same_key(&self, other: &NodeExport) -> (same: bool)
        ensures
            same == (self@.public_key == other@.public_key),
    {
        self.public_key == other.public_key
    }

    /// A copy of this row.
    pub fn duplicate(&self) -> (copy: NodeExport)
        ensures
            copy@ == self@,
    {
        NodeExport {
            public_key: self.public_key.clone(),
            alias: self.alias.clone(),
            capacity: self.capacity.clone(),
            first_seen: self.first_seen.clone(),
        }
    }
}

} // verus!
