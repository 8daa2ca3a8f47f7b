//! Constructed values and their mathematical model.
//!
//! [`construct`](crate::parse::construct) returns a [`Node`]: a kind-tagged
//! scalar, or the ordered list of sub-values of a tuple, struct or sequence.
//! The backend never needs to know the caller's concrete target type; the
//! caller pattern-matches the returned node into whatever it is building.
//!
//! Contracts speak of the node's view, a [`SpecNode`], where lists are
//! mathematical sequences.

use vstd::prelude::*;

use crate::data::Value;

verus! {

/// A constructed value: one scalar, or an ordered run of sub-values.
#[derive(Debug, PartialEq)]
pub enum Node {
    /// A 32-bit scalar field.
    I32(i32),
    /// A 64-bit scalar field.
    I64(i64),
    /// The sub-values of a tuple, struct or sequence, in consumption order.
    List(Vec<Node>),
}

/// The mathematical model of a [`Node`].
pub enum SpecNode {
    I32(i32),
    I64(i64),
    List(Seq<SpecNode>),
}

/// The model of a node: scalars stand for themselves, a list becomes the
/// sequence of its elements' models.
pub open spec fn node_view(n: Node) -> SpecNode
    decreases n, 0int, 0int,
{
    match n {
        Node::I32(v) => SpecNode::I32(v),
        Node::I64(v) => SpecNode::I64(v),
        Node::List(items) => SpecNode::List(nodes_view(items@, 0)),
    }
}

/// The models of the nodes of `items`, from position `k` on, in order.
pub open spec fn nodes_view(items: Seq<Node>, k: int) -> Seq<SpecNode>
    decreases items, items.len() - k, 1int,
{
    if k < 0 || k >= items.len() {
        Seq::empty()
    } else {
        seq![node_view(items[k])] + nodes_view(items, k + 1)
    }
}

impl View for Node {
    type V = SpecNode;

    open spec fn view(&self) -> SpecNode {
        node_view(*self)
    }
}

/// [`nodes_view`] maps position `k + j` of `items` to position `j` of the
/// result, for every `j`.
pub proof fn lemma_nodes_view(items: Seq<Node>, k: int)
    requires
        0 <= k <= items.len(),
    ensures
        nodes_view(items, k).len() == items.len() - k,
        forall|j: int|
            0 <= j < items.len() - k ==> #[trigger] nodes_view(items, k)[j] == node_view(
                items[k + j],
            ),
    decreases items.len() - k,
{
    if k < items.len() {
        lemma_nodes_view(items, k + 1);
    }
}

/// The flat scalar sequence a constructed value stands for: its scalars in
/// consumption order.
pub open spec fn flatten(m: SpecNode) -> Seq<Value>
    decreases m, 0int, 0int,
{
    match m {
        SpecNode::I32(v) => seq![Value::I32(v)],
        SpecNode::I64(v) => seq![Value::I64(v)],
        SpecNode::List(items) => flatten_all(items, 0),
    }
}

/// The concatenated flat scalar sequences of `items`, from position `k` on.
pub open spec fn flatten_all(items: Seq<SpecNode>, k: int) -> Seq<Value>
    decreases items, items.len() - k, 1int,
{
    if k < 0 || k >= items.len() {
        Seq::empty()
    } else {
        flatten(items[k]) + flatten_all(items, k + 1)
    }
}

/// Shifting past a prepended element: position `k + 1` of `seq![m] + items`
/// flattens onward exactly as position `k` of `items` does.
proof fn lemma_flatten_all_shift(m: SpecNode, items: Seq<SpecNode>, k: int)
    requires
        0 <= k <= items.len(),
    ensures
        flatten_all(seq![m] + items, k + 1) == flatten_all(items, k),
    decreases items.len() - k,
{
    if k < items.len() {
        lemma_flatten_all_shift(m, items, k + 1);
        assert((seq![m] + items)[k + 1] == items[k]);
    }
}

/// The flat scalars of `seq![m] + items` are the flat scalars of `m` followed
/// by those of `items`.
pub proof fn lemma_flatten_all_cons(m: SpecNode, items: Seq<SpecNode>)
    ensures
        flatten_all(seq![m] + items, 0) == flatten(m) + flatten_all(items, 0),
{
    lemma_flatten_all_shift(m, items, 0);
    assert((seq![m] + items)[0] == m);
}

} // verus!
