use std::sync::Arc;

use vstd::prelude::*;

use crate::common::nodes::{
    share_node, ArcPredicateNode, PredicateNode, PredicateType, ReprPredicateNode,
};

verus! {

/// A list of predicates, held as the children of the node.
#[derive(Debug)]
pub struct ListPred(pub ArcPredicateNode);

impl Clone for ListPred {
    fn clone(&self) -> (res: Self)
        ensures
            res == *self,
    {
        ListPred(share_node(&self.0))
    }
}

impl ListPred {
    pub fn new(preds: Vec<ArcPredicateNode>) -> (res: Self)
        ensures
            res.0.typ == PredicateType::List,
            res.0.children == preds,
            res.0.data is None,
    {
        ListPred(Arc::new(PredicateNode { typ: PredicateType::List, children: preds, data: None }))
    }

    /// Gets number of expressions in the list
    pub fn len(&self) -> (res: usize)
        ensures
            res == self.0.children.len(),
    {
        self.0.children.len()
    }

    pub fn is_empty(&self) -> (res: bool)
        ensures
            res == (self.0.children.len() == 0),
    {
        self.0.children.is_empty()
    }

    pub fn child(&self, idx: usize) -> (res: ArcPredicateNode)
        requires
            idx < self.0.children.len(),
        ensures
            res == self.0.children@[idx as int],
    {
        self.0.child(idx)
    }

    pub fn to_vec(&self) -> (res: Vec<ArcPredicateNode>)
        ensures
            res@ == self.0.children@,
    {
        let n = self.0.children.len();
        let mut res: Vec<ArcPredicateNode> = Vec::new();
        let mut i: usize = 0;
        while i < n
            invariant
                n == self.0.children.len(),
                i <= n,
                res@ == self.0.children@.take(i as int),
            decreases n - i,
        {
            res.push(share_node(&self.0.children[i]));
            assert(self.0.children@.take(i + 1) =~= self.0.children@.take(i as int).push(
                self.0.children@[i as int],
            ));
            i = i + 1;
        }
        assert(self.0.children@.take(n as int) =~= self.0.children@);
        res
    }
}

impl ReprPredicateNode for ListPred {
    fn into_pred_node(self) -> (res: ArcPredicateNode)
        ensures
            res == self.0,
    {
        self.0
    }

    fn from_pred_node(pred_node: ArcPredicateNode) -> (res: Option<Self>)
        ensures
            res == if pred_node.typ is List {
                Some(ListPred(pred_node))
            } else {
                None
            },
    {
        if !matches!(pred_node.typ, PredicateType::List) {
            return None;
        }
        Some(Self(pred_node))
    }
}

} // verus!
