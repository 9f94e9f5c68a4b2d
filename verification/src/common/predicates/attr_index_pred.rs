use std::sync::Arc;

use vstd::prelude::*;

use crate::common::{
    nodes::{share_node, ArcPredicateNode, PredicateNode, PredicateType, ReprPredicateNode},
    values::Value,
};

verus! {

/// [`AttrIndexPred`] represents the position of an attribute in a schema or in the
/// attribute references of a group.
///
/// The `data` field holds the index of the attribute.
#[derive(Debug)]
pub struct AttrIndexPred(pub ArcPredicateNode);

impl Clone for AttrIndexPred {
    fn clone(&self) -> (res: Self)
        ensures
            res == *self,
    {
        AttrIndexPred(share_node(&self.0))
    }
}

impl AttrIndexPred {
    pub fn new(attr_idx: u64) -> (res: AttrIndexPred)
        ensures
            res.0.typ == PredicateType::AttrIndex,
            res.0.children@.len() == 0,
            res.0.data == Some(Value::UInt64(attr_idx)),
    {
        AttrIndexPred(Arc::new(PredicateNode { typ: PredicateType::AttrIndex, children: vec![], data: Some(Value::UInt64(attr_idx)) }))
    }

    /// Gets the attribute index.
    pub fn attr_index(&self) -> (res: u64)
        requires
            self.0.data matches Some(v) && v is UInt64,
        ensures
            self.0.data == Some(Value::UInt64(res)),
    {
        match &self.0.data {
            Some(v) => v.as_u64(),
            None => 0,
        }
    }
}

impl ReprPredicateNode for AttrIndexPred {
    fn into_pred_node(self) -> (res: ArcPredicateNode)
        ensures
            res == self.0,
    {
        self.0
    }

    fn from_pred_node(pred_node: ArcPredicateNode) -> (res: Option<Self>)
        ensures
            res == if pred_node.typ is AttrIndex {
                Some(AttrIndexPred(pred_node))
            } else {
                None
            },
    {
        if !matches!(pred_node.typ, PredicateType::AttrIndex) {
            return None;
        }
        Some(Self(pred_node))
    }
}

} // verus!
