use std::sync::Arc;

use vstd::prelude::*;

use crate::common::{
    nodes::{share_node, ArcPredicateNode, PredicateNode, PredicateType, ReprPredicateNode},
    values::Value,
};

verus! {

/// [`IdPred`] holds an id or an index, e.g. table id.
///
/// The data is of uint64 type, because an id or an index can always be
/// represented by uint64.
#[derive(Debug)]
pub struct IdPred(pub ArcPredicateNode);

impl Clone for IdPred {
    fn clone(&self) -> (res: Self)
        ensures
            res == *self,
    {
        IdPred(share_node(&self.0))
    }
}

impl IdPred {
    pub fn new(id: u64) -> (res: IdPred)
        ensures
            res.0.typ == PredicateType::Id,
            res.0.children@.len() == 0,
            res.0.data == Some(Value::UInt64(id)),
    {
        IdPred(Arc::new(PredicateNode { typ: PredicateType::Id, children: vec![], data: Some(Value::UInt64(id)) }))
    }

    /// Gets the id stored in the predicate.
    pub fn id(&self) -> (res: u64)
        requires
            self.0.data matches Some(v) && v is UInt64,
        ensures
            self.0.data == Some(Value::UInt64(res)),
    {
        self.0.unwrap_data().as_u64()
    }
}

impl ReprPredicateNode for IdPred {
    fn into_pred_node(self) -> (res: ArcPredicateNode)
        ensures
            res == self.0,
    {
        self.0
    }

    fn from_pred_node(pred_node: ArcPredicateNode) -> (res: Option<Self>)
        ensures
            res == if pred_node.typ is Id {
                Some(IdPred(pred_node))
            } else {
                None
            },
    {
        if let PredicateType::Id = pred_node.typ {
            Some(Self(pred_node))
        } else {
            None
        }
    }
}

} // verus!
