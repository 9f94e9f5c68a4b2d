use std::sync::Arc;

use arrow_schema::DataType;
use vstd::prelude::*;

use crate::common::nodes::{share_node, ArcPredicateNode, PredicateNode, PredicateType, ReprPredicateNode};

use super::data_type_pred::DataTypePred;

verus! {

/// [`CastPred`] casts a column from one data type to another.
///
/// A [`CastPred`] has two children:
/// 1. The original data to cast
/// 2. The target data type to cast to
#[derive(Debug)]
pub struct CastPred(pub ArcPredicateNode);

impl Clone for CastPred {
    fn clone(&self) -> (res: Self)
        ensures
            res == *self,
    {
        CastPred(share_node(&self.0))
    }
}

impl CastPred {
    pub fn new(child: ArcPredicateNode, cast_to: DataType) -> (res: Self)
        ensures
            res.0.typ == PredicateType::Cast,
            res.0.children@.len() == 2,
            res.0.children@[0] == child,
            res.0.children@[1].typ == PredicateType::DataType(cast_to),
            res.0.data is None,
    {
        CastPred(Arc::new(PredicateNode { typ: PredicateType::Cast, children: vec![child, DataTypePred::new(cast_to).into_pred_node()], data: None }))
    }

    pub fn child(&self) -> (res: ArcPredicateNode)
        requires
            self.0.children.len() >= 1,
        ensures
            res == self.0.children@[0],
    {
        self.0.child(0)
    }

    pub fn cast_to(&self) -> (res: DataType)
        requires
            self.0.children.len() >= 2,
            self.0.children@[1].typ is DataType,
        ensures
            self.0.children@[1].typ == PredicateType::DataType(res),
    {
        DataTypePred::from_pred_node(self.0.child(1)).unwrap().data_type()
    }
}

impl ReprPredicateNode for CastPred {
    fn into_pred_node(self) -> (res: ArcPredicateNode)
        ensures
            res == self.0,
    {
        self.0
    }

    fn from_pred_node(pred_node: ArcPredicateNode) -> (res: Option<Self>)
        ensures
            res == if pred_node.typ is Cast {
                Some(CastPred(pred_node))
            } else {
                None
            },
    {
        if !matches!(pred_node.typ, PredicateType::Cast) {
            return None;
        }
        Some(Self(pred_node))
    }
}

} // verus!
