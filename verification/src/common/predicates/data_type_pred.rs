use std::sync::Arc;

use arrow_schema::DataType;
use vstd::prelude::*;

use crate::common::nodes::{
    share_node, ArcPredicateNode, PredicateNode, PredicateType, ReprPredicateNode,
};

verus! {

/// A column data type, e.g. the target of a cast.
#[derive(Debug)]
pub struct DataTypePred(pub ArcPredicateNode);

impl Clone for DataTypePred {
    fn clone(&self) -> (res: Self)
        ensures
            res == *self,
    {
        DataTypePred(share_node(&self.0))
    }
}

impl DataTypePred {
    pub fn new(typ: DataType) -> (res: Self)
        ensures
            res.0.typ == PredicateType::DataType(typ),
            res.0.children@.len() == 0,
            res.0.data is None,
    {
        DataTypePred(Arc::new(PredicateNode { typ: PredicateType::DataType(typ), children: vec![], data: None }))
    }

    pub fn data_type(&self) -> (res: DataType)
        requires
            self.0.typ is DataType,
        ensures
            self.0.typ == PredicateType::DataType(res),
    {
        match &self.0.typ {
            PredicateType::DataType(data_type) => data_type.clone(),
            _ => vstd::pervasive::unreached(),
        }
    }
}

impl ReprPredicateNode for DataTypePred {
    fn into_pred_node(self) -> (res: ArcPredicateNode)
        ensures
            res == self.0,
    {
        self.0
    }

    fn from_pred_node(pred_node: ArcPredicateNode) -> (res: Option<Self>)
        ensures
            res == if pred_node.typ is DataType {
                Some(DataTypePred(pred_node))
            } else {
                None
            },
    {
        if !matches!(pred_node.typ, PredicateType::DataType(_)) {
            return None;
        }
        Some(Self(pred_node))
    }
}

} // verus!
