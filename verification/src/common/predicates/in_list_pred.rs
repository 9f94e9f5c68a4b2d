use std::sync::Arc;

use vstd::prelude::*;

use crate::common::{
    nodes::{share_node, ArcPredicateNode, PredicateNode, PredicateType, ReprPredicateNode},
    values::Value,
};

use super::list_pred::ListPred;

verus! {

/// `child IN list`, or `child NOT IN list` where negated.
#[derive(Debug)]
pub struct InListPred(pub ArcPredicateNode);

impl Clone for InListPred {
    fn clone(&self) -> (res: Self)
        ensures
            res == *self,
    {
        InListPred(share_node(&self.0))
    }
}

impl InListPred {
    pub fn new(child: ArcPredicateNode, list: ListPred, negated: bool) -> (res: Self)
        ensures
            res.0.typ == PredicateType::InList,
            res.0.children@ == seq![child, list.0],
            res.0.data == Some(Value::Bool(negated)),
    {
        InListPred(Arc::new(PredicateNode { typ: PredicateType::InList, children: vec![child, list.into_pred_node()], data: Some(Value::Bool(negated)) }))
    }

    pub fn child(&self) -> (res: ArcPredicateNode)
        requires
            self.0.children.len() >= 1,
        ensures
            res == self.0.children@[0],
    {
        self.0.child(0)
    }

    pub fn list(&self) -> (res: ListPred)
        requires
            self.0.children.len() >= 2,
            self.0.children@[1].typ is List,
        ensures
            res.0 == self.0.children@[1],
    {
        ListPred::from_pred_node(self.0.child(1)).unwrap()
    }

    /// `true` for `NOT IN`.
    pub fn negated(&self) -> (res: bool)
        requires
            self.0.data matches Some(v) && v is Bool,
        ensures
            self.0.data == Some(Value::Bool(res)),
    {
        match &self.0.data {
            Some(v) => v.as_bool(),
            None => false,
        }
    }
}

impl ReprPredicateNode for InListPred {
    fn into_pred_node(self) -> (res: ArcPredicateNode)
        ensures
            res == self.0,
    {
        self.0
    }

    fn from_pred_node(pred_node: ArcPredicateNode) -> (res: Option<Self>)
        ensures
            res == if pred_node.typ is InList {
                Some(InListPred(pred_node))
            } else {
                None
            },
    {
        if !matches!(pred_node.typ, PredicateType::InList) {
            return None;
        }
        Some(Self(pred_node))
    }
}

} // verus!
