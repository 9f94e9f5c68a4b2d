use std::sync::Arc;

use vstd::prelude::*;
use vstd::string::StringExecFns;

use crate::common::nodes::{share_node, ArcPredicateNode, PredicateNode, PredicateType, ReprPredicateNode};

verus! {

/// The unary operators.
#[derive(Copy, Clone, PartialEq, Eq, Structural, Hash, Debug)]
pub enum UnOpType {
    Neg,
    Not,
}

/// A unary operation on its one child.
#[derive(Debug)]
pub struct UnOpPred(pub ArcPredicateNode);

impl Clone for UnOpPred {
    fn clone(&self) -> (res: Self)
        ensures
            res == *self,
    {
        UnOpPred(share_node(&self.0))
    }
}

impl UnOpPred {
    pub fn new(child: ArcPredicateNode, op_type: UnOpType) -> (res: Self)
        ensures
            res.0.typ == PredicateType::UnOp(op_type),
            res.0.children@ == seq![child],
            res.0.data is None,
    {
        UnOpPred(Arc::new(PredicateNode { typ: PredicateType::UnOp(op_type), children: vec![child], data: None }))
    }

    pub fn child(&self) -> (res: ArcPredicateNode)
        requires
            self.0.children.len() >= 1,
        ensures
            res == self.0.children@[0],
    {
        self.0.child(0)
    }

    pub fn op_type(&self) -> (res: UnOpType)
        requires
            self.0.typ is UnOp,
        ensures
            self.0.typ == PredicateType::UnOp(res),
    {
        match self.0.typ {
            PredicateType::UnOp(op_type) => op_type,
            _ => UnOpType::Neg,
        }
    }
}

impl ReprPredicateNode for UnOpPred {
    fn into_pred_node(self) -> (res: ArcPredicateNode)
        ensures
            res == self.0,
    {
        self.0
    }

    fn from_pred_node(pred_node: ArcPredicateNode) -> (res: Option<Self>)
        ensures
            res == if pred_node.typ is UnOp {
                Some(UnOpPred(pred_node))
            } else {
                None
            },
    {
        if !matches!(pred_node.typ, PredicateType::UnOp(_)) {
            return None;
        }
        Some(Self(pred_node))
    }
}

/// The name of the variant, as `{:?}` writes it.
pub open spec fn un_op_name(v: UnOpType) -> Seq<char> {
    match v {
        UnOpType::Neg => "Neg"@,
        UnOpType::Not => "Not"@,
    }
}

impl UnOpType {
    /// The name of the variant.
    pub fn to_string(&self) -> (res: String)
        ensures
            res@ == un_op_name(*self),
    {
        String::from_str(
            match self {
                UnOpType::Neg => "Neg",
                UnOpType::Not => "Not",
            },
        )
    }
}

} // verus!
