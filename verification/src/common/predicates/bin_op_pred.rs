use std::sync::Arc;

use vstd::prelude::*;
use vstd::string::StringExecFns;

use crate::common::nodes::{share_node, ArcPredicateNode, PredicateNode, PredicateType, ReprPredicateNode};

verus! {

/// The binary operators.
#[derive(Copy, Clone, PartialEq, Eq, Structural, Hash, Debug)]
pub enum BinOpType {
    // numerical
    Add,
    Sub,
    Mul,
    Div,
    Mod,
    // comparison
    Eq,
    Neq,
    Gt,
    Lt,
    Geq,
    Leq,
}

/// The operator computes a number.
pub open spec fn numerical(op: BinOpType) -> bool {
    op == BinOpType::Add || op == BinOpType::Sub || op == BinOpType::Mul || op == BinOpType::Div
        || op == BinOpType::Mod
}

/// The operator compares its operands.
pub open spec fn comparison(op: BinOpType) -> bool {
    op == BinOpType::Eq || op == BinOpType::Neq || op == BinOpType::Gt || op == BinOpType::Lt
        || op == BinOpType::Geq || op == BinOpType::Leq
}

/// Every binary operator is either numerical or a comparison, and never both.
pub proof fn lemma_numerical_or_comparison(op: BinOpType)
    ensures
        numerical(op) != comparison(op),
{
}

impl BinOpType {
    pub fn is_numerical(&self) -> (res: bool)
        ensures
            res == numerical(*self),
    {
        matches!(self, Self::Add | Self::Sub | Self::Mul | Self::Div | Self::Mod)
    }

    pub fn is_comparison(&self) -> (res: bool)
        ensures
            res == comparison(*self),
    {
        matches!(self, Self::Eq | Self::Neq | Self::Gt | Self::Lt | Self::Geq | Self::Leq)
    }
}

/// A binary operation: the left operand, then the right one.
#[derive(Debug)]
pub struct BinOpPred(pub ArcPredicateNode);

impl Clone for BinOpPred {
    fn clone(&self) -> (res: Self)
        ensures
            res == *self,
    {
        BinOpPred(share_node(&self.0))
    }
}

impl BinOpPred {
    pub fn new(left: ArcPredicateNode, right: ArcPredicateNode, op_type: BinOpType) -> (res: Self)
        ensures
            res.0.typ == PredicateType::BinOp(op_type),
            res.0.children@ == seq![left, right],
            res.0.data is None,
    {
        BinOpPred(Arc::new(PredicateNode { typ: PredicateType::BinOp(op_type), children: vec![left, right], data: None }))
    }

    pub fn left_child(&self) -> (res: ArcPredicateNode)
        requires
            self.0.children.len() >= 1,
        ensures
            res == self.0.children@[0],
    {
        self.0.child(0)
    }

    pub fn right_child(&self) -> (res: ArcPredicateNode)
        requires
            self.0.children.len() >= 2,
        ensures
            res == self.0.children@[1],
    {
        self.0.child(1)
    }

    pub fn op_type(&self) -> (res: BinOpType)
        requires
            self.0.typ is BinOp,
        ensures
            self.0.typ == PredicateType::BinOp(res),
    {
        match self.0.typ {
            PredicateType::BinOp(op_type) => op_type,
            _ => BinOpType::Add,
        }
    }
}

impl ReprPredicateNode for BinOpPred {
    fn into_pred_node(self) -> (res: ArcPredicateNode)
        ensures
            res == self.0,
    {
        self.0
    }

    fn from_pred_node(pred_node: ArcPredicateNode) -> (res: Option<Self>)
        ensures
            res == if pred_node.typ is BinOp {
                Some(BinOpPred(pred_node))
            } else {
                None
            },
    {
        if !matches!(pred_node.typ, PredicateType::BinOp(_)) {
            return None;
        }
        Some(Self(pred_node))
    }
}

/// The name of the variant, as `{:?}` writes it.
pub open spec fn bin_op_name(v: BinOpType) -> Seq<char> {
    match v {
        BinOpType::Add => "Add"@,
        BinOpType::Sub => "Sub"@,
        BinOpType::Mul => "Mul"@,
        BinOpType::Div => "Div"@,
        BinOpType::Mod => "Mod"@,
        BinOpType::Eq => "Eq"@,
        BinOpType::Neq => "Neq"@,
        BinOpType::Gt => "Gt"@,
        BinOpType::Lt => "Lt"@,
        BinOpType::Geq => "Geq"@,
        BinOpType::Leq => "Leq"@,
    }
}

impl BinOpType {
    /// The name of the variant.
    pub fn to_string(&self) -> (res: String)
        ensures
            res@ == bin_op_name(*self),
    {
        String::from_str(
            match self {
                BinOpType::Add => "Add",
                BinOpType::Sub => "Sub",
                BinOpType::Mul => "Mul",
                BinOpType::Div => "Div",
                BinOpType::Mod => "Mod",
                BinOpType::Eq => "Eq",
                BinOpType::Neq => "Neq",
                BinOpType::Gt => "Gt",
                BinOpType::Lt => "Lt",
                BinOpType::Geq => "Geq",
                BinOpType::Leq => "Leq",
            },
        )
    }
}

} // verus!
