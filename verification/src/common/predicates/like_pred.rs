use std::sync::Arc;

use vstd::prelude::*;

use crate::common::{
    nodes::{share_node, ArcPredicateNode, PredicateNode, PredicateType, ReprPredicateNode},
    values::{Value, ValueModel},
};

verus! {

/// `child LIKE pattern`; its data holds two flags, one byte each: negated (`NOT LIKE`)
/// and case-insensitive.
#[derive(Debug)]
pub struct LikePred(pub ArcPredicateNode);

impl Clone for LikePred {
    fn clone(&self) -> (res: Self)
        ensures
            res == *self,
    {
        LikePred(share_node(&self.0))
    }
}

/// The byte that stands for a flag.
pub open spec fn flag_byte(flag: bool) -> u8 {
    if flag {
        1
    } else {
        0
    }
}

/// The node holds serialized data of at least `n` bytes.
pub open spec fn holds_bytes(node: PredicateNode, n: int) -> bool {
    node.data matches Some(v) && v@ matches ValueModel::Serialized(bytes) && bytes.len() >= n
}

/// Byte `i` of the serialized data the node holds.
pub open spec fn data_byte(node: PredicateNode, i: int) -> u8 {
    match node.data.unwrap()@ {
        ValueModel::Serialized(bytes) => bytes[i],
        _ => 0,
    }
}

impl LikePred {
    pub fn new(
        negated: bool,
        case_insensitive: bool,
        child: ArcPredicateNode,
        pattern: ArcPredicateNode,
    ) -> (res: Self)
        ensures
            res.0.typ == PredicateType::Like,
            res.0.children@ == seq![child, pattern],
            res.0.data matches Some(v) && v@ == ValueModel::Serialized(
                seq![flag_byte(negated), flag_byte(case_insensitive)],
            ),
    {
        // TODO: support multiple values in data.
        let negated: u8 = if negated {
            1
        } else {
            0
        };
        let case_insensitive: u8 = if case_insensitive {
            1
        } else {
            0
        };
        let flags = vec![negated, case_insensitive];
        assert(flags@ =~= seq![negated, case_insensitive]);
        LikePred(Arc::new(PredicateNode { typ: PredicateType::Like, children: vec![child.into_pred_node(), pattern.into_pred_node()], data: Some(Value::Serialized(flags)) }))
    }

    pub fn child(&self) -> (res: ArcPredicateNode)
        requires
            self.0.children.len() >= 1,
        ensures
            res == self.0.children@[0],
    {
        self.0.child(0)
    }

    pub fn pattern(&self) -> (res: ArcPredicateNode)
        requires
            self.0.children.len() >= 2,
        ensures
            res == self.0.children@[1],
    {
        self.0.child(1)
    }

    /// `true` for `NOT LIKE`.
    pub fn negated(&self) -> (res: bool)
        requires
            holds_bytes(*self.0, 1),
        ensures
            res == (data_byte(*self.0, 0) != 0),
    {
        match &self.0.data {
            Some(Value::Serialized(data)) => data[0] != 0,
            _ => false,
        }
    }

    pub fn case_insensitive(&self) -> (res: bool)
        requires
            holds_bytes(*self.0, 2),
        ensures
            res == (data_byte(*self.0, 1) != 0),
    {
        match &self.0.data {
            Some(Value::Serialized(data)) => data[1] != 0,
            _ => false,
        }
    }
}

impl ReprPredicateNode for LikePred {
    fn into_pred_node(self) -> (res: ArcPredicateNode)
        ensures
            res == self.0,
    {
        self.0
    }

    fn from_pred_node(pred_node: ArcPredicateNode) -> (res: Option<Self>)
        ensures
            res == if pred_node.typ is Like {
                Some(LikePred(pred_node))
            } else {
                None
            },
    {
        if !matches!(pred_node.typ, PredicateType::Like) {
            return None;
        }
        Some(Self(pred_node))
    }
}

} // verus!
