use std::sync::Arc;

use vstd::prelude::*;

use crate::common::{
    nodes::{share_node, ArcPredicateNode, PredicateNode, PredicateType, ReprPredicateNode},
    types::TableId,
    values::Value,
};

use super::id_pred::IdPred;

verus! {

/// [`AttributeRefPred`] represents a reference to a column in a relation.
///
/// An [`AttributeRefPred`] has two children:
/// 1. The table id, represented by an [`IdPred`].
/// 2. The index of the attribute, represented by an [`IdPred`].
///
/// Currently, [`AttributeRefPred`] only holds base table attributes, i.e. attributes
/// that already exist in the table.
#[derive(Debug)]
pub struct AttributeRefPred(pub ArcPredicateNode);

impl Clone for AttributeRefPred {
    fn clone(&self) -> (res: Self)
        ensures
            res == *self,
    {
        AttributeRefPred(share_node(&self.0))
    }
}

/// The node holds a `UInt64` value.
pub open spec fn holds_u64(node: PredicateNode) -> bool {
    node.data matches Some(v) && v is UInt64
}

impl AttributeRefPred {
    pub fn new(table_id: TableId, attribute_idx: usize) -> (res: AttributeRefPred)
        ensures
            res.0.typ == PredicateType::AttributeRef,
            res.0.children@.len() == 2,
            res.0.children@[0].typ == PredicateType::Id,
            res.0.children@[0].data == Some(Value::UInt64(table_id.0)),
            res.0.children@[1].typ == PredicateType::Id,
            res.0.children@[1].data == Some(Value::UInt64(attribute_idx as u64)),
            res.0.data is None,
    {
        AttributeRefPred(
            Arc::new(
                PredicateNode {
                    typ: PredicateType::AttributeRef,
                    children: vec![
                        IdPred::new(table_id.0).into_pred_node(),
                        IdPred::new(attribute_idx as u64).into_pred_node(),
                    ],
                    data: None,
                },
            ),
        )
    }

    /// Gets the table id.
    pub fn table_id(&self) -> (res: TableId)
        requires
            self.0.children.len() >= 1,
            holds_u64(*self.0.children@[0]),
        ensures
            self.0.children@[0].data == Some(Value::UInt64(res.0)),
    {
        let id = self.0.child(0);
        TableId(id.unwrap_data().as_u64())
    }

    /// Gets the attribute index.
    /// Note: The attribute index is the **base** index, which is table specific.
    pub fn attr_index(&self) -> (res: usize)
        requires
            self.0.children.len() >= 2,
            holds_u64(*self.0.children@[1]),
        ensures
            self.0.children@[1].data matches Some(Value::UInt64(i)) && res == i as usize,
    {
        let idx = self.0.child(1);
        idx.unwrap_data().as_u64() as usize
    }

    /// Checks whether the attribute is a derived attribute. Currently, this will always
    /// return false, since derived attribute is not yet supported.
    pub fn is_derived(&self) -> (res: bool)
        ensures
            !res,
    {
        false
    }
}

impl ReprPredicateNode for AttributeRefPred {
    fn into_pred_node(self) -> (res: ArcPredicateNode)
        ensures
            res == self.0,
    {
        self.0
    }

    fn from_pred_node(pred_node: ArcPredicateNode) -> (res: Option<Self>)
        ensures
            res == if pred_node.typ is AttributeRef {
                Some(AttributeRefPred(pred_node))
            } else {
                None
            },
    {
        if !matches!(pred_node.typ, PredicateType::AttributeRef) {
            return None;
        }
        Some(Self(pred_node))
    }
}

} // verus!
