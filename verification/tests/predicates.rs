use std::sync::Arc;

use arrow_schema::DataType;
use optd_cost_model::common::nodes::{
    ArcPredicateNode, JoinType, PhysicalNodeType, PredicateNode, PredicateType,
    ReprPredicateNode, TextPiece,
};
use optd_cost_model::common::predicates::log_op_pred::LogOpType;
use optd_cost_model::common::predicates::attr_index_pred::AttrIndexPred;
use optd_cost_model::common::predicates::attr_ref_pred::AttributeRefPred;
use optd_cost_model::common::predicates::bin_op_pred::{BinOpPred, BinOpType};
use optd_cost_model::common::predicates::cast_pred::CastPred;
use optd_cost_model::common::predicates::constant_pred::ConstantType;
use optd_cost_model::common::predicates::data_type_pred::DataTypePred;
use optd_cost_model::common::predicates::id_pred::IdPred;
use optd_cost_model::common::predicates::in_list_pred::InListPred;
use optd_cost_model::common::predicates::like_pred::LikePred;
use optd_cost_model::common::predicates::list_pred::ListPred;
use optd_cost_model::common::predicates::sort_order_pred::SortOrderType;
use optd_cost_model::common::predicates::un_op_pred::{UnOpPred, UnOpType};
use optd_cost_model::common::types::TableId;
use optd_cost_model::common::values::{SerializableOrderedF64, Value};

fn constant(v: Value) -> ArcPredicateNode {
    Arc::new(PredicateNode {
        typ: PredicateType::Constant(ConstantType::UInt64),
        children: vec![],
        data: Some(v),
    })
}

#[test]
fn bin_op_kinds() {
    for op in [BinOpType::Add, BinOpType::Sub, BinOpType::Mul, BinOpType::Div, BinOpType::Mod] {
        assert!(op.is_numerical());
        assert!(!op.is_comparison());
    }
    for op in [
        BinOpType::Eq,
        BinOpType::Neq,
        BinOpType::Gt,
        BinOpType::Lt,
        BinOpType::Geq,
        BinOpType::Leq,
    ] {
        assert!(op.is_comparison());
        assert!(!op.is_numerical());
    }
}

#[test]
fn operator_names() {
    assert_eq!(BinOpType::Geq.to_string(), "Geq");
    assert_eq!(UnOpType::Not.to_string(), "Not");
    assert_eq!(SortOrderType::Desc.to_string(), "Desc");
    assert_eq!(JoinType::LeftSemi.to_string(), "LeftSemi");
    assert_eq!(
        PhysicalNodeType::PhysicalHashJoin(JoinType::Inner).to_string(),
        "PhysicalHashJoin(Inner)"
    );
    assert_eq!(PhysicalNodeType::PhysicalScan.to_string(), "PhysicalScan");
}

#[test]
fn bin_op_pred_round_trip() {
    let l = constant(Value::UInt64(1));
    let r = constant(Value::UInt64(2));
    let p = BinOpPred::new(l.clone(), r.clone(), BinOpType::Lt);
    assert_eq!(p.op_type(), BinOpType::Lt);
    assert_eq!(p.left_child(), l);
    assert_eq!(p.right_child(), r);
    let node = p.into_pred_node();
    assert!(BinOpPred::from_pred_node(node.clone()).is_some());
    assert!(UnOpPred::from_pred_node(node).is_none());
}

#[test]
fn un_op_pred_round_trip() {
    let c = constant(Value::Bool(true));
    let p = UnOpPred::new(c.clone(), UnOpType::Not);
    assert_eq!(p.op_type(), UnOpType::Not);
    assert_eq!(p.child(), c);
    assert!(UnOpPred::from_pred_node(p.into_pred_node()).is_some());
}

#[test]
fn id_and_attr_index_preds() {
    let id = IdPred::new(42);
    assert_eq!(id.id(), 42);
    assert!(IdPred::from_pred_node(id.into_pred_node()).is_some());
    let idx = AttrIndexPred::new(7);
    assert_eq!(idx.attr_index(), 7);
    let node = idx.into_pred_node();
    assert!(AttrIndexPred::from_pred_node(node.clone()).is_some());
    assert!(IdPred::from_pred_node(node).is_none());
}

#[test]
fn attribute_ref_pred_holds_table_and_index() {
    let p = AttributeRefPred::new(TableId(3), 11);
    assert_eq!(p.table_id(), TableId(3));
    assert_eq!(p.attr_index(), 11);
    assert!(!p.is_derived());
    assert!(AttributeRefPred::from_pred_node(p.into_pred_node()).is_some());
}

#[test]
fn cast_pred_keeps_its_target_type() {
    let c = constant(Value::Int32(1));
    let p = CastPred::new(c.clone(), DataType::Int64);
    assert_eq!(p.child(), c);
    assert_eq!(p.cast_to(), DataType::Int64);
    let d = DataTypePred::new(DataType::Utf8);
    assert_eq!(d.data_type(), DataType::Utf8);
    assert!(CastPred::from_pred_node(p.into_pred_node()).is_some());
}

#[test]
fn list_and_in_list_preds() {
    let items = vec![constant(Value::UInt64(1)), constant(Value::UInt64(2))];
    let list = ListPred::new(items.clone());
    assert_eq!(list.len(), 2);
    assert!(!list.is_empty());
    assert_eq!(list.child(1), items[1]);
    assert_eq!(list.to_vec(), items);
    assert!(ListPred::new(vec![]).is_empty());

    let c = constant(Value::UInt64(0));
    let p = InListPred::new(c.clone(), list, true);
    assert!(p.negated());
    assert_eq!(p.child(), c);
    assert_eq!(p.list().to_vec(), items);
    assert!(InListPred::from_pred_node(p.into_pred_node()).is_some());
}

#[test]
fn like_pred_flags() {
    let c = constant(Value::String("x".to_string()));
    let pat = constant(Value::String("%a%".to_string()));
    let p = LikePred::new(true, false, c.clone(), pat.clone());
    assert!(p.negated());
    assert!(!p.case_insensitive());
    assert_eq!(p.child(), c);
    assert_eq!(p.pattern(), pat);
    let q = LikePred::new(false, true, c, pat);
    assert!(!q.negated());
    assert!(q.case_insensitive());
    assert!(LikePred::from_pred_node(q.into_pred_node()).is_some());
}

#[test]
fn node_child_and_data() {
    let c = constant(Value::UInt64(5));
    let node = PredicateNode {
        typ: PredicateType::List,
        children: vec![c.clone()],
        data: Some(Value::Int64(-3)),
    };
    assert_eq!(node.child(0), c);
    assert_eq!(node.unwrap_data(), Value::Int64(-3));
    let arc: ArcPredicateNode = Arc::new(node);
    assert_eq!(ArcPredicateNode::from_pred_node(arc.clone()), Some(arc.clone()));
    assert_eq!(arc.clone().into_pred_node(), arc);
}

fn render(pieces: &[TextPiece]) -> String {
    let mut out = String::new();
    for piece in pieces {
        match piece {
            TextPiece::Text(s) => out.push_str(s),
            TextPiece::DataType(d) => out.push_str(&format!("{:?}", d)),
            TextPiece::Float(x) => out.push_str(&format!("{}", f64::from_bits(x.to_bits()))),
        }
    }
    out
}

#[test]
fn test_predicate_tree_text() {
    let left = Arc::new(PredicateNode {
        typ: PredicateType::AttrIndex,
        children: vec![],
        data: Some(Value::UInt64(3)),
    });
    let right = Arc::new(PredicateNode {
        typ: PredicateType::Constant(ConstantType::Int32),
        children: vec![],
        data: Some(Value::Int32(-5)),
    });
    let node = PredicateNode {
        typ: PredicateType::BinOp(BinOpType::Eq),
        children: vec![left, right],
        data: None,
    };
    assert_eq!(
        render(&node.text_pieces()),
        "(BinOp(Eq) (AttrIndex 3(u64)) (Constant(Int32) -5(i32)))"
    );
}

#[test]
fn test_predicate_tree_text_with_data_type_and_float() {
    let cast_to = Arc::new(PredicateNode {
        typ: PredicateType::DataType(DataType::Int64),
        children: vec![],
        data: None,
    });
    let constant = Arc::new(PredicateNode {
        typ: PredicateType::Constant(ConstantType::Decimal),
        children: vec![],
        data: Some(Value::Float(SerializableOrderedF64::from_bits(4.5f64.to_bits()))),
    });
    let node = PredicateNode {
        typ: PredicateType::Cast,
        children: vec![constant, cast_to],
        data: None,
    };
    assert_eq!(
        render(&node.text_pieces()),
        "(Cast (Constant(Decimal) 4.5(float)) (DataType(Int64)))"
    );
    assert_eq!(render(&PredicateType::LogOp(LogOpType::Or).text_pieces()), "LogOp(Or)");
    assert_eq!(
        render(&PredicateType::DataType(DataType::Utf8).text_pieces()),
        format!("{:?}", PredicateType::DataType(DataType::Utf8))
    );
}
