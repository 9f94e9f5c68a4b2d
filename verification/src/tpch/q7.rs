use std::collections::HashMap;

use vstd::prelude::*;

use crate::common::predicates::constant_pred::ConstantType;
use crate::common::properties::attr_ref::{
    attr_ref_views, eq_predicate_views, replay, AttrRef, EqKey, EqPredicate,
};
use crate::common::properties::attribute_views;
use crate::common::properties::schema::Schema;
use crate::common::properties::Attribute;

use super::{
    attribute, base_ref, correlation_of, eq_predicate, group_ids, group_info,
    group_map_views, group_map_wf, lemma_memo_map_view_lookup, memo_map, memo_map_view,
    memo_view, memo_wf, flipped, is_join_key, join_key, join_recorded,
    lemma_replay_records, recorded, unary_recorded, HashJoinView, MemoGroupInfo,
    MemoGroupView, UnaryOpView,
};

verus! {

/// The model of group 2 of the memo of TPC-H query 7.
pub open spec fn q7_group_2() -> MemoGroupView {
    MemoGroupView {
        schema: seq![
            ("s_suppkey"@, ConstantType::Int32, false),
            ("s_name"@, ConstantType::Utf8String, false),
            ("s_address"@, ConstantType::Utf8String, false),
            ("s_nationkey"@, ConstantType::Int32, false),
            ("s_phone"@, ConstantType::Utf8String, false),
            ("s_acctbal"@, ConstantType::Decimal, false),
            ("s_comment"@, ConstantType::Utf8String, false),
        ],
        refs: seq![
            Some(("supplier"@, 0usize)),
            Some(("supplier"@, 1usize)),
            Some(("supplier"@, 2usize)),
            Some(("supplier"@, 3usize)),
            Some(("supplier"@, 4usize)),
            Some(("supplier"@, 5usize)),
            Some(("supplier"@, 6usize)),
        ],
        correlation: None,
    }
}

/// Group 2 of the memo of TPC-H query 7.
fn q7_memo_group_2() -> (res: MemoGroupInfo)
    ensures
        res.wf(),
        res@ == q7_group_2(),
{
    let mut attributes: Vec<Attribute> = Vec::new();
    attributes.push(attribute("s_suppkey", ConstantType::Int32, false));
    attributes.push(attribute("s_name", ConstantType::Utf8String, false));
    attributes.push(attribute("s_address", ConstantType::Utf8String, false));
    attributes.push(attribute("s_nationkey", ConstantType::Int32, false));
    attributes.push(attribute("s_phone", ConstantType::Utf8String, false));
    attributes.push(attribute("s_acctbal", ConstantType::Decimal, false));
    attributes.push(attribute("s_comment", ConstantType::Utf8String, false));
    let mut refs: Vec<AttrRef> = Vec::new();
    refs.push(base_ref("supplier", 0));
    refs.push(base_ref("supplier", 1));
    refs.push(base_ref("supplier", 2));
    refs.push(base_ref("supplier", 3));
    refs.push(base_ref("supplier", 4));
    refs.push(base_ref("supplier", 5));
    refs.push(base_ref("supplier", 6));
    proof {
        assert(attribute_views(attributes@) =~= q7_group_2().schema);
        assert(attr_ref_views(refs@) =~= q7_group_2().refs);
    }
    group_info(Schema { attributes }, refs, None)
}

/// The model of group 8 of the memo of TPC-H query 7.
pub open spec fn q7_group_8() -> MemoGroupView {
    MemoGroupView {
        schema: seq![
            ("l_orderkey"@, ConstantType::Int32, false),
            ("l_partkey"@, ConstantType::Int32, false),
            ("l_suppkey"@, ConstantType::Int32, false),
            ("l_linenumber"@, ConstantType::Int32, false),
            ("l_quantity"@, ConstantType::Decimal, false),
            ("l_extendedprice"@, ConstantType::Decimal, false),
            ("l_discount"@, ConstantType::Decimal, false),
            ("l_tax"@, ConstantType::Decimal, false),
            ("l_returnflag"@, ConstantType::Utf8String, false),
            ("l_linestatus"@, ConstantType::Utf8String, false),
            ("l_shipdate"@, ConstantType::Date, false),
            ("l_commitdate"@, ConstantType::Date, false),
            ("l_receiptdate"@, ConstantType::Date, false),
            ("l_shipinstruct"@, ConstantType::Utf8String, false),
            ("l_shipmode"@, ConstantType::Utf8String, false),
            ("l_comment"@, ConstantType::Utf8String, false),
        ],
        refs: seq![
            Some(("lineitem"@, 0usize)),
            Some(("lineitem"@, 1usize)),
            Some(("lineitem"@, 2usize)),
            Some(("lineitem"@, 3usize)),
            Some(("lineitem"@, 4usize)),
            Some(("lineitem"@, 5usize)),
            Some(("lineitem"@, 6usize)),
            Some(("lineitem"@, 7usize)),
            Some(("lineitem"@, 8usize)),
            Some(("lineitem"@, 9usize)),
            Some(("lineitem"@, 10usize)),
            Some(("lineitem"@, 11usize)),
            Some(("lineitem"@, 12usize)),
            Some(("lineitem"@, 13usize)),
            Some(("lineitem"@, 14usize)),
            Some(("lineitem"@, 15usize)),
        ],
        correlation: None,
    }
}

/// Group 8 of the memo of TPC-H query 7.
fn q7_memo_group_8() -> (res: MemoGroupInfo)
    ensures
        res.wf(),
        res@ == q7_group_8(),
{
    let mut attributes: Vec<Attribute> = Vec::new();
    attributes.push(attribute("l_orderkey", ConstantType::Int32, false));
    attributes.push(attribute("l_partkey", ConstantType::Int32, false));
    attributes.push(attribute("l_suppkey", ConstantType::Int32, false));
    attributes.push(attribute("l_linenumber", ConstantType::Int32, false));
    attributes.push(attribute("l_quantity", ConstantType::Decimal, false));
    attributes.push(attribute("l_extendedprice", ConstantType::Decimal, false));
    attributes.push(attribute("l_discount", ConstantType::Decimal, false));
    attributes.push(attribute("l_tax", ConstantType::Decimal, false));
    attributes.push(attribute("l_returnflag", ConstantType::Utf8String, false));
    attributes.push(attribute("l_linestatus", ConstantType::Utf8String, false));
    attributes.push(attribute("l_shipdate", ConstantType::Date, false));
    attributes.push(attribute("l_commitdate", ConstantType::Date, false));
    attributes.push(attribute("l_receiptdate", ConstantType::Date, false));
    attributes.push(attribute("l_shipinstruct", ConstantType::Utf8String, false));
    attributes.push(attribute("l_shipmode", ConstantType::Utf8String, false));
    attributes.push(attribute("l_comment", ConstantType::Utf8String, false));
    let mut refs: Vec<AttrRef> = Vec::new();
    refs.push(base_ref("lineitem", 0));
    refs.push(base_ref("lineitem", 1));
    refs.push(base_ref("lineitem", 2));
    refs.push(base_ref("lineitem", 3));
    refs.push(base_ref("lineitem", 4));
    refs.push(base_ref("lineitem", 5));
    refs.push(base_ref("lineitem", 6));
    refs.push(base_ref("lineitem", 7));
    refs.push(base_ref("lineitem", 8));
    refs.push(base_ref("lineitem", 9));
    refs.push(base_ref("lineitem", 10));
    refs.push(base_ref("lineitem", 11));
    refs.push(base_ref("lineitem", 12));
    refs.push(base_ref("lineitem", 13));
    refs.push(base_ref("lineitem", 14));
    refs.push(base_ref("lineitem", 15));
    proof {
        assert(attribute_views(attributes@) =~= q7_group_8().schema);
        assert(attr_ref_views(refs@) =~= q7_group_8().refs);
    }
    group_info(Schema { attributes }, refs, None)
}

/// The model of group 96 of the memo of TPC-H query 7.
pub open spec fn q7_group_96() -> MemoGroupView {
    MemoGroupView {
        schema: seq![
            ("l_orderkey"@, ConstantType::Int32, false),
            ("l_partkey"@, ConstantType::Int32, false),
            ("l_suppkey"@, ConstantType::Int32, false),
            ("l_linenumber"@, ConstantType::Int32, false),
            ("l_quantity"@, ConstantType::Decimal, false),
            ("l_extendedprice"@, ConstantType::Decimal, false),
            ("l_discount"@, ConstantType::Decimal, false),
            ("l_tax"@, ConstantType::Decimal, false),
            ("l_returnflag"@, ConstantType::Utf8String, false),
            ("l_linestatus"@, ConstantType::Utf8String, false),
            ("l_shipdate"@, ConstantType::Date, false),
            ("l_commitdate"@, ConstantType::Date, false),
            ("l_receiptdate"@, ConstantType::Date, false),
            ("l_shipinstruct"@, ConstantType::Utf8String, false),
            ("l_shipmode"@, ConstantType::Utf8String, false),
            ("l_comment"@, ConstantType::Utf8String, false),
        ],
        refs: seq![
            Some(("lineitem"@, 0usize)),
            Some(("lineitem"@, 1usize)),
            Some(("lineitem"@, 2usize)),
            Some(("lineitem"@, 3usize)),
            Some(("lineitem"@, 4usize)),
            Some(("lineitem"@, 5usize)),
            Some(("lineitem"@, 6usize)),
            Some(("lineitem"@, 7usize)),
            Some(("lineitem"@, 8usize)),
            Some(("lineitem"@, 9usize)),
            Some(("lineitem"@, 10usize)),
            Some(("lineitem"@, 11usize)),
            Some(("lineitem"@, 12usize)),
            Some(("lineitem"@, 13usize)),
            Some(("lineitem"@, 14usize)),
            Some(("lineitem"@, 15usize)),
        ],
        correlation: None,
    }
}

/// Group 96 of the memo of TPC-H query 7.
fn q7_memo_group_96() -> (res: MemoGroupInfo)
    ensures
        res.wf(),
        res@ == q7_group_96(),
{
    let mut attributes: Vec<Attribute> = Vec::new();
    attributes.push(attribute("l_orderkey", ConstantType::Int32, false));
    attributes.push(attribute("l_partkey", ConstantType::Int32, false));
    attributes.push(attribute("l_suppkey", ConstantType::Int32, false));
    attributes.push(attribute("l_linenumber", ConstantType::Int32, false));
    attributes.push(attribute("l_quantity", ConstantType::Decimal, false));
    attributes.push(attribute("l_extendedprice", ConstantType::Decimal, false));
    attributes.push(attribute("l_discount", ConstantType::Decimal, false));
    attributes.push(attribute("l_tax", ConstantType::Decimal, false));
    attributes.push(attribute("l_returnflag", ConstantType::Utf8String, false));
    attributes.push(attribute("l_linestatus", ConstantType::Utf8String, false));
    attributes.push(attribute("l_shipdate", ConstantType::Date, false));
    attributes.push(attribute("l_commitdate", ConstantType::Date, false));
    attributes.push(attribute("l_receiptdate", ConstantType::Date, false));
    attributes.push(attribute("l_shipinstruct", ConstantType::Utf8String, false));
    attributes.push(attribute("l_shipmode", ConstantType::Utf8String, false));
    attributes.push(attribute("l_comment", ConstantType::Utf8String, false));
    let mut refs: Vec<AttrRef> = Vec::new();
    refs.push(base_ref("lineitem", 0));
    refs.push(base_ref("lineitem", 1));
    refs.push(base_ref("lineitem", 2));
    refs.push(base_ref("lineitem", 3));
    refs.push(base_ref("lineitem", 4));
    refs.push(base_ref("lineitem", 5));
    refs.push(base_ref("lineitem", 6));
    refs.push(base_ref("lineitem", 7));
    refs.push(base_ref("lineitem", 8));
    refs.push(base_ref("lineitem", 9));
    refs.push(base_ref("lineitem", 10));
    refs.push(base_ref("lineitem", 11));
    refs.push(base_ref("lineitem", 12));
    refs.push(base_ref("lineitem", 13));
    refs.push(base_ref("lineitem", 14));
    refs.push(base_ref("lineitem", 15));
    proof {
        assert(attribute_views(attributes@) =~= q7_group_96().schema);
        assert(attr_ref_views(refs@) =~= q7_group_96().refs);
    }
    group_info(Schema { attributes }, refs, None)
}

/// The equality predicates of group 118 of the memo of TPC-H query 7, in the order in
/// which they are added to its correlation.
pub open spec fn q7_group_118_predicates() -> Seq<EqKey> {
    seq![
        (("supplier"@, 0usize), ("lineitem"@, 2usize)),
    ]
}

/// The model of group 118 of the memo of TPC-H query 7.
pub open spec fn q7_group_118() -> MemoGroupView {
    MemoGroupView {
        schema: seq![
            ("s_suppkey"@, ConstantType::Int32, false),
            ("s_name"@, ConstantType::Utf8String, false),
            ("s_address"@, ConstantType::Utf8String, false),
            ("s_nationkey"@, ConstantType::Int32, false),
            ("s_phone"@, ConstantType::Utf8String, false),
            ("s_acctbal"@, ConstantType::Decimal, false),
            ("s_comment"@, ConstantType::Utf8String, false),
            ("l_orderkey"@, ConstantType::Int32, false),
            ("l_partkey"@, ConstantType::Int32, false),
            ("l_suppkey"@, ConstantType::Int32, false),
            ("l_linenumber"@, ConstantType::Int32, false),
            ("l_quantity"@, ConstantType::Decimal, false),
            ("l_extendedprice"@, ConstantType::Decimal, false),
            ("l_discount"@, ConstantType::Decimal, false),
            ("l_tax"@, ConstantType::Decimal, false),
            ("l_returnflag"@, ConstantType::Utf8String, false),
            ("l_linestatus"@, ConstantType::Utf8String, false),
            ("l_shipdate"@, ConstantType::Date, false),
            ("l_commitdate"@, ConstantType::Date, false),
            ("l_receiptdate"@, ConstantType::Date, false),
            ("l_shipinstruct"@, ConstantType::Utf8String, false),
            ("l_shipmode"@, ConstantType::Utf8String, false),
            ("l_comment"@, ConstantType::Utf8String, false),
        ],
        refs: seq![
            Some(("supplier"@, 0usize)),
            Some(("supplier"@, 1usize)),
            Some(("supplier"@, 2usize)),
            Some(("supplier"@, 3usize)),
            Some(("supplier"@, 4usize)),
            Some(("supplier"@, 5usize)),
            Some(("supplier"@, 6usize)),
            Some(("lineitem"@, 0usize)),
            Some(("lineitem"@, 1usize)),
            Some(("lineitem"@, 2usize)),
            Some(("lineitem"@, 3usize)),
            Some(("lineitem"@, 4usize)),
            Some(("lineitem"@, 5usize)),
            Some(("lineitem"@, 6usize)),
            Some(("lineitem"@, 7usize)),
            Some(("lineitem"@, 8usize)),
            Some(("lineitem"@, 9usize)),
            Some(("lineitem"@, 10usize)),
            Some(("lineitem"@, 11usize)),
            Some(("lineitem"@, 12usize)),
            Some(("lineitem"@, 13usize)),
            Some(("lineitem"@, 14usize)),
            Some(("lineitem"@, 15usize)),
        ],
        correlation: Some(replay(q7_group_118_predicates())),
    }
}

/// Group 118 of the memo of TPC-H query 7.
fn q7_memo_group_118() -> (res: MemoGroupInfo)
    ensures
        res.wf(),
        res@ == q7_group_118(),
{
    let mut attributes: Vec<Attribute> = Vec::new();
    attributes.push(attribute("s_suppkey", ConstantType::Int32, false));
    attributes.push(attribute("s_name", ConstantType::Utf8String, false));
    attributes.push(attribute("s_address", ConstantType::Utf8String, false));
    attributes.push(attribute("s_nationkey", ConstantType::Int32, false));
    attributes.push(attribute("s_phone", ConstantType::Utf8String, false));
    attributes.push(attribute("s_acctbal", ConstantType::Decimal, false));
    attributes.push(attribute("s_comment", ConstantType::Utf8String, false));
    attributes.push(attribute("l_orderkey", ConstantType::Int32, false));
    attributes.push(attribute("l_partkey", ConstantType::Int32, false));
    attributes.push(attribute("l_suppkey", ConstantType::Int32, false));
    attributes.push(attribute("l_linenumber", ConstantType::Int32, false));
    attributes.push(attribute("l_quantity", ConstantType::Decimal, false));
    attributes.push(attribute("l_extendedprice", ConstantType::Decimal, false));
    attributes.push(attribute("l_discount", ConstantType::Decimal, false));
    attributes.push(attribute("l_tax", ConstantType::Decimal, false));
    attributes.push(attribute("l_returnflag", ConstantType::Utf8String, false));
    attributes.push(attribute("l_linestatus", ConstantType::Utf8String, false));
    attributes.push(attribute("l_shipdate", ConstantType::Date, false));
    attributes.push(attribute("l_commitdate", ConstantType::Date, false));
    attributes.push(attribute("l_receiptdate", ConstantType::Date, false));
    attributes.push(attribute("l_shipinstruct", ConstantType::Utf8String, false));
    attributes.push(attribute("l_shipmode", ConstantType::Utf8String, false));
    attributes.push(attribute("l_comment", ConstantType::Utf8String, false));
    let mut refs: Vec<AttrRef> = Vec::new();
    refs.push(base_ref("supplier", 0));
    refs.push(base_ref("supplier", 1));
    refs.push(base_ref("supplier", 2));
    refs.push(base_ref("supplier", 3));
    refs.push(base_ref("supplier", 4));
    refs.push(base_ref("supplier", 5));
    refs.push(base_ref("supplier", 6));
    refs.push(base_ref("lineitem", 0));
    refs.push(base_ref("lineitem", 1));
    refs.push(base_ref("lineitem", 2));
    refs.push(base_ref("lineitem", 3));
    refs.push(base_ref("lineitem", 4));
    refs.push(base_ref("lineitem", 5));
    refs.push(base_ref("lineitem", 6));
    refs.push(base_ref("lineitem", 7));
    refs.push(base_ref("lineitem", 8));
    refs.push(base_ref("lineitem", 9));
    refs.push(base_ref("lineitem", 10));
    refs.push(base_ref("lineitem", 11));
    refs.push(base_ref("lineitem", 12));
    refs.push(base_ref("lineitem", 13));
    refs.push(base_ref("lineitem", 14));
    refs.push(base_ref("lineitem", 15));
    proof {
        assert(attribute_views(attributes@) =~= q7_group_118().schema);
        assert(attr_ref_views(refs@) =~= q7_group_118().refs);
    }
    let mut predicates: Vec<EqPredicate> = Vec::new();
    predicates.push(eq_predicate("supplier", 0, "lineitem", 2));
    assert(eq_predicate_views(predicates@) =~= q7_group_118_predicates());
    group_info(Schema { attributes }, refs, Some(correlation_of(predicates)))
}

/// The model of group 23 of the memo of TPC-H query 7.
pub open spec fn q7_group_23() -> MemoGroupView {
    MemoGroupView {
        schema: seq![
            ("o_orderkey"@, ConstantType::Int32, false),
            ("o_custkey"@, ConstantType::Int32, false),
            ("o_orderstatus"@, ConstantType::Utf8String, false),
            ("o_totalprice"@, ConstantType::Decimal, false),
            ("o_orderdate"@, ConstantType::Date, false),
            ("o_orderpriority"@, ConstantType::Utf8String, false),
            ("o_clerk"@, ConstantType::Utf8String, false),
            ("o_shippriority"@, ConstantType::Int32, false),
            ("o_comment"@, ConstantType::Utf8String, false),
        ],
        refs: seq![
            Some(("orders"@, 0usize)),
            Some(("orders"@, 1usize)),
            Some(("orders"@, 2usize)),
            Some(("orders"@, 3usize)),
            Some(("orders"@, 4usize)),
            Some(("orders"@, 5usize)),
            Some(("orders"@, 6usize)),
            Some(("orders"@, 7usize)),
            Some(("orders"@, 8usize)),
        ],
        correlation: None,
    }
}

/// Group 23 of the memo of TPC-H query 7.
fn q7_memo_group_23() -> (res: MemoGroupInfo)
    ensures
        res.wf(),
        res@ == q7_group_23(),
{
    let mut attributes: Vec<Attribute> = Vec::new();
    attributes.push(attribute("o_orderkey", ConstantType::Int32, false));
    attributes.push(attribute("o_custkey", ConstantType::Int32, false));
    attributes.push(attribute("o_orderstatus", ConstantType::Utf8String, false));
    attributes.push(attribute("o_totalprice", ConstantType::Decimal, false));
    attributes.push(attribute("o_orderdate", ConstantType::Date, false));
    attributes.push(attribute("o_orderpriority", ConstantType::Utf8String, false));
    attributes.push(attribute("o_clerk", ConstantType::Utf8String, false));
    attributes.push(attribute("o_shippriority", ConstantType::Int32, false));
    attributes.push(attribute("o_comment", ConstantType::Utf8String, false));
    let mut refs: Vec<AttrRef> = Vec::new();
    refs.push(base_ref("orders", 0));
    refs.push(base_ref("orders", 1));
    refs.push(base_ref("orders", 2));
    refs.push(base_ref("orders", 3));
    refs.push(base_ref("orders", 4));
    refs.push(base_ref("orders", 5));
    refs.push(base_ref("orders", 6));
    refs.push(base_ref("orders", 7));
    refs.push(base_ref("orders", 8));
    proof {
        assert(attribute_views(attributes@) =~= q7_group_23().schema);
        assert(attr_ref_views(refs@) =~= q7_group_23().refs);
    }
    group_info(Schema { attributes }, refs, None)
}

/// The equality predicates of group 542 of the memo of TPC-H query 7, in the order in
/// which they are added to its correlation.
pub open spec fn q7_group_542_predicates() -> Seq<EqKey> {
    seq![
        (("lineitem"@, 0usize), ("orders"@, 0usize)),
        (("supplier"@, 0usize), ("lineitem"@, 2usize)),
    ]
}

/// The model of group 542 of the memo of TPC-H query 7.
pub open spec fn q7_group_542() -> MemoGroupView {
    MemoGroupView {
        schema: seq![
            ("s_suppkey"@, ConstantType::Int32, false),
            ("s_name"@, ConstantType::Utf8String, false),
            ("s_address"@, ConstantType::Utf8String, false),
            ("s_nationkey"@, ConstantType::Int32, false),
            ("s_phone"@, ConstantType::Utf8String, false),
            ("s_acctbal"@, ConstantType::Decimal, false),
            ("s_comment"@, ConstantType::Utf8String, false),
            ("l_orderkey"@, ConstantType::Int32, false),
            ("l_partkey"@, ConstantType::Int32, false),
            ("l_suppkey"@, ConstantType::Int32, false),
            ("l_linenumber"@, ConstantType::Int32, false),
            ("l_quantity"@, ConstantType::Decimal, false),
            ("l_extendedprice"@, ConstantType::Decimal, false),
            ("l_discount"@, ConstantType::Decimal, false),
            ("l_tax"@, ConstantType::Decimal, false),
            ("l_returnflag"@, ConstantType::Utf8String, false),
            ("l_linestatus"@, ConstantType::Utf8String, false),
            ("l_shipdate"@, ConstantType::Date, false),
            ("l_commitdate"@, ConstantType::Date, false),
            ("l_receiptdate"@, ConstantType::Date, false),
            ("l_shipinstruct"@, ConstantType::Utf8String, false),
            ("l_shipmode"@, ConstantType::Utf8String, false),
            ("l_comment"@, ConstantType::Utf8String, false),
            ("o_orderkey"@, ConstantType::Int32, false),
            ("o_custkey"@, ConstantType::Int32, false),
            ("o_orderstatus"@, ConstantType::Utf8String, false),
            ("o_totalprice"@, ConstantType::Decimal, false),
            ("o_orderdate"@, ConstantType::Date, false),
            ("o_orderpriority"@, ConstantType::Utf8String, false),
            ("o_clerk"@, ConstantType::Utf8String, false),
            ("o_shippriority"@, ConstantType::Int32, false),
            ("o_comment"@, ConstantType::Utf8String, false),
        ],
        refs: seq![
            Some(("supplier"@, 0usize)),
            Some(("supplier"@, 1usize)),
            Some(("supplier"@, 2usize)),
            Some(("supplier"@, 3usize)),
            Some(("supplier"@, 4usize)),
            Some(("supplier"@, 5usize)),
            Some(("supplier"@, 6usize)),
            Some(("lineitem"@, 0usize)),
            Some(("lineitem"@, 1usize)),
            Some(("lineitem"@, 2usize)),
            Some(("lineitem"@, 3usize)),
            Some(("lineitem"@, 4usize)),
            Some(("lineitem"@, 5usize)),
            Some(("lineitem"@, 6usize)),
            Some(("lineitem"@, 7usize)),
            Some(("lineitem"@, 8usize)),
            Some(("lineitem"@, 9usize)),
            Some(("lineitem"@, 10usize)),
            Some(("lineitem"@, 11usize)),
            Some(("lineitem"@, 12usize)),
            Some(("lineitem"@, 13usize)),
            Some(("lineitem"@, 14usize)),
            Some(("lineitem"@, 15usize)),
            Some(("orders"@, 0usize)),
            Some(("orders"@, 1usize)),
            Some(("orders"@, 2usize)),
            Some(("orders"@, 3usize)),
            Some(("orders"@, 4usize)),
            Some(("orders"@, 5usize)),
            Some(("orders"@, 6usize)),
            Some(("orders"@, 7usize)),
            Some(("orders"@, 8usize)),
        ],
        correlation: Some(replay(q7_group_542_predicates())),
    }
}

/// Group 542 of the memo of TPC-H query 7.
fn q7_memo_group_542() -> (res: MemoGroupInfo)
    ensures
        res.wf(),
        res@ == q7_group_542(),
{
    let mut attributes: Vec<Attribute> = Vec::new();
    attributes.push(attribute("s_suppkey", ConstantType::Int32, false));
    attributes.push(attribute("s_name", ConstantType::Utf8String, false));
    attributes.push(attribute("s_address", ConstantType::Utf8String, false));
    attributes.push(attribute("s_nationkey", ConstantType::Int32, false));
    attributes.push(attribute("s_phone", ConstantType::Utf8String, false));
    attributes.push(attribute("s_acctbal", ConstantType::Decimal, false));
    attributes.push(attribute("s_comment", ConstantType::Utf8String, false));
    attributes.push(attribute("l_orderkey", ConstantType::Int32, false));
    attributes.push(attribute("l_partkey", ConstantType::Int32, false));
    attributes.push(attribute("l_suppkey", ConstantType::Int32, false));
    attributes.push(attribute("l_linenumber", ConstantType::Int32, false));
    attributes.push(attribute("l_quantity", ConstantType::Decimal, false));
    attributes.push(attribute("l_extendedprice", ConstantType::Decimal, false));
    attributes.push(attribute("l_discount", ConstantType::Decimal, false));
    attributes.push(attribute("l_tax", ConstantType::Decimal, false));
    attributes.push(attribute("l_returnflag", ConstantType::Utf8String, false));
    attributes.push(attribute("l_linestatus", ConstantType::Utf8String, false));
    attributes.push(attribute("l_shipdate", ConstantType::Date, false));
    attributes.push(attribute("l_commitdate", ConstantType::Date, false));
    attributes.push(attribute("l_receiptdate", ConstantType::Date, false));
    attributes.push(attribute("l_shipinstruct", ConstantType::Utf8String, false));
    attributes.push(attribute("l_shipmode", ConstantType::Utf8String, false));
    attributes.push(attribute("l_comment", ConstantType::Utf8String, false));
    attributes.push(attribute("o_orderkey", ConstantType::Int32, false));
    attributes.push(attribute("o_custkey", ConstantType::Int32, false));
    attributes.push(attribute("o_orderstatus", ConstantType::Utf8String, false));
    attributes.push(attribute("o_totalprice", ConstantType::Decimal, false));
    attributes.push(attribute("o_orderdate", ConstantType::Date, false));
    attributes.push(attribute("o_orderpriority", ConstantType::Utf8String, false));
    attributes.push(attribute("o_clerk", ConstantType::Utf8String, false));
    attributes.push(attribute("o_shippriority", ConstantType::Int32, false));
    attributes.push(attribute("o_comment", ConstantType::Utf8String, false));
    let mut refs: Vec<AttrRef> = Vec::new();
    refs.push(base_ref("supplier", 0));
    refs.push(base_ref("supplier", 1));
    refs.push(base_ref("supplier", 2));
    refs.push(base_ref("supplier", 3));
    refs.push(base_ref("supplier", 4));
    refs.push(base_ref("supplier", 5));
    refs.push(base_ref("supplier", 6));
    refs.push(base_ref("lineitem", 0));
    refs.push(base_ref("lineitem", 1));
    refs.push(base_ref("lineitem", 2));
    refs.push(base_ref("lineitem", 3));
    refs.push(base_ref("lineitem", 4));
    refs.push(base_ref("lineitem", 5));
    refs.push(base_ref("lineitem", 6));
    refs.push(base_ref("lineitem", 7));
    refs.push(base_ref("lineitem", 8));
    refs.push(base_ref("lineitem", 9));
    refs.push(base_ref("lineitem", 10));
    refs.push(base_ref("lineitem", 11));
    refs.push(base_ref("lineitem", 12));
    refs.push(base_ref("lineitem", 13));
    refs.push(base_ref("lineitem", 14));
    refs.push(base_ref("lineitem", 15));
    refs.push(base_ref("orders", 0));
    refs.push(base_ref("orders", 1));
    refs.push(base_ref("orders", 2));
    refs.push(base_ref("orders", 3));
    refs.push(base_ref("orders", 4));
    refs.push(base_ref("orders", 5));
    refs.push(base_ref("orders", 6));
    refs.push(base_ref("orders", 7));
    refs.push(base_ref("orders", 8));
    proof {
        assert(attribute_views(attributes@) =~= q7_group_542().schema);
        assert(attr_ref_views(refs@) =~= q7_group_542().refs);
    }
    let mut predicates: Vec<EqPredicate> = Vec::new();
    predicates.push(eq_predicate("lineitem", 0, "orders", 0));
    predicates.push(eq_predicate("supplier", 0, "lineitem", 2));
    assert(eq_predicate_views(predicates@) =~= q7_group_542_predicates());
    group_info(Schema { attributes }, refs, Some(correlation_of(predicates)))
}

/// The model of group 35 of the memo of TPC-H query 7.
pub open spec fn q7_group_35() -> MemoGroupView {
    MemoGroupView {
        schema: seq![
            ("c_custkey"@, ConstantType::Int32, false),
            ("c_name"@, ConstantType::Utf8String, false),
            ("c_address"@, ConstantType::Utf8String, false),
            ("c_nationkey"@, ConstantType::Int32, false),
            ("c_phone"@, ConstantType::Utf8String, false),
            ("c_acctbal"@, ConstantType::Decimal, false),
            ("c_mktsegment"@, ConstantType::Utf8String, false),
            ("c_comment"@, ConstantType::Utf8String, false),
        ],
        refs: seq![
            Some(("customer"@, 0usize)),
            Some(("customer"@, 1usize)),
            Some(("customer"@, 2usize)),
            Some(("customer"@, 3usize)),
            Some(("customer"@, 4usize)),
            Some(("customer"@, 5usize)),
            Some(("customer"@, 6usize)),
            Some(("customer"@, 7usize)),
        ],
        correlation: None,
    }
}

/// Group 35 of the memo of TPC-H query 7.
fn q7_memo_group_35() -> (res: MemoGroupInfo)
    ensures
        res.wf(),
        res@ == q7_group_35(),
{
    let mut attributes: Vec<Attribute> = Vec::new();
    attributes.push(attribute("c_custkey", ConstantType::Int32, false));
    attributes.push(attribute("c_name", ConstantType::Utf8String, false));
    attributes.push(attribute("c_address", ConstantType::Utf8String, false));
    attributes.push(attribute("c_nationkey", ConstantType::Int32, false));
    attributes.push(attribute("c_phone", ConstantType::Utf8String, false));
    attributes.push(attribute("c_acctbal", ConstantType::Decimal, false));
    attributes.push(attribute("c_mktsegment", ConstantType::Utf8String, false));
    attributes.push(attribute("c_comment", ConstantType::Utf8String, false));
    let mut refs: Vec<AttrRef> = Vec::new();
    refs.push(base_ref("customer", 0));
    refs.push(base_ref("customer", 1));
    refs.push(base_ref("customer", 2));
    refs.push(base_ref("customer", 3));
    refs.push(base_ref("customer", 4));
    refs.push(base_ref("customer", 5));
    refs.push(base_ref("customer", 6));
    refs.push(base_ref("customer", 7));
    proof {
        assert(attribute_views(attributes@) =~= q7_group_35().schema);
        assert(attr_ref_views(refs@) =~= q7_group_35().refs);
    }
    group_info(Schema { attributes }, refs, None)
}

/// The model of group 38 of the memo of TPC-H query 7.
pub open spec fn q7_group_38() -> MemoGroupView {
    MemoGroupView {
        schema: seq![
            ("unnamed"@, ConstantType::UInt64, true),
            ("unnamed"@, ConstantType::UInt64, true),
        ],
        refs: seq![
            Some(("customer"@, 0usize)),
            Some(("customer"@, 3usize)),
        ],
        correlation: None,
    }
}

/// Group 38 of the memo of TPC-H query 7.
fn q7_memo_group_38() -> (res: MemoGroupInfo)
    ensures
        res.wf(),
        res@ == q7_group_38(),
{
    let mut attributes: Vec<Attribute> = Vec::new();
    attributes.push(attribute("unnamed", ConstantType::UInt64, true));
    attributes.push(attribute("unnamed", ConstantType::UInt64, true));
    let mut refs: Vec<AttrRef> = Vec::new();
    refs.push(base_ref("customer", 0));
    refs.push(base_ref("customer", 3));
    proof {
        assert(attribute_views(attributes@) =~= q7_group_38().schema);
        assert(attr_ref_views(refs@) =~= q7_group_38().refs);
    }
    group_info(Schema { attributes }, refs, None)
}

/// The equality predicates of group 11439 of the memo of TPC-H query 7, in the order in
/// which they are added to its correlation.
pub open spec fn q7_group_11439_predicates() -> Seq<EqKey> {
    seq![
        (("orders"@, 1usize), ("customer"@, 0usize)),
        (("lineitem"@, 0usize), ("orders"@, 0usize)),
        (("supplier"@, 0usize), ("lineitem"@, 2usize)),
    ]
}

/// The model of group 11439 of the memo of TPC-H query 7.
pub open spec fn q7_group_11439() -> MemoGroupView {
    MemoGroupView {
        schema: seq![
            ("s_suppkey"@, ConstantType::Int32, false),
            ("s_name"@, ConstantType::Utf8String, false),
            ("s_address"@, ConstantType::Utf8String, false),
            ("s_nationkey"@, ConstantType::Int32, false),
            ("s_phone"@, ConstantType::Utf8String, false),
            ("s_acctbal"@, ConstantType::Decimal, false),
            ("s_comment"@, ConstantType::Utf8String, false),
            ("l_orderkey"@, ConstantType::Int32, false),
            ("l_partkey"@, ConstantType::Int32, false),
            ("l_suppkey"@, ConstantType::Int32, false),
            ("l_linenumber"@, ConstantType::Int32, false),
            ("l_quantity"@, ConstantType::Decimal, false),
            ("l_extendedprice"@, ConstantType::Decimal, false),
            ("l_discount"@, ConstantType::Decimal, false),
            ("l_tax"@, ConstantType::Decimal, false),
            ("l_returnflag"@, ConstantType::Utf8String, false),
            ("l_linestatus"@, ConstantType::Utf8String, false),
            ("l_shipdate"@, ConstantType::Date, false),
            ("l_commitdate"@, ConstantType::Date, false),
            ("l_receiptdate"@, ConstantType::Date, false),
            ("l_shipinstruct"@, ConstantType::Utf8String, false),
            ("l_shipmode"@, ConstantType::Utf8String, false),
            ("l_comment"@, ConstantType::Utf8String, false),
            ("o_orderkey"@, ConstantType::Int32, false),
            ("o_custkey"@, ConstantType::Int32, false),
            ("o_orderstatus"@, ConstantType::Utf8String, false),
            ("o_totalprice"@, ConstantType::Decimal, false),
            ("o_orderdate"@, ConstantType::Date, false),
            ("o_orderpriority"@, ConstantType::Utf8String, false),
            ("o_clerk"@, ConstantType::Utf8String, false),
            ("o_shippriority"@, ConstantType::Int32, false),
            ("o_comment"@, ConstantType::Utf8String, false),
            ("unnamed"@, ConstantType::UInt64, true),
            ("unnamed"@, ConstantType::UInt64, true),
        ],
        refs: seq![
            Some(("supplier"@, 0usize)),
            Some(("supplier"@, 1usize)),
            Some(("supplier"@, 2usize)),
            Some(("supplier"@, 3usize)),
            Some(("supplier"@, 4usize)),
            Some(("supplier"@, 5usize)),
            Some(("supplier"@, 6usize)),
            Some(("lineitem"@, 0usize)),
            Some(("lineitem"@, 1usize)),
            Some(("lineitem"@, 2usize)),
            Some(("lineitem"@, 3usize)),
            Some(("lineitem"@, 4usize)),
            Some(("lineitem"@, 5usize)),
            Some(("lineitem"@, 6usize)),
            Some(("lineitem"@, 7usize)),
            Some(("lineitem"@, 8usize)),
            Some(("lineitem"@, 9usize)),
            Some(("lineitem"@, 10usize)),
            Some(("lineitem"@, 11usize)),
            Some(("lineitem"@, 12usize)),
            Some(("lineitem"@, 13usize)),
            Some(("lineitem"@, 14usize)),
            Some(("lineitem"@, 15usize)),
            Some(("orders"@, 0usize)),
            Some(("orders"@, 1usize)),
            Some(("orders"@, 2usize)),
            Some(("orders"@, 3usize)),
            Some(("orders"@, 4usize)),
            Some(("orders"@, 5usize)),
            Some(("orders"@, 6usize)),
            Some(("orders"@, 7usize)),
            Some(("orders"@, 8usize)),
            Some(("customer"@, 0usize)),
            Some(("customer"@, 3usize)),
        ],
        correlation: Some(replay(q7_group_11439_predicates())),
    }
}

/// Group 11439 of the memo of TPC-H query 7.
fn q7_memo_group_11439() -> (res: MemoGroupInfo)
    ensures
        res.wf(),
        res@ == q7_group_11439(),
{
    let mut attributes: Vec<Attribute> = Vec::new();
    attributes.push(attribute("s_suppkey", ConstantType::Int32, false));
    attributes.push(attribute("s_name", ConstantType::Utf8String, false));
    attributes.push(attribute("s_address", ConstantType::Utf8String, false));
    attributes.push(attribute("s_nationkey", ConstantType::Int32, false));
    attributes.push(attribute("s_phone", ConstantType::Utf8String, false));
    attributes.push(attribute("s_acctbal", ConstantType::Decimal, false));
    attributes.push(attribute("s_comment", ConstantType::Utf8String, false));
    attributes.push(attribute("l_orderkey", ConstantType::Int32, false));
    attributes.push(attribute("l_partkey", ConstantType::Int32, false));
    attributes.push(attribute("l_suppkey", ConstantType::Int32, false));
    attributes.push(attribute("l_linenumber", ConstantType::Int32, false));
    attributes.push(attribute("l_quantity", ConstantType::Decimal, false));
    attributes.push(attribute("l_extendedprice", ConstantType::Decimal, false));
    attributes.push(attribute("l_discount", ConstantType::Decimal, false));
    attributes.push(attribute("l_tax", ConstantType::Decimal, false));
    attributes.push(attribute("l_returnflag", ConstantType::Utf8String, false));
    attributes.push(attribute("l_linestatus", ConstantType::Utf8String, false));
    attributes.push(attribute("l_shipdate", ConstantType::Date, false));
    attributes.push(attribute("l_commitdate", ConstantType::Date, false));
    attributes.push(attribute("l_receiptdate", ConstantType::Date, false));
    attributes.push(attribute("l_shipinstruct", ConstantType::Utf8String, false));
    attributes.push(attribute("l_shipmode", ConstantType::Utf8String, false));
    attributes.push(attribute("l_comment", ConstantType::Utf8String, false));
    attributes.push(attribute("o_orderkey", ConstantType::Int32, false));
    attributes.push(attribute("o_custkey", ConstantType::Int32, false));
    attributes.push(attribute("o_orderstatus", ConstantType::Utf8String, false));
    attributes.push(attribute("o_totalprice", ConstantType::Decimal, false));
    attributes.push(attribute("o_orderdate", ConstantType::Date, false));
    attributes.push(attribute("o_orderpriority", ConstantType::Utf8String, false));
    attributes.push(attribute("o_clerk", ConstantType::Utf8String, false));
    attributes.push(attribute("o_shippriority", ConstantType::Int32, false));
    attributes.push(attribute("o_comment", ConstantType::Utf8String, false));
    attributes.push(attribute("unnamed", ConstantType::UInt64, true));
    attributes.push(attribute("unnamed", ConstantType::UInt64, true));
    let mut refs: Vec<AttrRef> = Vec::new();
    refs.push(base_ref("supplier", 0));
    refs.push(base_ref("supplier", 1));
    refs.push(base_ref("supplier", 2));
    refs.push(base_ref("supplier", 3));
    refs.push(base_ref("supplier", 4));
    refs.push(base_ref("supplier", 5));
    refs.push(base_ref("supplier", 6));
    refs.push(base_ref("lineitem", 0));
    refs.push(base_ref("lineitem", 1));
    refs.push(base_ref("lineitem", 2));
    refs.push(base_ref("lineitem", 3));
    refs.push(base_ref("lineitem", 4));
    refs.push(base_ref("lineitem", 5));
    refs.push(base_ref("lineitem", 6));
    refs.push(base_ref("lineitem", 7));
    refs.push(base_ref("lineitem", 8));
    refs.push(base_ref("lineitem", 9));
    refs.push(base_ref("lineitem", 10));
    refs.push(base_ref("lineitem", 11));
    refs.push(base_ref("lineitem", 12));
    refs.push(base_ref("lineitem", 13));
    refs.push(base_ref("lineitem", 14));
    refs.push(base_ref("lineitem", 15));
    refs.push(base_ref("orders", 0));
    refs.push(base_ref("orders", 1));
    refs.push(base_ref("orders", 2));
    refs.push(base_ref("orders", 3));
    refs.push(base_ref("orders", 4));
    refs.push(base_ref("orders", 5));
    refs.push(base_ref("orders", 6));
    refs.push(base_ref("orders", 7));
    refs.push(base_ref("orders", 8));
    refs.push(base_ref("customer", 0));
    refs.push(base_ref("customer", 3));
    proof {
        assert(attribute_views(attributes@) =~= q7_group_11439().schema);
        assert(attr_ref_views(refs@) =~= q7_group_11439().refs);
    }
    let mut predicates: Vec<EqPredicate> = Vec::new();
    predicates.push(eq_predicate("orders", 1, "customer", 0));
    predicates.push(eq_predicate("lineitem", 0, "orders", 0));
    predicates.push(eq_predicate("supplier", 0, "lineitem", 2));
    assert(eq_predicate_views(predicates@) =~= q7_group_11439_predicates());
    group_info(Schema { attributes }, refs, Some(correlation_of(predicates)))
}

/// The model of group 47 of the memo of TPC-H query 7.
pub open spec fn q7_group_47() -> MemoGroupView {
    MemoGroupView {
        schema: seq![
            ("n_nationkey"@, ConstantType::Int32, false),
            ("n_name"@, ConstantType::Utf8String, false),
            ("n_regionkey"@, ConstantType::Int32, false),
            ("n_comment"@, ConstantType::Utf8String, true),
        ],
        refs: seq![
            Some(("nation"@, 0usize)),
            Some(("nation"@, 1usize)),
            Some(("nation"@, 2usize)),
            Some(("nation"@, 3usize)),
        ],
        correlation: None,
    }
}

/// Group 47 of the memo of TPC-H query 7.
fn q7_memo_group_47() -> (res: MemoGroupInfo)
    ensures
        res.wf(),
        res@ == q7_group_47(),
{
    let mut attributes: Vec<Attribute> = Vec::new();
    attributes.push(attribute("n_nationkey", ConstantType::Int32, false));
    attributes.push(attribute("n_name", ConstantType::Utf8String, false));
    attributes.push(attribute("n_regionkey", ConstantType::Int32, false));
    attributes.push(attribute("n_comment", ConstantType::Utf8String, true));
    let mut refs: Vec<AttrRef> = Vec::new();
    refs.push(base_ref("nation", 0));
    refs.push(base_ref("nation", 1));
    refs.push(base_ref("nation", 2));
    refs.push(base_ref("nation", 3));
    proof {
        assert(attribute_views(attributes@) =~= q7_group_47().schema);
        assert(attr_ref_views(refs@) =~= q7_group_47().refs);
    }
    group_info(Schema { attributes }, refs, None)
}

/// The model of group 89 of the memo of TPC-H query 7.
pub open spec fn q7_group_89() -> MemoGroupView {
    MemoGroupView {
        schema: seq![
            ("n_nationkey"@, ConstantType::Int32, false),
            ("n_name"@, ConstantType::Utf8String, false),
            ("n_regionkey"@, ConstantType::Int32, false),
            ("n_comment"@, ConstantType::Utf8String, true),
        ],
        refs: seq![
            Some(("nation"@, 0usize)),
            Some(("nation"@, 1usize)),
            Some(("nation"@, 2usize)),
            Some(("nation"@, 3usize)),
        ],
        correlation: None,
    }
}

/// Group 89 of the memo of TPC-H query 7.
fn q7_memo_group_89() -> (res: MemoGroupInfo)
    ensures
        res.wf(),
        res@ == q7_group_89(),
{
    let mut attributes: Vec<Attribute> = Vec::new();
    attributes.push(attribute("n_nationkey", ConstantType::Int32, false));
    attributes.push(attribute("n_name", ConstantType::Utf8String, false));
    attributes.push(attribute("n_regionkey", ConstantType::Int32, false));
    attributes.push(attribute("n_comment", ConstantType::Utf8String, true));
    let mut refs: Vec<AttrRef> = Vec::new();
    refs.push(base_ref("nation", 0));
    refs.push(base_ref("nation", 1));
    refs.push(base_ref("nation", 2));
    refs.push(base_ref("nation", 3));
    proof {
        assert(attribute_views(attributes@) =~= q7_group_89().schema);
        assert(attr_ref_views(refs@) =~= q7_group_89().refs);
    }
    group_info(Schema { attributes }, refs, None)
}

/// The model of group 53 of the memo of TPC-H query 7.
pub open spec fn q7_group_53() -> MemoGroupView {
    MemoGroupView {
        schema: seq![
            ("unnamed"@, ConstantType::UInt64, true),
            ("unnamed"@, ConstantType::UInt64, true),
        ],
        refs: seq![
            Some(("nation"@, 0usize)),
            Some(("nation"@, 1usize)),
        ],
        correlation: None,
    }
}

/// Group 53 of the memo of TPC-H query 7.
fn q7_memo_group_53() -> (res: MemoGroupInfo)
    ensures
        res.wf(),
        res@ == q7_group_53(),
{
    let mut attributes: Vec<Attribute> = Vec::new();
    attributes.push(attribute("unnamed", ConstantType::UInt64, true));
    attributes.push(attribute("unnamed", ConstantType::UInt64, true));
    let mut refs: Vec<AttrRef> = Vec::new();
    refs.push(base_ref("nation", 0));
    refs.push(base_ref("nation", 1));
    proof {
        assert(attribute_views(attributes@) =~= q7_group_53().schema);
        assert(attr_ref_views(refs@) =~= q7_group_53().refs);
    }
    group_info(Schema { attributes }, refs, None)
}

/// The equality predicates of group 11801 of the memo of TPC-H query 7, in the order in
/// which they are added to its correlation.
pub open spec fn q7_group_11801_predicates() -> Seq<EqKey> {
    seq![
        (("orders"@, 1usize), ("customer"@, 0usize)),
        (("lineitem"@, 0usize), ("orders"@, 0usize)),
        (("supplier"@, 3usize), ("nation"@, 0usize)),
        (("supplier"@, 0usize), ("lineitem"@, 2usize)),
    ]
}

/// The model of group 11801 of the memo of TPC-H query 7.
pub open spec fn q7_group_11801() -> MemoGroupView {
    MemoGroupView {
        schema: seq![
            ("s_suppkey"@, ConstantType::Int32, false),
            ("s_name"@, ConstantType::Utf8String, false),
            ("s_address"@, ConstantType::Utf8String, false),
            ("s_nationkey"@, ConstantType::Int32, false),
            ("s_phone"@, ConstantType::Utf8String, false),
            ("s_acctbal"@, ConstantType::Decimal, false),
            ("s_comment"@, ConstantType::Utf8String, false),
            ("l_orderkey"@, ConstantType::Int32, false),
            ("l_partkey"@, ConstantType::Int32, false),
            ("l_suppkey"@, ConstantType::Int32, false),
            ("l_linenumber"@, ConstantType::Int32, false),
            ("l_quantity"@, ConstantType::Decimal, false),
            ("l_extendedprice"@, ConstantType::Decimal, false),
            ("l_discount"@, ConstantType::Decimal, false),
            ("l_tax"@, ConstantType::Decimal, false),
            ("l_returnflag"@, ConstantType::Utf8String, false),
            ("l_linestatus"@, ConstantType::Utf8String, false),
            ("l_shipdate"@, ConstantType::Date, false),
            ("l_commitdate"@, ConstantType::Date, false),
            ("l_receiptdate"@, ConstantType::Date, false),
            ("l_shipinstruct"@, ConstantType::Utf8String, false),
            ("l_shipmode"@, ConstantType::Utf8String, false),
            ("l_comment"@, ConstantType::Utf8String, false),
            ("o_orderkey"@, ConstantType::Int32, false),
            ("o_custkey"@, ConstantType::Int32, false),
            ("o_orderstatus"@, ConstantType::Utf8String, false),
            ("o_totalprice"@, ConstantType::Decimal, false),
            ("o_orderdate"@, ConstantType::Date, false),
            ("o_orderpriority"@, ConstantType::Utf8String, false),
            ("o_clerk"@, ConstantType::Utf8String, false),
            ("o_shippriority"@, ConstantType::Int32, false),
            ("o_comment"@, ConstantType::Utf8String, false),
            ("unnamed"@, ConstantType::UInt64, true),
            ("unnamed"@, ConstantType::UInt64, true),
            ("unnamed"@, ConstantType::UInt64, true),
            ("unnamed"@, ConstantType::UInt64, true),
        ],
        refs: seq![
            Some(("supplier"@, 0usize)),
            Some(("supplier"@, 1usize)),
            Some(("supplier"@, 2usize)),
            Some(("supplier"@, 3usize)),
            Some(("supplier"@, 4usize)),
            Some(("supplier"@, 5usize)),
            Some(("supplier"@, 6usize)),
            Some(("lineitem"@, 0usize)),
            Some(("lineitem"@, 1usize)),
            Some(("lineitem"@, 2usize)),
            Some(("lineitem"@, 3usize)),
            Some(("lineitem"@, 4usize)),
            Some(("lineitem"@, 5usize)),
            Some(("lineitem"@, 6usize)),
            Some(("lineitem"@, 7usize)),
            Some(("lineitem"@, 8usize)),
            Some(("lineitem"@, 9usize)),
            Some(("lineitem"@, 10usize)),
            Some(("lineitem"@, 11usize)),
            Some(("lineitem"@, 12usize)),
            Some(("lineitem"@, 13usize)),
            Some(("lineitem"@, 14usize)),
            Some(("lineitem"@, 15usize)),
            Some(("orders"@, 0usize)),
            Some(("orders"@, 1usize)),
            Some(("orders"@, 2usize)),
            Some(("orders"@, 3usize)),
            Some(("orders"@, 4usize)),
            Some(("orders"@, 5usize)),
            Some(("orders"@, 6usize)),
            Some(("orders"@, 7usize)),
            Some(("orders"@, 8usize)),
            Some(("customer"@, 0usize)),
            Some(("customer"@, 3usize)),
            Some(("nation"@, 0usize)),
            Some(("nation"@, 1usize)),
        ],
        correlation: Some(replay(q7_group_11801_predicates())),
    }
}

/// Group 11801 of the memo of TPC-H query 7.
fn q7_memo_group_11801() -> (res: MemoGroupInfo)
    ensures
        res.wf(),
        res@ == q7_group_11801(),
{
    let mut attributes: Vec<Attribute> = Vec::new();
    attributes.push(attribute("s_suppkey", ConstantType::Int32, false));
    attributes.push(attribute("s_name", ConstantType::Utf8String, false));
    attributes.push(attribute("s_address", ConstantType::Utf8String, false));
    attributes.push(attribute("s_nationkey", ConstantType::Int32, false));
    attributes.push(attribute("s_phone", ConstantType::Utf8String, false));
    attributes.push(attribute("s_acctbal", ConstantType::Decimal, false));
    attributes.push(attribute("s_comment", ConstantType::Utf8String, false));
    attributes.push(attribute("l_orderkey", ConstantType::Int32, false));
    attributes.push(attribute("l_partkey", ConstantType::Int32, false));
    attributes.push(attribute("l_suppkey", ConstantType::Int32, false));
    attributes.push(attribute("l_linenumber", ConstantType::Int32, false));
    attributes.push(attribute("l_quantity", ConstantType::Decimal, false));
    attributes.push(attribute("l_extendedprice", ConstantType::Decimal, false));
    attributes.push(attribute("l_discount", ConstantType::Decimal, false));
    attributes.push(attribute("l_tax", ConstantType::Decimal, false));
    attributes.push(attribute("l_returnflag", ConstantType::Utf8String, false));
    attributes.push(attribute("l_linestatus", ConstantType::Utf8String, false));
    attributes.push(attribute("l_shipdate", ConstantType::Date, false));
    attributes.push(attribute("l_commitdate", ConstantType::Date, false));
    attributes.push(attribute("l_receiptdate", ConstantType::Date, false));
    attributes.push(attribute("l_shipinstruct", ConstantType::Utf8String, false));
    attributes.push(attribute("l_shipmode", ConstantType::Utf8String, false));
    attributes.push(attribute("l_comment", ConstantType::Utf8String, false));
    attributes.push(attribute("o_orderkey", ConstantType::Int32, false));
    attributes.push(attribute("o_custkey", ConstantType::Int32, false));
    attributes.push(attribute("o_orderstatus", ConstantType::Utf8String, false));
    attributes.push(attribute("o_totalprice", ConstantType::Decimal, false));
    attributes.push(attribute("o_orderdate", ConstantType::Date, false));
    attributes.push(attribute("o_orderpriority", ConstantType::Utf8String, false));
    attributes.push(attribute("o_clerk", ConstantType::Utf8String, false));
    attributes.push(attribute("o_shippriority", ConstantType::Int32, false));
    attributes.push(attribute("o_comment", ConstantType::Utf8String, false));
    attributes.push(attribute("unnamed", ConstantType::UInt64, true));
    attributes.push(attribute("unnamed", ConstantType::UInt64, true));
    attributes.push(attribute("unnamed", ConstantType::UInt64, true));
    attributes.push(attribute("unnamed", ConstantType::UInt64, true));
    let mut refs: Vec<AttrRef> = Vec::new();
    refs.push(base_ref("supplier", 0));
    refs.push(base_ref("supplier", 1));
    refs.push(base_ref("supplier", 2));
    refs.push(base_ref("supplier", 3));
    refs.push(base_ref("supplier", 4));
    refs.push(base_ref("supplier", 5));
    refs.push(base_ref("supplier", 6));
    refs.push(base_ref("lineitem", 0));
    refs.push(base_ref("lineitem", 1));
    refs.push(base_ref("lineitem", 2));
    refs.push(base_ref("lineitem", 3));
    refs.push(base_ref("lineitem", 4));
    refs.push(base_ref("lineitem", 5));
    refs.push(base_ref("lineitem", 6));
    refs.push(base_ref("lineitem", 7));
    refs.push(base_ref("lineitem", 8));
    refs.push(base_ref("lineitem", 9));
    refs.push(base_ref("lineitem", 10));
    refs.push(base_ref("lineitem", 11));
    refs.push(base_ref("lineitem", 12));
    refs.push(base_ref("lineitem", 13));
    refs.push(base_ref("lineitem", 14));
    refs.push(base_ref("lineitem", 15));
    refs.push(base_ref("orders", 0));
    refs.push(base_ref("orders", 1));
    refs.push(base_ref("orders", 2));
    refs.push(base_ref("orders", 3));
    refs.push(base_ref("orders", 4));
    refs.push(base_ref("orders", 5));
    refs.push(base_ref("orders", 6));
    refs.push(base_ref("orders", 7));
    refs.push(base_ref("orders", 8));
    refs.push(base_ref("customer", 0));
    refs.push(base_ref("customer", 3));
    refs.push(base_ref("nation", 0));
    refs.push(base_ref("nation", 1));
    proof {
        assert(attribute_views(attributes@) =~= q7_group_11801().schema);
        assert(attr_ref_views(refs@) =~= q7_group_11801().refs);
    }
    let mut predicates: Vec<EqPredicate> = Vec::new();
    predicates.push(eq_predicate("orders", 1, "customer", 0));
    predicates.push(eq_predicate("lineitem", 0, "orders", 0));
    predicates.push(eq_predicate("supplier", 3, "nation", 0));
    predicates.push(eq_predicate("supplier", 0, "lineitem", 2));
    assert(eq_predicate_views(predicates@) =~= q7_group_11801_predicates());
    group_info(Schema { attributes }, refs, Some(correlation_of(predicates)))
}

/// The model of group 82 of the memo of TPC-H query 7.
pub open spec fn q7_group_82() -> MemoGroupView {
    MemoGroupView {
        schema: seq![
            ("n_nationkey"@, ConstantType::Int32, false),
            ("n_name"@, ConstantType::Utf8String, false),
            ("n_regionkey"@, ConstantType::Int32, false),
            ("n_comment"@, ConstantType::Utf8String, true),
        ],
        refs: seq![
            Some(("nation"@, 0usize)),
            Some(("nation"@, 1usize)),
            Some(("nation"@, 2usize)),
            Some(("nation"@, 3usize)),
        ],
        correlation: None,
    }
}

/// Group 82 of the memo of TPC-H query 7.
fn q7_memo_group_82() -> (res: MemoGroupInfo)
    ensures
        res.wf(),
        res@ == q7_group_82(),
{
    let mut attributes: Vec<Attribute> = Vec::new();
    attributes.push(attribute("n_nationkey", ConstantType::Int32, false));
    attributes.push(attribute("n_name", ConstantType::Utf8String, false));
    attributes.push(attribute("n_regionkey", ConstantType::Int32, false));
    attributes.push(attribute("n_comment", ConstantType::Utf8String, true));
    let mut refs: Vec<AttrRef> = Vec::new();
    refs.push(base_ref("nation", 0));
    refs.push(base_ref("nation", 1));
    refs.push(base_ref("nation", 2));
    refs.push(base_ref("nation", 3));
    proof {
        assert(attribute_views(attributes@) =~= q7_group_82().schema);
        assert(attr_ref_views(refs@) =~= q7_group_82().refs);
    }
    group_info(Schema { attributes }, refs, None)
}

/// The model of group 64 of the memo of TPC-H query 7.
pub open spec fn q7_group_64() -> MemoGroupView {
    MemoGroupView {
        schema: seq![
            ("unnamed"@, ConstantType::UInt64, true),
            ("unnamed"@, ConstantType::UInt64, true),
        ],
        refs: seq![
            Some(("nation"@, 0usize)),
            Some(("nation"@, 1usize)),
        ],
        correlation: None,
    }
}

/// Group 64 of the memo of TPC-H query 7.
fn q7_memo_group_64() -> (res: MemoGroupInfo)
    ensures
        res.wf(),
        res@ == q7_group_64(),
{
    let mut attributes: Vec<Attribute> = Vec::new();
    attributes.push(attribute("unnamed", ConstantType::UInt64, true));
    attributes.push(attribute("unnamed", ConstantType::UInt64, true));
    let mut refs: Vec<AttrRef> = Vec::new();
    refs.push(base_ref("nation", 0));
    refs.push(base_ref("nation", 1));
    proof {
        assert(attribute_views(attributes@) =~= q7_group_64().schema);
        assert(attr_ref_views(refs@) =~= q7_group_64().refs);
    }
    group_info(Schema { attributes }, refs, None)
}

/// The equality predicates of group 12177 of the memo of TPC-H query 7, in the order in
/// which they are added to its correlation.
pub open spec fn q7_group_12177_predicates() -> Seq<EqKey> {
    seq![
        (("customer"@, 3usize), ("nation"@, 0usize)),
        (("orders"@, 1usize), ("customer"@, 0usize)),
        (("lineitem"@, 0usize), ("orders"@, 0usize)),
        (("supplier"@, 3usize), ("nation"@, 0usize)),
        (("supplier"@, 0usize), ("lineitem"@, 2usize)),
    ]
}

/// The model of group 12177 of the memo of TPC-H query 7.
pub open spec fn q7_group_12177() -> MemoGroupView {
    MemoGroupView {
        schema: seq![
            ("s_suppkey"@, ConstantType::Int32, false),
            ("s_name"@, ConstantType::Utf8String, false),
            ("s_address"@, ConstantType::Utf8String, false),
            ("s_nationkey"@, ConstantType::Int32, false),
            ("s_phone"@, ConstantType::Utf8String, false),
            ("s_acctbal"@, ConstantType::Decimal, false),
            ("s_comment"@, ConstantType::Utf8String, false),
            ("l_orderkey"@, ConstantType::Int32, false),
            ("l_partkey"@, ConstantType::Int32, false),
            ("l_suppkey"@, ConstantType::Int32, false),
            ("l_linenumber"@, ConstantType::Int32, false),
            ("l_quantity"@, ConstantType::Decimal, false),
            ("l_extendedprice"@, ConstantType::Decimal, false),
            ("l_discount"@, ConstantType::Decimal, false),
            ("l_tax"@, ConstantType::Decimal, false),
            ("l_returnflag"@, ConstantType::Utf8String, false),
            ("l_linestatus"@, ConstantType::Utf8String, false),
            ("l_shipdate"@, ConstantType::Date, false),
            ("l_commitdate"@, ConstantType::Date, false),
            ("l_receiptdate"@, ConstantType::Date, false),
            ("l_shipinstruct"@, ConstantType::Utf8String, false),
            ("l_shipmode"@, ConstantType::Utf8String, false),
            ("l_comment"@, ConstantType::Utf8String, false),
            ("o_orderkey"@, ConstantType::Int32, false),
            ("o_custkey"@, ConstantType::Int32, false),
            ("o_orderstatus"@, ConstantType::Utf8String, false),
            ("o_totalprice"@, ConstantType::Decimal, false),
            ("o_orderdate"@, ConstantType::Date, false),
            ("o_orderpriority"@, ConstantType::Utf8String, false),
            ("o_clerk"@, ConstantType::Utf8String, false),
            ("o_shippriority"@, ConstantType::Int32, false),
            ("o_comment"@, ConstantType::Utf8String, false),
            ("unnamed"@, ConstantType::UInt64, true),
            ("unnamed"@, ConstantType::UInt64, true),
            ("unnamed"@, ConstantType::UInt64, true),
            ("unnamed"@, ConstantType::UInt64, true),
            ("unnamed"@, ConstantType::UInt64, true),
            ("unnamed"@, ConstantType::UInt64, true),
        ],
        refs: seq![
            Some(("supplier"@, 0usize)),
            Some(("supplier"@, 1usize)),
            Some(("supplier"@, 2usize)),
            Some(("supplier"@, 3usize)),
            Some(("supplier"@, 4usize)),
            Some(("supplier"@, 5usize)),
            Some(("supplier"@, 6usize)),
            Some(("lineitem"@, 0usize)),
            Some(("lineitem"@, 1usize)),
            Some(("lineitem"@, 2usize)),
            Some(("lineitem"@, 3usize)),
            Some(("lineitem"@, 4usize)),
            Some(("lineitem"@, 5usize)),
            Some(("lineitem"@, 6usize)),
            Some(("lineitem"@, 7usize)),
            Some(("lineitem"@, 8usize)),
            Some(("lineitem"@, 9usize)),
            Some(("lineitem"@, 10usize)),
            Some(("lineitem"@, 11usize)),
            Some(("lineitem"@, 12usize)),
            Some(("lineitem"@, 13usize)),
            Some(("lineitem"@, 14usize)),
            Some(("lineitem"@, 15usize)),
            Some(("orders"@, 0usize)),
            Some(("orders"@, 1usize)),
            Some(("orders"@, 2usize)),
            Some(("orders"@, 3usize)),
            Some(("orders"@, 4usize)),
            Some(("orders"@, 5usize)),
            Some(("orders"@, 6usize)),
            Some(("orders"@, 7usize)),
            Some(("orders"@, 8usize)),
            Some(("customer"@, 0usize)),
            Some(("customer"@, 3usize)),
            Some(("nation"@, 0usize)),
            Some(("nation"@, 1usize)),
            Some(("nation"@, 0usize)),
            Some(("nation"@, 1usize)),
        ],
        correlation: Some(replay(q7_group_12177_predicates())),
    }
}

/// Group 12177 of the memo of TPC-H query 7.
fn q7_memo_group_12177() -> (res: MemoGroupInfo)
    ensures
        res.wf(),
        res@ == q7_group_12177(),
{
    let mut attributes: Vec<Attribute> = Vec::new();
    attributes.push(attribute("s_suppkey", ConstantType::Int32, false));
    attributes.push(attribute("s_name", ConstantType::Utf8String, false));
    attributes.push(attribute("s_address", ConstantType::Utf8String, false));
    attributes.push(attribute("s_nationkey", ConstantType::Int32, false));
    attributes.push(attribute("s_phone", ConstantType::Utf8String, false));
    attributes.push(attribute("s_acctbal", ConstantType::Decimal, false));
    attributes.push(attribute("s_comment", ConstantType::Utf8String, false));
    attributes.push(attribute("l_orderkey", ConstantType::Int32, false));
    attributes.push(attribute("l_partkey", ConstantType::Int32, false));
    attributes.push(attribute("l_suppkey", ConstantType::Int32, false));
    attributes.push(attribute("l_linenumber", ConstantType::Int32, false));
    attributes.push(attribute("l_quantity", ConstantType::Decimal, false));
    attributes.push(attribute("l_extendedprice", ConstantType::Decimal, false));
    attributes.push(attribute("l_discount", ConstantType::Decimal, false));
    attributes.push(attribute("l_tax", ConstantType::Decimal, false));
    attributes.push(attribute("l_returnflag", ConstantType::Utf8String, false));
    attributes.push(attribute("l_linestatus", ConstantType::Utf8String, false));
    attributes.push(attribute("l_shipdate", ConstantType::Date, false));
    attributes.push(attribute("l_commitdate", ConstantType::Date, false));
    attributes.push(attribute("l_receiptdate", ConstantType::Date, false));
    attributes.push(attribute("l_shipinstruct", ConstantType::Utf8String, false));
    attributes.push(attribute("l_shipmode", ConstantType::Utf8String, false));
    attributes.push(attribute("l_comment", ConstantType::Utf8String, false));
    attributes.push(attribute("o_orderkey", ConstantType::Int32, false));
    attributes.push(attribute("o_custkey", ConstantType::Int32, false));
    attributes.push(attribute("o_orderstatus", ConstantType::Utf8String, false));
    attributes.push(attribute("o_totalprice", ConstantType::Decimal, false));
    attributes.push(attribute("o_orderdate", ConstantType::Date, false));
    attributes.push(attribute("o_orderpriority", ConstantType::Utf8String, false));
    attributes.push(attribute("o_clerk", ConstantType::Utf8String, false));
    attributes.push(attribute("o_shippriority", ConstantType::Int32, false));
    attributes.push(attribute("o_comment", ConstantType::Utf8String, false));
    attributes.push(attribute("unnamed", ConstantType::UInt64, true));
    attributes.push(attribute("unnamed", ConstantType::UInt64, true));
    attributes.push(attribute("unnamed", ConstantType::UInt64, true));
    attributes.push(attribute("unnamed", ConstantType::UInt64, true));
    attributes.push(attribute("unnamed", ConstantType::UInt64, true));
    attributes.push(attribute("unnamed", ConstantType::UInt64, true));
    let mut refs: Vec<AttrRef> = Vec::new();
    refs.push(base_ref("supplier", 0));
    refs.push(base_ref("supplier", 1));
    refs.push(base_ref("supplier", 2));
    refs.push(base_ref("supplier", 3));
    refs.push(base_ref("supplier", 4));
    refs.push(base_ref("supplier", 5));
    refs.push(base_ref("supplier", 6));
    refs.push(base_ref("lineitem", 0));
    refs.push(base_ref("lineitem", 1));
    refs.push(base_ref("lineitem", 2));
    refs.push(base_ref("lineitem", 3));
    refs.push(base_ref("lineitem", 4));
    refs.push(base_ref("lineitem", 5));
    refs.push(base_ref("lineitem", 6));
    refs.push(base_ref("lineitem", 7));
    refs.push(base_ref("lineitem", 8));
    refs.push(base_ref("lineitem", 9));
    refs.push(base_ref("lineitem", 10));
    refs.push(base_ref("lineitem", 11));
    refs.push(base_ref("lineitem", 12));
    refs.push(base_ref("lineitem", 13));
    refs.push(base_ref("lineitem", 14));
    refs.push(base_ref("lineitem", 15));
    refs.push(base_ref("orders", 0));
    refs.push(base_ref("orders", 1));
    refs.push(base_ref("orders", 2));
    refs.push(base_ref("orders", 3));
    refs.push(base_ref("orders", 4));
    refs.push(base_ref("orders", 5));
    refs.push(base_ref("orders", 6));
    refs.push(base_ref("orders", 7));
    refs.push(base_ref("orders", 8));
    refs.push(base_ref("customer", 0));
    refs.push(base_ref("customer", 3));
    refs.push(base_ref("nation", 0));
    refs.push(base_ref("nation", 1));
    refs.push(base_ref("nation", 0));
    refs.push(base_ref("nation", 1));
    proof {
        assert(attribute_views(attributes@) =~= q7_group_12177().schema);
        assert(attr_ref_views(refs@) =~= q7_group_12177().refs);
    }
    let mut predicates: Vec<EqPredicate> = Vec::new();
    predicates.push(eq_predicate("customer", 3, "nation", 0));
    predicates.push(eq_predicate("orders", 1, "customer", 0));
    predicates.push(eq_predicate("lineitem", 0, "orders", 0));
    predicates.push(eq_predicate("supplier", 3, "nation", 0));
    predicates.push(eq_predicate("supplier", 0, "lineitem", 2));
    assert(eq_predicate_views(predicates@) =~= q7_group_12177_predicates());
    group_info(Schema { attributes }, refs, Some(correlation_of(predicates)))
}

/// The equality predicates of group 67 of the memo of TPC-H query 7, in the order in
/// which they are added to its correlation.
pub open spec fn q7_group_67_predicates() -> Seq<EqKey> {
    seq![
        (("customer"@, 3usize), ("nation"@, 0usize)),
        (("supplier"@, 0usize), ("lineitem"@, 2usize)),
        (("lineitem"@, 0usize), ("orders"@, 0usize)),
        (("orders"@, 1usize), ("customer"@, 0usize)),
        (("supplier"@, 3usize), ("nation"@, 0usize)),
    ]
}

/// The model of group 67 of the memo of TPC-H query 7.
pub open spec fn q7_group_67() -> MemoGroupView {
    MemoGroupView {
        schema: seq![
            ("unnamed"@, ConstantType::UInt64, true),
            ("unnamed"@, ConstantType::UInt64, true),
            ("unnamed"@, ConstantType::UInt64, true),
            ("unnamed"@, ConstantType::UInt64, true),
            ("unnamed"@, ConstantType::UInt64, true),
            ("unnamed"@, ConstantType::UInt64, true),
            ("unnamed"@, ConstantType::UInt64, true),
        ],
        refs: seq![
            Some(("lineitem"@, 5usize)),
            Some(("lineitem"@, 6usize)),
            Some(("lineitem"@, 10usize)),
            Some(("customer"@, 3usize)),
            Some(("nation"@, 1usize)),
            Some(("nation"@, 0usize)),
            Some(("nation"@, 1usize)),
        ],
        correlation: Some(replay(q7_group_67_predicates())),
    }
}

/// Group 67 of the memo of TPC-H query 7.
fn q7_memo_group_67() -> (res: MemoGroupInfo)
    ensures
        res.wf(),
        res@ == q7_group_67(),
{
    let mut attributes: Vec<Attribute> = Vec::new();
    attributes.push(attribute("unnamed", ConstantType::UInt64, true));
    attributes.push(attribute("unnamed", ConstantType::UInt64, true));
    attributes.push(attribute("unnamed", ConstantType::UInt64, true));
    attributes.push(attribute("unnamed", ConstantType::UInt64, true));
    attributes.push(attribute("unnamed", ConstantType::UInt64, true));
    attributes.push(attribute("unnamed", ConstantType::UInt64, true));
    attributes.push(attribute("unnamed", ConstantType::UInt64, true));
    let mut refs: Vec<AttrRef> = Vec::new();
    refs.push(base_ref("lineitem", 5));
    refs.push(base_ref("lineitem", 6));
    refs.push(base_ref("lineitem", 10));
    refs.push(base_ref("customer", 3));
    refs.push(base_ref("nation", 1));
    refs.push(base_ref("nation", 0));
    refs.push(base_ref("nation", 1));
    proof {
        assert(attribute_views(attributes@) =~= q7_group_67().schema);
        assert(attr_ref_views(refs@) =~= q7_group_67().refs);
    }
    let mut predicates: Vec<EqPredicate> = Vec::new();
    predicates.push(eq_predicate("customer", 3, "nation", 0));
    predicates.push(eq_predicate("supplier", 0, "lineitem", 2));
    predicates.push(eq_predicate("lineitem", 0, "orders", 0));
    predicates.push(eq_predicate("orders", 1, "customer", 0));
    predicates.push(eq_predicate("supplier", 3, "nation", 0));
    assert(eq_predicate_views(predicates@) =~= q7_group_67_predicates());
    group_info(Schema { attributes }, refs, Some(correlation_of(predicates)))
}

/// The equality predicates of group 70 of the memo of TPC-H query 7, in the order in
/// which they are added to its correlation.
pub open spec fn q7_group_70_predicates() -> Seq<EqKey> {
    seq![
        (("customer"@, 3usize), ("nation"@, 0usize)),
        (("supplier"@, 0usize), ("lineitem"@, 2usize)),
        (("lineitem"@, 0usize), ("orders"@, 0usize)),
        (("orders"@, 1usize), ("customer"@, 0usize)),
        (("supplier"@, 3usize), ("nation"@, 0usize)),
    ]
}

/// The model of group 70 of the memo of TPC-H query 7.
pub open spec fn q7_group_70() -> MemoGroupView {
    MemoGroupView {
        schema: seq![
            ("unnamed"@, ConstantType::UInt64, true),
            ("unnamed"@, ConstantType::UInt64, true),
        ],
        refs: seq![
            Some(("nation"@, 1usize)),
            Some(("nation"@, 1usize)),
            None,
            None,
        ],
        correlation: Some(replay(q7_group_70_predicates())),
    }
}

/// Group 70 of the memo of TPC-H query 7.
fn q7_memo_group_70() -> (res: MemoGroupInfo)
    ensures
        res.wf(),
        res@ == q7_group_70(),
{
    let mut attributes: Vec<Attribute> = Vec::new();
    attributes.push(attribute("unnamed", ConstantType::UInt64, true));
    attributes.push(attribute("unnamed", ConstantType::UInt64, true));
    let mut refs: Vec<AttrRef> = Vec::new();
    refs.push(base_ref("nation", 1));
    refs.push(base_ref("nation", 1));
    refs.push(AttrRef::Derived);
    refs.push(AttrRef::Derived);
    proof {
        assert(attribute_views(attributes@) =~= q7_group_70().schema);
        assert(attr_ref_views(refs@) =~= q7_group_70().refs);
    }
    let mut predicates: Vec<EqPredicate> = Vec::new();
    predicates.push(eq_predicate("customer", 3, "nation", 0));
    predicates.push(eq_predicate("supplier", 0, "lineitem", 2));
    predicates.push(eq_predicate("lineitem", 0, "orders", 0));
    predicates.push(eq_predicate("orders", 1, "customer", 0));
    predicates.push(eq_predicate("supplier", 3, "nation", 0));
    assert(eq_predicate_views(predicates@) =~= q7_group_70_predicates());
    group_info(Schema { attributes }, refs, Some(correlation_of(predicates)))
}

/// The model of group 74 of the memo of TPC-H query 7.
pub open spec fn q7_group_74() -> MemoGroupView {
    MemoGroupView {
        schema: seq![
            ("unnamed"@, ConstantType::Binary, true),
            ("unnamed"@, ConstantType::UInt64, true),
            ("unnamed"@, ConstantType::UInt64, true),
            ("unnamed"@, ConstantType::UInt64, true),
        ],
        refs: seq![
            Some(("nation"@, 1usize)),
            Some(("nation"@, 1usize)),
            None,
            None,
        ],
        correlation: None,
    }
}

/// Group 74 of the memo of TPC-H query 7.
fn q7_memo_group_74() -> (res: MemoGroupInfo)
    ensures
        res.wf(),
        res@ == q7_group_74(),
{
    let mut attributes: Vec<Attribute> = Vec::new();
    attributes.push(attribute("unnamed", ConstantType::Binary, true));
    attributes.push(attribute("unnamed", ConstantType::UInt64, true));
    attributes.push(attribute("unnamed", ConstantType::UInt64, true));
    attributes.push(attribute("unnamed", ConstantType::UInt64, true));
    let mut refs: Vec<AttrRef> = Vec::new();
    refs.push(base_ref("nation", 1));
    refs.push(base_ref("nation", 1));
    refs.push(AttrRef::Derived);
    refs.push(AttrRef::Derived);
    proof {
        assert(attribute_views(attributes@) =~= q7_group_74().schema);
        assert(attr_ref_views(refs@) =~= q7_group_74().refs);
    }
    group_info(Schema { attributes }, refs, None)
}

/// The model of group 77 of the memo of TPC-H query 7.
pub open spec fn q7_group_77() -> MemoGroupView {
    MemoGroupView {
        schema: seq![
            ("unnamed"@, ConstantType::Binary, true),
            ("unnamed"@, ConstantType::UInt64, true),
            ("unnamed"@, ConstantType::UInt64, true),
            ("unnamed"@, ConstantType::UInt64, true),
        ],
        refs: seq![
            Some(("nation"@, 1usize)),
            Some(("nation"@, 1usize)),
            None,
            None,
        ],
        correlation: None,
    }
}

/// Group 77 of the memo of TPC-H query 7.
fn q7_memo_group_77() -> (res: MemoGroupInfo)
    ensures
        res.wf(),
        res@ == q7_group_77(),
{
    let mut attributes: Vec<Attribute> = Vec::new();
    attributes.push(attribute("unnamed", ConstantType::Binary, true));
    attributes.push(attribute("unnamed", ConstantType::UInt64, true));
    attributes.push(attribute("unnamed", ConstantType::UInt64, true));
    attributes.push(attribute("unnamed", ConstantType::UInt64, true));
    let mut refs: Vec<AttrRef> = Vec::new();
    refs.push(base_ref("nation", 1));
    refs.push(base_ref("nation", 1));
    refs.push(AttrRef::Derived);
    refs.push(AttrRef::Derived);
    proof {
        assert(attribute_views(attributes@) =~= q7_group_77().schema);
        assert(attr_ref_views(refs@) =~= q7_group_77().refs);
    }
    group_info(Schema { attributes }, refs, None)
}

/// The model of the memo of TPC-H query 7: its groups, each with its id, in the order in
/// which they are put into the memo.
pub open spec fn q7_memo() -> Seq<(u64, MemoGroupView)> {
    seq![
        (2u64, q7_group_2()),
        (8u64, q7_group_8()),
        (96u64, q7_group_96()),
        (118u64, q7_group_118()),
        (23u64, q7_group_23()),
        (542u64, q7_group_542()),
        (35u64, q7_group_35()),
        (38u64, q7_group_38()),
        (11439u64, q7_group_11439()),
        (47u64, q7_group_47()),
        (89u64, q7_group_89()),
        (53u64, q7_group_53()),
        (11801u64, q7_group_11801()),
        (82u64, q7_group_82()),
        (64u64, q7_group_64()),
        (12177u64, q7_group_12177()),
        (67u64, q7_group_67()),
        (70u64, q7_group_70()),
        (74u64, q7_group_74()),
        (77u64, q7_group_77()),
    ]
}

/// The groups of the memo of TPC-H query 7, each with its id, in the order in which
/// they are put into the memo.
fn q7_memo_groups() -> (res: Vec<(u64, MemoGroupInfo)>)
    ensures
        memo_wf(res@),
        memo_view(res@) == q7_memo(),
        group_ids(memo_view(res@)).no_duplicates(),
{
    let mut memo: Vec<(u64, MemoGroupInfo)> = Vec::new();
    memo.push((2, q7_memo_group_2()));
    memo.push((8, q7_memo_group_8()));
    memo.push((96, q7_memo_group_96()));
    memo.push((118, q7_memo_group_118()));
    memo.push((23, q7_memo_group_23()));
    memo.push((542, q7_memo_group_542()));
    memo.push((35, q7_memo_group_35()));
    memo.push((38, q7_memo_group_38()));
    memo.push((11439, q7_memo_group_11439()));
    memo.push((47, q7_memo_group_47()));
    memo.push((89, q7_memo_group_89()));
    memo.push((53, q7_memo_group_53()));
    memo.push((11801, q7_memo_group_11801()));
    memo.push((82, q7_memo_group_82()));
    memo.push((64, q7_memo_group_64()));
    memo.push((12177, q7_memo_group_12177()));
    memo.push((67, q7_memo_group_67()));
    memo.push((70, q7_memo_group_70()));
    memo.push((74, q7_memo_group_74()));
    memo.push((77, q7_memo_group_77()));
    assert(memo_view(memo@) =~= q7_memo());
    assert(group_ids(q7_memo()).no_duplicates());
    memo
}

/// The memo of TPC-H query 7: each group under its id.
pub fn create_tpch_q7_memo() -> (res: HashMap<u64, MemoGroupInfo>)
    ensures
        group_map_wf(res@),
        group_map_views(res@) == memo_map_view(q7_memo()),
        res@.dom() == group_ids(q7_memo()).to_set(),
        forall|i: int|
            0 <= i < q7_memo().len() ==> group_map_views(res@)[(#[trigger] q7_memo()[i]).0]
                == q7_memo()[i].1,
        forall|i: int|
            0 <= i < q7_hash_joins().len() ==> join_recorded(
                group_map_views(res@),
                #[trigger] q7_hash_joins()[i],
            ),
        forall|i: int|
            0 <= i < q7_unary_ops().len() ==> unary_recorded(
                group_map_views(res@),
                #[trigger] q7_unary_ops()[i],
            ),
{
    let groups = q7_memo_groups();
    proof {
        lemma_memo_map_view_lookup(q7_memo());
        lemma_q7_hash_joins_recorded();
        lemma_q7_unary_ops_recorded();
    }
    memo_map(groups)
}


/// The hash joins of the plan of TPC-H query 7: for each, the group it produces, the groups
/// it joins, and the positions of its key attributes in their outputs.
pub open spec fn q7_hash_joins() -> Seq<HashJoinView> {
    seq![
        HashJoinView {
            group: 11801,
            left: 11439,
            right: 53,
            left_keys: seq![3int],
            right_keys: seq![0int],
        },
        HashJoinView {
            group: 11439,
            left: 542,
            right: 38,
            left_keys: seq![24int],
            right_keys: seq![0int],
        },
        HashJoinView {
            group: 542,
            left: 118,
            right: 23,
            left_keys: seq![7int],
            right_keys: seq![0int],
        },
        HashJoinView {
            group: 118,
            left: 2,
            right: 96,
            left_keys: seq![0int],
            right_keys: seq![2int],
        },
    ]
}

/// No group id occurs twice in the memo of TPC-H query 7.
pub proof fn lemma_q7_ids_distinct()
    ensures
        group_ids(q7_memo()).no_duplicates(),
{
}

/// The memo of TPC-H query 7 agrees with the hash join that produces group 11801.
proof fn lemma_q7_join_11801()
    ensures
        join_recorded(memo_map_view(q7_memo()), q7_hash_joins()[0]),
{
    let memo = q7_memo();
    lemma_q7_ids_distinct();
    lemma_memo_map_view_lookup(memo);
    let m = memo_map_view(memo);
    let j = q7_hash_joins()[0];
    assert(memo[12] == (11801u64, q7_group_11801()));
    assert(group_ids(memo)[12] == 11801u64);
    assert(m.contains_key(11801u64));
    assert(memo[8] == (11439u64, q7_group_11439()));
    assert(group_ids(memo)[8] == 11439u64);
    assert(m.contains_key(11439u64));
    assert(memo[11] == (53u64, q7_group_53()));
    assert(group_ids(memo)[11] == 53u64);
    assert(m.contains_key(53u64));
    let g = q7_group_11801();
    let l = q7_group_11439();
    let r = q7_group_53();
    assert(m[11801u64] == g && m[11439u64] == l && m[53u64] == r);
    assert(g.schema =~= l.schema + r.schema);
    assert(g.refs =~= l.refs + r.refs);
    lemma_replay_records(q7_group_11801_predicates());
    let pg = q7_group_11801_predicates();
    assert(recorded(g) == replay(pg).preds);
    lemma_replay_records(q7_group_11439_predicates());
    let pl = q7_group_11439_predicates();
    assert(recorded(l) == replay(pl).preds);
    assert(recorded(r) =~= Seq::<EqKey>::empty());
    assert(join_key(l, r, j, 0) == (("supplier"@, 3usize), ("nation"@, 0usize)));
    assert forall|p: EqKey| #[trigger] recorded(l).contains(p) implies recorded(g).contains(p) by {
        let i = choose|i: int| 0 <= i < pl.len() && pl[i] == p;
        if i == 0 {
            assert(pg[0] == p);
        } else if i == 1 {
            assert(pg[1] == p);
        } else if i == 2 {
            assert(pg[3] == p);
        }
    }
    assert forall|k: int| 0 <= k < j.left_keys.len() implies recorded(g).contains(#[trigger] join_key(l, r, j, k))
        || recorded(g).contains(flipped(join_key(l, r, j, k))) by {
        if k == 0 {
            assert(pg[2] == join_key(l, r, j, 0));
        }
    }
    assert forall|p: EqKey| #[trigger] recorded(g).contains(p) implies recorded(l).contains(p)
        || recorded(r).contains(p) || is_join_key(l, r, j, p) by {
        let i = choose|i: int| 0 <= i < pg.len() && pg[i] == p;
        if i == 0 {
            assert(pl[0] == p);
        } else if i == 1 {
            assert(pl[1] == p);
        } else if i == 2 {
            assert(p == join_key(l, r, j, 0) || p == flipped(join_key(l, r, j, 0)));
        } else if i == 3 {
            assert(pl[2] == p);
        }
    }
}

/// The memo of TPC-H query 7 agrees with the hash join that produces group 11439.
proof fn lemma_q7_join_11439()
    ensures
        join_recorded(memo_map_view(q7_memo()), q7_hash_joins()[1]),
{
    let memo = q7_memo();
    lemma_q7_ids_distinct();
    lemma_memo_map_view_lookup(memo);
    let m = memo_map_view(memo);
    let j = q7_hash_joins()[1];
    assert(memo[8] == (11439u64, q7_group_11439()));
    assert(group_ids(memo)[8] == 11439u64);
    assert(m.contains_key(11439u64));
    assert(memo[5] == (542u64, q7_group_542()));
    assert(group_ids(memo)[5] == 542u64);
    assert(m.contains_key(542u64));
    assert(memo[7] == (38u64, q7_group_38()));
    assert(group_ids(memo)[7] == 38u64);
    assert(m.contains_key(38u64));
    let g = q7_group_11439();
    let l = q7_group_542();
    let r = q7_group_38();
    assert(m[11439u64] == g && m[542u64] == l && m[38u64] == r);
    assert(g.schema =~= l.schema + r.schema);
    assert(g.refs =~= l.refs + r.refs);
    lemma_replay_records(q7_group_11439_predicates());
    let pg = q7_group_11439_predicates();
    assert(recorded(g) == replay(pg).preds);
    lemma_replay_records(q7_group_542_predicates());
    let pl = q7_group_542_predicates();
    assert(recorded(l) == replay(pl).preds);
    assert(recorded(r) =~= Seq::<EqKey>::empty());
    assert(join_key(l, r, j, 0) == (("orders"@, 1usize), ("customer"@, 0usize)));
    assert forall|p: EqKey| #[trigger] recorded(l).contains(p) implies recorded(g).contains(p) by {
        let i = choose|i: int| 0 <= i < pl.len() && pl[i] == p;
        if i == 0 {
            assert(pg[1] == p);
        } else if i == 1 {
            assert(pg[2] == p);
        }
    }
    assert forall|k: int| 0 <= k < j.left_keys.len() implies recorded(g).contains(#[trigger] join_key(l, r, j, k))
        || recorded(g).contains(flipped(join_key(l, r, j, k))) by {
        if k == 0 {
            assert(pg[0] == join_key(l, r, j, 0));
        }
    }
    assert forall|p: EqKey| #[trigger] recorded(g).contains(p) implies recorded(l).contains(p)
        || recorded(r).contains(p) || is_join_key(l, r, j, p) by {
        let i = choose|i: int| 0 <= i < pg.len() && pg[i] == p;
        if i == 0 {
            assert(p == join_key(l, r, j, 0) || p == flipped(join_key(l, r, j, 0)));
        } else if i == 1 {
            assert(pl[0] == p);
        } else if i == 2 {
            assert(pl[1] == p);
        }
    }
}

/// The memo of TPC-H query 7 agrees with the hash join that produces group 542.
proof fn lemma_q7_join_542()
    ensures
        join_recorded(memo_map_view(q7_memo()), q7_hash_joins()[2]),
{
    let memo = q7_memo();
    lemma_q7_ids_distinct();
    lemma_memo_map_view_lookup(memo);
    let m = memo_map_view(memo);
    let j = q7_hash_joins()[2];
    assert(memo[5] == (542u64, q7_group_542()));
    assert(group_ids(memo)[5] == 542u64);
    assert(m.contains_key(542u64));
    assert(memo[3] == (118u64, q7_group_118()));
    assert(group_ids(memo)[3] == 118u64);
    assert(m.contains_key(118u64));
    assert(memo[4] == (23u64, q7_group_23()));
    assert(group_ids(memo)[4] == 23u64);
    assert(m.contains_key(23u64));
    let g = q7_group_542();
    let l = q7_group_118();
    let r = q7_group_23();
    assert(m[542u64] == g && m[118u64] == l && m[23u64] == r);
    assert(g.schema =~= l.schema + r.schema);
    assert(g.refs =~= l.refs + r.refs);
    lemma_replay_records(q7_group_542_predicates());
    let pg = q7_group_542_predicates();
    assert(recorded(g) == replay(pg).preds);
    lemma_replay_records(q7_group_118_predicates());
    let pl = q7_group_118_predicates();
    assert(recorded(l) == replay(pl).preds);
    assert(recorded(r) =~= Seq::<EqKey>::empty());
    assert(join_key(l, r, j, 0) == (("lineitem"@, 0usize), ("orders"@, 0usize)));
    assert forall|p: EqKey| #[trigger] recorded(l).contains(p) implies recorded(g).contains(p) by {
        let i = choose|i: int| 0 <= i < pl.len() && pl[i] == p;
        if i == 0 {
            assert(pg[1] == p);
        }
    }
    assert forall|k: int| 0 <= k < j.left_keys.len() implies recorded(g).contains(#[trigger] join_key(l, r, j, k))
        || recorded(g).contains(flipped(join_key(l, r, j, k))) by {
        if k == 0 {
            assert(pg[0] == join_key(l, r, j, 0));
        }
    }
    assert forall|p: EqKey| #[trigger] recorded(g).contains(p) implies recorded(l).contains(p)
        || recorded(r).contains(p) || is_join_key(l, r, j, p) by {
        let i = choose|i: int| 0 <= i < pg.len() && pg[i] == p;
        if i == 0 {
            assert(p == join_key(l, r, j, 0) || p == flipped(join_key(l, r, j, 0)));
        } else if i == 1 {
            assert(pl[0] == p);
        }
    }
}

/// The memo of TPC-H query 7 agrees with the hash join that produces group 118.
proof fn lemma_q7_join_118()
    ensures
        join_recorded(memo_map_view(q7_memo()), q7_hash_joins()[3]),
{
    let memo = q7_memo();
    lemma_q7_ids_distinct();
    lemma_memo_map_view_lookup(memo);
    let m = memo_map_view(memo);
    let j = q7_hash_joins()[3];
    assert(memo[3] == (118u64, q7_group_118()));
    assert(group_ids(memo)[3] == 118u64);
    assert(m.contains_key(118u64));
    assert(memo[0] == (2u64, q7_group_2()));
    assert(group_ids(memo)[0] == 2u64);
    assert(m.contains_key(2u64));
    assert(memo[2] == (96u64, q7_group_96()));
    assert(group_ids(memo)[2] == 96u64);
    assert(m.contains_key(96u64));
    let g = q7_group_118();
    let l = q7_group_2();
    let r = q7_group_96();
    assert(m[118u64] == g && m[2u64] == l && m[96u64] == r);
    assert(g.schema =~= l.schema + r.schema);
    assert(g.refs =~= l.refs + r.refs);
    lemma_replay_records(q7_group_118_predicates());
    let pg = q7_group_118_predicates();
    assert(recorded(g) == replay(pg).preds);
    assert(recorded(l) =~= Seq::<EqKey>::empty());
    assert(recorded(r) =~= Seq::<EqKey>::empty());
    assert(join_key(l, r, j, 0) == (("supplier"@, 0usize), ("lineitem"@, 2usize)));
    assert forall|k: int| 0 <= k < j.left_keys.len() implies recorded(g).contains(#[trigger] join_key(l, r, j, k))
        || recorded(g).contains(flipped(join_key(l, r, j, k))) by {
        if k == 0 {
            assert(pg[0] == join_key(l, r, j, 0));
        }
    }
    assert forall|p: EqKey| #[trigger] recorded(g).contains(p) implies recorded(l).contains(p)
        || recorded(r).contains(p) || is_join_key(l, r, j, p) by {
        let i = choose|i: int| 0 <= i < pg.len() && pg[i] == p;
        if i == 0 {
            assert(p == join_key(l, r, j, 0) || p == flipped(join_key(l, r, j, 0)));
        }
    }
}

/// Each hash join of the plan of TPC-H query 7 is recorded in its memo: the joined group
/// outputs the attributes of the left group and then those of the right group, and its
/// correlation records exactly the equalities of both groups and the join's own key
/// equalities.
pub proof fn lemma_q7_hash_joins_recorded()
    ensures
        forall|i: int|
            0 <= i < q7_hash_joins().len() ==> join_recorded(
                memo_map_view(q7_memo()),
                #[trigger] q7_hash_joins()[i],
            ),
{
    lemma_q7_join_11801();
    lemma_q7_join_11439();
    lemma_q7_join_542();
    lemma_q7_join_118();
    assert forall|i: int| 0 <= i < q7_hash_joins().len() implies join_recorded(
        memo_map_view(q7_memo()),
        #[trigger] q7_hash_joins()[i],
    ) by {
        if i == 0 {
        } else if i == 1 {
        } else if i == 2 {
        } else if i == 3 {
        }
    }
}

/// The filters, sorts and projections of the plan of TPC-H query 7: for each, the group it
/// produces and the group it reads.
pub open spec fn q7_unary_ops() -> Seq<UnaryOpView> {
    seq![
        UnaryOpView { group: 77, child: 74, keeps_output: true },
        UnaryOpView { group: 70, child: 67, keeps_output: false },
        UnaryOpView { group: 67, child: 12177, keeps_output: false },
        UnaryOpView { group: 64, child: 82, keeps_output: false },
        UnaryOpView { group: 82, child: 47, keeps_output: true },
        UnaryOpView { group: 53, child: 89, keeps_output: false },
        UnaryOpView { group: 89, child: 47, keeps_output: true },
        UnaryOpView { group: 38, child: 35, keeps_output: false },
        UnaryOpView { group: 96, child: 8, keeps_output: true },
    ]
}

/// The memo of TPC-H query 7 agrees with the operator that produces group 77.
proof fn lemma_q7_unary_77()
    ensures
        unary_recorded(memo_map_view(q7_memo()), q7_unary_ops()[0]),
{
    let memo = q7_memo();
    lemma_q7_ids_distinct();
    lemma_memo_map_view_lookup(memo);
    let m = memo_map_view(memo);
    let u = q7_unary_ops()[0];
    assert(memo[19] == (77u64, q7_group_77()));
    assert(group_ids(memo)[19] == 77u64);
    assert(m.contains_key(77u64));
    assert(memo[18] == (74u64, q7_group_74()));
    assert(group_ids(memo)[18] == 74u64);
    assert(m.contains_key(74u64));
    let g = q7_group_77();
    let c = q7_group_74();
    assert(m[77u64] == g && m[74u64] == c);
    assert(g.schema =~= c.schema);
    assert(g.refs =~= c.refs);
    assert(recorded(g) =~= Seq::<EqKey>::empty());
    assert(recorded(c) =~= Seq::<EqKey>::empty());
}

/// The memo of TPC-H query 7 agrees with the operator that produces group 70.
proof fn lemma_q7_unary_70()
    ensures
        unary_recorded(memo_map_view(q7_memo()), q7_unary_ops()[1]),
{
    let memo = q7_memo();
    lemma_q7_ids_distinct();
    lemma_memo_map_view_lookup(memo);
    let m = memo_map_view(memo);
    let u = q7_unary_ops()[1];
    assert(memo[17] == (70u64, q7_group_70()));
    assert(group_ids(memo)[17] == 70u64);
    assert(m.contains_key(70u64));
    assert(memo[16] == (67u64, q7_group_67()));
    assert(group_ids(memo)[16] == 67u64);
    assert(m.contains_key(67u64));
    let g = q7_group_70();
    let c = q7_group_67();
    assert(m[70u64] == g && m[67u64] == c);
    lemma_replay_records(q7_group_70_predicates());
    let pg = q7_group_70_predicates();
    assert(recorded(g) == replay(pg).preds);
    lemma_replay_records(q7_group_67_predicates());
    let pc = q7_group_67_predicates();
    assert(recorded(c) == replay(pc).preds);
    assert forall|p: EqKey| #[trigger] recorded(g).contains(p) implies recorded(c).contains(p) by {
        let i = choose|i: int| 0 <= i < pg.len() && pg[i] == p;
        if i == 0 {
            assert(pc[0] == p);
        } else if i == 1 {
            assert(pc[1] == p);
        } else if i == 2 {
            assert(pc[2] == p);
        } else if i == 3 {
            assert(pc[3] == p);
        } else if i == 4 {
            assert(pc[4] == p);
        }
    }
    assert forall|p: EqKey| #[trigger] recorded(c).contains(p) implies recorded(g).contains(p) by {
        let i = choose|i: int| 0 <= i < pc.len() && pc[i] == p;
        if i == 0 {
            assert(pg[0] == p);
        } else if i == 1 {
            assert(pg[1] == p);
        } else if i == 2 {
            assert(pg[2] == p);
        } else if i == 3 {
            assert(pg[3] == p);
        } else if i == 4 {
            assert(pg[4] == p);
        }
    }
}

/// The memo of TPC-H query 7 agrees with the operator that produces group 67.
proof fn lemma_q7_unary_67()
    ensures
        unary_recorded(memo_map_view(q7_memo()), q7_unary_ops()[2]),
{
    let memo = q7_memo();
    lemma_q7_ids_distinct();
    lemma_memo_map_view_lookup(memo);
    let m = memo_map_view(memo);
    let u = q7_unary_ops()[2];
    assert(memo[16] == (67u64, q7_group_67()));
    assert(group_ids(memo)[16] == 67u64);
    assert(m.contains_key(67u64));
    assert(memo[15] == (12177u64, q7_group_12177()));
    assert(group_ids(memo)[15] == 12177u64);
    assert(m.contains_key(12177u64));
    let g = q7_group_67();
    let c = q7_group_12177();
    assert(m[67u64] == g && m[12177u64] == c);
    lemma_replay_records(q7_group_67_predicates());
    let pg = q7_group_67_predicates();
    assert(recorded(g) == replay(pg).preds);
    lemma_replay_records(q7_group_12177_predicates());
    let pc = q7_group_12177_predicates();
    assert(recorded(c) == replay(pc).preds);
    assert forall|p: EqKey| #[trigger] recorded(g).contains(p) implies recorded(c).contains(p) by {
        let i = choose|i: int| 0 <= i < pg.len() && pg[i] == p;
        if i == 0 {
            assert(pc[0] == p);
        } else if i == 1 {
            assert(pc[4] == p);
        } else if i == 2 {
            assert(pc[2] == p);
        } else if i == 3 {
            assert(pc[1] == p);
        } else if i == 4 {
            assert(pc[3] == p);
        }
    }
    assert forall|p: EqKey| #[trigger] recorded(c).contains(p) implies recorded(g).contains(p) by {
        let i = choose|i: int| 0 <= i < pc.len() && pc[i] == p;
        if i == 0 {
            assert(pg[0] == p);
        } else if i == 1 {
            assert(pg[3] == p);
        } else if i == 2 {
            assert(pg[2] == p);
        } else if i == 3 {
            assert(pg[4] == p);
        } else if i == 4 {
            assert(pg[1] == p);
        }
    }
}

/// The memo of TPC-H query 7 agrees with the operator that produces group 64.
proof fn lemma_q7_unary_64()
    ensures
        unary_recorded(memo_map_view(q7_memo()), q7_unary_ops()[3]),
{
    let memo = q7_memo();
    lemma_q7_ids_distinct();
    lemma_memo_map_view_lookup(memo);
    let m = memo_map_view(memo);
    let u = q7_unary_ops()[3];
    assert(memo[14] == (64u64, q7_group_64()));
    assert(group_ids(memo)[14] == 64u64);
    assert(m.contains_key(64u64));
    assert(memo[13] == (82u64, q7_group_82()));
    assert(group_ids(memo)[13] == 82u64);
    assert(m.contains_key(82u64));
    let g = q7_group_64();
    let c = q7_group_82();
    assert(m[64u64] == g && m[82u64] == c);
    assert(recorded(g) =~= Seq::<EqKey>::empty());
    assert(recorded(c) =~= Seq::<EqKey>::empty());
}

/// The memo of TPC-H query 7 agrees with the operator that produces group 82.
proof fn lemma_q7_unary_82()
    ensures
        unary_recorded(memo_map_view(q7_memo()), q7_unary_ops()[4]),
{
    let memo = q7_memo();
    lemma_q7_ids_distinct();
    lemma_memo_map_view_lookup(memo);
    let m = memo_map_view(memo);
    let u = q7_unary_ops()[4];
    assert(memo[13] == (82u64, q7_group_82()));
    assert(group_ids(memo)[13] == 82u64);
    assert(m.contains_key(82u64));
    assert(memo[9] == (47u64, q7_group_47()));
    assert(group_ids(memo)[9] == 47u64);
    assert(m.contains_key(47u64));
    let g = q7_group_82();
    let c = q7_group_47();
    assert(m[82u64] == g && m[47u64] == c);
    assert(g.schema =~= c.schema);
    assert(g.refs =~= c.refs);
    assert(recorded(g) =~= Seq::<EqKey>::empty());
    assert(recorded(c) =~= Seq::<EqKey>::empty());
}

/// The memo of TPC-H query 7 agrees with the operator that produces group 53.
proof fn lemma_q7_unary_53()
    ensures
        unary_recorded(memo_map_view(q7_memo()), q7_unary_ops()[5]),
{
    let memo = q7_memo();
    lemma_q7_ids_distinct();
    lemma_memo_map_view_lookup(memo);
    let m = memo_map_view(memo);
    let u = q7_unary_ops()[5];
    assert(memo[11] == (53u64, q7_group_53()));
    assert(group_ids(memo)[11] == 53u64);
    assert(m.contains_key(53u64));
    assert(memo[10] == (89u64, q7_group_89()));
    assert(group_ids(memo)[10] == 89u64);
    assert(m.contains_key(89u64));
    let g = q7_group_53();
    let c = q7_group_89();
    assert(m[53u64] == g && m[89u64] == c);
    assert(recorded(g) =~= Seq::<EqKey>::empty());
    assert(recorded(c) =~= Seq::<EqKey>::empty());
}

/// The memo of TPC-H query 7 agrees with the operator that produces group 89.
proof fn lemma_q7_unary_89()
    ensures
        unary_recorded(memo_map_view(q7_memo()), q7_unary_ops()[6]),
{
    let memo = q7_memo();
    lemma_q7_ids_distinct();
    lemma_memo_map_view_lookup(memo);
    let m = memo_map_view(memo);
    let u = q7_unary_ops()[6];
    assert(memo[10] == (89u64, q7_group_89()));
    assert(group_ids(memo)[10] == 89u64);
    assert(m.contains_key(89u64));
    assert(memo[9] == (47u64, q7_group_47()));
    assert(group_ids(memo)[9] == 47u64);
    assert(m.contains_key(47u64));
    let g = q7_group_89();
    let c = q7_group_47();
    assert(m[89u64] == g && m[47u64] == c);
    assert(g.schema =~= c.schema);
    assert(g.refs =~= c.refs);
    assert(recorded(g) =~= Seq::<EqKey>::empty());
    assert(recorded(c) =~= Seq::<EqKey>::empty());
}

/// The memo of TPC-H query 7 agrees with the operator that produces group 38.
proof fn lemma_q7_unary_38()
    ensures
        unary_recorded(memo_map_view(q7_memo()), q7_unary_ops()[7]),
{
    let memo = q7_memo();
    lemma_q7_ids_distinct();
    lemma_memo_map_view_lookup(memo);
    let m = memo_map_view(memo);
    let u = q7_unary_ops()[7];
    assert(memo[7] == (38u64, q7_group_38()));
    assert(group_ids(memo)[7] == 38u64);
    assert(m.contains_key(38u64));
    assert(memo[6] == (35u64, q7_group_35()));
    assert(group_ids(memo)[6] == 35u64);
    assert(m.contains_key(35u64));
    let g = q7_group_38();
    let c = q7_group_35();
    assert(m[38u64] == g && m[35u64] == c);
    assert(recorded(g) =~= Seq::<EqKey>::empty());
    assert(recorded(c) =~= Seq::<EqKey>::empty());
}

/// The memo of TPC-H query 7 agrees with the operator that produces group 96.
proof fn lemma_q7_unary_96()
    ensures
        unary_recorded(memo_map_view(q7_memo()), q7_unary_ops()[8]),
{
    let memo = q7_memo();
    lemma_q7_ids_distinct();
    lemma_memo_map_view_lookup(memo);
    let m = memo_map_view(memo);
    let u = q7_unary_ops()[8];
    assert(memo[2] == (96u64, q7_group_96()));
    assert(group_ids(memo)[2] == 96u64);
    assert(m.contains_key(96u64));
    assert(memo[1] == (8u64, q7_group_8()));
    assert(group_ids(memo)[1] == 8u64);
    assert(m.contains_key(8u64));
    let g = q7_group_96();
    let c = q7_group_8();
    assert(m[96u64] == g && m[8u64] == c);
    assert(g.schema =~= c.schema);
    assert(g.refs =~= c.refs);
    assert(recorded(g) =~= Seq::<EqKey>::empty());
    assert(recorded(c) =~= Seq::<EqKey>::empty());
}

/// Each filter, sort and projection of the plan of TPC-H query 7 is recorded in its memo:
/// its group records the same equalities as the group it reads, and a filter's or a sort's
/// group has the schema and attribute references of the group it reads.
pub proof fn lemma_q7_unary_ops_recorded()
    ensures
        forall|i: int|
            0 <= i < q7_unary_ops().len() ==> unary_recorded(
                memo_map_view(q7_memo()),
                #[trigger] q7_unary_ops()[i],
            ),
{
    lemma_q7_unary_77();
    lemma_q7_unary_70();
    lemma_q7_unary_67();
    lemma_q7_unary_64();
    lemma_q7_unary_82();
    lemma_q7_unary_53();
    lemma_q7_unary_89();
    lemma_q7_unary_38();
    lemma_q7_unary_96();
    assert forall|i: int| 0 <= i < q7_unary_ops().len() implies unary_recorded(
        memo_map_view(q7_memo()),
        #[trigger] q7_unary_ops()[i],
    ) by {
        if i == 0 {
        } else if i == 1 {
        } else if i == 2 {
        } else if i == 3 {
        } else if i == 4 {
        } else if i == 5 {
        } else if i == 6 {
        } else if i == 7 {
        } else if i == 8 {
        }
    }
}

} // verus!
