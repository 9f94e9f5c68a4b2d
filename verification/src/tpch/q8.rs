use std::collections::HashMap;

use vstd::prelude::*;

use crate::common::predicates::constant_pred::ConstantType;
use crate::common::properties::attr_ref::{
    attr_ref_views, eq_predicate_views, replay, AttrRef, EqKey, EqPredicate,
};
use crate::common::properties::attribute_views;
use crate::common::properties::schema::Schema;
use crate::common::properties::Attribute;

use super::{
    attribute, base_ref, correlation_of, eq_predicate, group_ids, group_info,
    group_map_views, group_map_wf, lemma_memo_map_view_lookup, memo_map, memo_map_view,
    memo_view, memo_wf, flipped, is_join_key, join_key, join_recorded,
    lemma_replay_records, recorded, unary_recorded, HashJoinView, MemoGroupInfo,
    MemoGroupView, UnaryOpView,
};

verus! {

/// The model of group 26 of the memo of TPC-H query 8.
pub open spec fn q8_group_26() -> MemoGroupView {
    MemoGroupView {
        schema: seq![
            ("s_suppkey"@, ConstantType::Int32, false),
            ("s_name"@, ConstantType::Utf8String, false),
            ("s_address"@, ConstantType::Utf8String, false),
            ("s_nationkey"@, ConstantType::Int32, false),
            ("s_phone"@, ConstantType::Utf8String, false),
            ("s_acctbal"@, ConstantType::Decimal, false),
            ("s_comment"@, ConstantType::Utf8String, false),
        ],
        refs: seq![
            Some(("supplier"@, 0usize)),
            Some(("supplier"@, 1usize)),
            Some(("supplier"@, 2usize)),
            Some(("supplier"@, 3usize)),
            Some(("supplier"@, 4usize)),
            Some(("supplier"@, 5usize)),
            Some(("supplier"@, 6usize)),
        ],
        correlation: None,
    }
}

/// Group 26 of the memo of TPC-H query 8.
fn q8_memo_group_26() -> (res: MemoGroupInfo)
    ensures
        res.wf(),
        res@ == q8_group_26(),
{
    let mut attributes: Vec<Attribute> = Vec::new();
    attributes.push(attribute("s_suppkey", ConstantType::Int32, false));
    attributes.push(attribute("s_name", ConstantType::Utf8String, false));
    attributes.push(attribute("s_address", ConstantType::Utf8String, false));
    attributes.push(attribute("s_nationkey", ConstantType::Int32, false));
    attributes.push(attribute("s_phone", ConstantType::Utf8String, false));
    attributes.push(attribute("s_acctbal", ConstantType::Decimal, false));
    attributes.push(attribute("s_comment", ConstantType::Utf8String, false));
    let mut refs: Vec<AttrRef> = Vec::new();
    refs.push(base_ref("supplier", 0));
    refs.push(base_ref("supplier", 1));
    refs.push(base_ref("supplier", 2));
    refs.push(base_ref("supplier", 3));
    refs.push(base_ref("supplier", 4));
    refs.push(base_ref("supplier", 5));
    refs.push(base_ref("supplier", 6));
    proof {
        assert(attribute_views(attributes@) =~= q8_group_26().schema);
        assert(attr_ref_views(refs@) =~= q8_group_26().refs);
    }
    group_info(Schema { attributes }, refs, None)
}

/// The model of group 2 of the memo of TPC-H query 8.
pub open spec fn q8_group_2() -> MemoGroupView {
    MemoGroupView {
        schema: seq![
            ("p_partkey"@, ConstantType::Int32, false),
            ("p_name"@, ConstantType::Utf8String, false),
            ("p_mfgr"@, ConstantType::Utf8String, false),
            ("p_brand"@, ConstantType::Utf8String, false),
            ("p_type"@, ConstantType::Utf8String, false),
            ("p_size"@, ConstantType::Int32, false),
            ("p_container"@, ConstantType::Utf8String, false),
            ("p_retailprice"@, ConstantType::Decimal, false),
            ("p_comment"@, ConstantType::Utf8String, false),
        ],
        refs: seq![
            Some(("part"@, 0usize)),
            Some(("part"@, 1usize)),
            Some(("part"@, 2usize)),
            Some(("part"@, 3usize)),
            Some(("part"@, 4usize)),
            Some(("part"@, 5usize)),
            Some(("part"@, 6usize)),
            Some(("part"@, 7usize)),
            Some(("part"@, 8usize)),
        ],
        correlation: None,
    }
}

/// Group 2 of the memo of TPC-H query 8.
fn q8_memo_group_2() -> (res: MemoGroupInfo)
    ensures
        res.wf(),
        res@ == q8_group_2(),
{
    let mut attributes: Vec<Attribute> = Vec::new();
    attributes.push(attribute("p_partkey", ConstantType::Int32, false));
    attributes.push(attribute("p_name", ConstantType::Utf8String, false));
    attributes.push(attribute("p_mfgr", ConstantType::Utf8String, false));
    attributes.push(attribute("p_brand", ConstantType::Utf8String, false));
    attributes.push(attribute("p_type", ConstantType::Utf8String, false));
    attributes.push(attribute("p_size", ConstantType::Int32, false));
    attributes.push(attribute("p_container", ConstantType::Utf8String, false));
    attributes.push(attribute("p_retailprice", ConstantType::Decimal, false));
    attributes.push(attribute("p_comment", ConstantType::Utf8String, false));
    let mut refs: Vec<AttrRef> = Vec::new();
    refs.push(base_ref("part", 0));
    refs.push(base_ref("part", 1));
    refs.push(base_ref("part", 2));
    refs.push(base_ref("part", 3));
    refs.push(base_ref("part", 4));
    refs.push(base_ref("part", 5));
    refs.push(base_ref("part", 6));
    refs.push(base_ref("part", 7));
    refs.push(base_ref("part", 8));
    proof {
        assert(attribute_views(attributes@) =~= q8_group_2().schema);
        assert(attr_ref_views(refs@) =~= q8_group_2().refs);
    }
    group_info(Schema { attributes }, refs, None)
}

/// The model of group 162 of the memo of TPC-H query 8.
pub open spec fn q8_group_162() -> MemoGroupView {
    MemoGroupView {
        schema: seq![
            ("p_partkey"@, ConstantType::Int32, false),
            ("p_name"@, ConstantType::Utf8String, false),
            ("p_mfgr"@, ConstantType::Utf8String, false),
            ("p_brand"@, ConstantType::Utf8String, false),
            ("p_type"@, ConstantType::Utf8String, false),
            ("p_size"@, ConstantType::Int32, false),
            ("p_container"@, ConstantType::Utf8String, false),
            ("p_retailprice"@, ConstantType::Decimal, false),
            ("p_comment"@, ConstantType::Utf8String, false),
        ],
        refs: seq![
            Some(("part"@, 0usize)),
            Some(("part"@, 1usize)),
            Some(("part"@, 2usize)),
            Some(("part"@, 3usize)),
            Some(("part"@, 4usize)),
            Some(("part"@, 5usize)),
            Some(("part"@, 6usize)),
            Some(("part"@, 7usize)),
            Some(("part"@, 8usize)),
        ],
        correlation: None,
    }
}

/// Group 162 of the memo of TPC-H query 8.
fn q8_memo_group_162() -> (res: MemoGroupInfo)
    ensures
        res.wf(),
        res@ == q8_group_162(),
{
    let mut attributes: Vec<Attribute> = Vec::new();
    attributes.push(attribute("p_partkey", ConstantType::Int32, false));
    attributes.push(attribute("p_name", ConstantType::Utf8String, false));
    attributes.push(attribute("p_mfgr", ConstantType::Utf8String, false));
    attributes.push(attribute("p_brand", ConstantType::Utf8String, false));
    attributes.push(attribute("p_type", ConstantType::Utf8String, false));
    attributes.push(attribute("p_size", ConstantType::Int32, false));
    attributes.push(attribute("p_container", ConstantType::Utf8String, false));
    attributes.push(attribute("p_retailprice", ConstantType::Decimal, false));
    attributes.push(attribute("p_comment", ConstantType::Utf8String, false));
    let mut refs: Vec<AttrRef> = Vec::new();
    refs.push(base_ref("part", 0));
    refs.push(base_ref("part", 1));
    refs.push(base_ref("part", 2));
    refs.push(base_ref("part", 3));
    refs.push(base_ref("part", 4));
    refs.push(base_ref("part", 5));
    refs.push(base_ref("part", 6));
    refs.push(base_ref("part", 7));
    refs.push(base_ref("part", 8));
    proof {
        assert(attribute_views(attributes@) =~= q8_group_162().schema);
        assert(attr_ref_views(refs@) =~= q8_group_162().refs);
    }
    group_info(Schema { attributes }, refs, None)
}

/// The model of group 14 of the memo of TPC-H query 8.
pub open spec fn q8_group_14() -> MemoGroupView {
    MemoGroupView {
        schema: seq![
            ("l_orderkey"@, ConstantType::Int32, false),
            ("l_partkey"@, ConstantType::Int32, false),
            ("l_suppkey"@, ConstantType::Int32, false),
            ("l_linenumber"@, ConstantType::Int32, false),
            ("l_quantity"@, ConstantType::Decimal, false),
            ("l_extendedprice"@, ConstantType::Decimal, false),
            ("l_discount"@, ConstantType::Decimal, false),
            ("l_tax"@, ConstantType::Decimal, false),
            ("l_returnflag"@, ConstantType::Utf8String, false),
            ("l_linestatus"@, ConstantType::Utf8String, false),
            ("l_shipdate"@, ConstantType::Date, false),
            ("l_commitdate"@, ConstantType::Date, false),
            ("l_receiptdate"@, ConstantType::Date, false),
            ("l_shipinstruct"@, ConstantType::Utf8String, false),
            ("l_shipmode"@, ConstantType::Utf8String, false),
            ("l_comment"@, ConstantType::Utf8String, false),
        ],
        refs: seq![
            Some(("lineitem"@, 0usize)),
            Some(("lineitem"@, 1usize)),
            Some(("lineitem"@, 2usize)),
            Some(("lineitem"@, 3usize)),
            Some(("lineitem"@, 4usize)),
            Some(("lineitem"@, 5usize)),
            Some(("lineitem"@, 6usize)),
            Some(("lineitem"@, 7usize)),
            Some(("lineitem"@, 8usize)),
            Some(("lineitem"@, 9usize)),
            Some(("lineitem"@, 10usize)),
            Some(("lineitem"@, 11usize)),
            Some(("lineitem"@, 12usize)),
            Some(("lineitem"@, 13usize)),
            Some(("lineitem"@, 14usize)),
            Some(("lineitem"@, 15usize)),
        ],
        correlation: None,
    }
}

/// Group 14 of the memo of TPC-H query 8.
fn q8_memo_group_14() -> (res: MemoGroupInfo)
    ensures
        res.wf(),
        res@ == q8_group_14(),
{
    let mut attributes: Vec<Attribute> = Vec::new();
    attributes.push(attribute("l_orderkey", ConstantType::Int32, false));
    attributes.push(attribute("l_partkey", ConstantType::Int32, false));
    attributes.push(attribute("l_suppkey", ConstantType::Int32, false));
    attributes.push(attribute("l_linenumber", ConstantType::Int32, false));
    attributes.push(attribute("l_quantity", ConstantType::Decimal, false));
    attributes.push(attribute("l_extendedprice", ConstantType::Decimal, false));
    attributes.push(attribute("l_discount", ConstantType::Decimal, false));
    attributes.push(attribute("l_tax", ConstantType::Decimal, false));
    attributes.push(attribute("l_returnflag", ConstantType::Utf8String, false));
    attributes.push(attribute("l_linestatus", ConstantType::Utf8String, false));
    attributes.push(attribute("l_shipdate", ConstantType::Date, false));
    attributes.push(attribute("l_commitdate", ConstantType::Date, false));
    attributes.push(attribute("l_receiptdate", ConstantType::Date, false));
    attributes.push(attribute("l_shipinstruct", ConstantType::Utf8String, false));
    attributes.push(attribute("l_shipmode", ConstantType::Utf8String, false));
    attributes.push(attribute("l_comment", ConstantType::Utf8String, false));
    let mut refs: Vec<AttrRef> = Vec::new();
    refs.push(base_ref("lineitem", 0));
    refs.push(base_ref("lineitem", 1));
    refs.push(base_ref("lineitem", 2));
    refs.push(base_ref("lineitem", 3));
    refs.push(base_ref("lineitem", 4));
    refs.push(base_ref("lineitem", 5));
    refs.push(base_ref("lineitem", 6));
    refs.push(base_ref("lineitem", 7));
    refs.push(base_ref("lineitem", 8));
    refs.push(base_ref("lineitem", 9));
    refs.push(base_ref("lineitem", 10));
    refs.push(base_ref("lineitem", 11));
    refs.push(base_ref("lineitem", 12));
    refs.push(base_ref("lineitem", 13));
    refs.push(base_ref("lineitem", 14));
    refs.push(base_ref("lineitem", 15));
    proof {
        assert(attribute_views(attributes@) =~= q8_group_14().schema);
        assert(attr_ref_views(refs@) =~= q8_group_14().refs);
    }
    group_info(Schema { attributes }, refs, None)
}

/// The equality predicates of group 218 of the memo of TPC-H query 8, in the order in
/// which they are added to its correlation.
pub open spec fn q8_group_218_predicates() -> Seq<EqKey> {
    seq![
        (("part"@, 0usize), ("lineitem"@, 1usize)),
    ]
}

/// The model of group 218 of the memo of TPC-H query 8.
pub open spec fn q8_group_218() -> MemoGroupView {
    MemoGroupView {
        schema: seq![
            ("p_partkey"@, ConstantType::Int32, false),
            ("p_name"@, ConstantType::Utf8String, false),
            ("p_mfgr"@, ConstantType::Utf8String, false),
            ("p_brand"@, ConstantType::Utf8String, false),
            ("p_type"@, ConstantType::Utf8String, false),
            ("p_size"@, ConstantType::Int32, false),
            ("p_container"@, ConstantType::Utf8String, false),
            ("p_retailprice"@, ConstantType::Decimal, false),
            ("p_comment"@, ConstantType::Utf8String, false),
            ("l_orderkey"@, ConstantType::Int32, false),
            ("l_partkey"@, ConstantType::Int32, false),
            ("l_suppkey"@, ConstantType::Int32, false),
            ("l_linenumber"@, ConstantType::Int32, false),
            ("l_quantity"@, ConstantType::Decimal, false),
            ("l_extendedprice"@, ConstantType::Decimal, false),
            ("l_discount"@, ConstantType::Decimal, false),
            ("l_tax"@, ConstantType::Decimal, false),
            ("l_returnflag"@, ConstantType::Utf8String, false),
            ("l_linestatus"@, ConstantType::Utf8String, false),
            ("l_shipdate"@, ConstantType::Date, false),
            ("l_commitdate"@, ConstantType::Date, false),
            ("l_receiptdate"@, ConstantType::Date, false),
            ("l_shipinstruct"@, ConstantType::Utf8String, false),
            ("l_shipmode"@, ConstantType::Utf8String, false),
            ("l_comment"@, ConstantType::Utf8String, false),
        ],
        refs: seq![
            Some(("part"@, 0usize)),
            Some(("part"@, 1usize)),
            Some(("part"@, 2usize)),
            Some(("part"@, 3usize)),
            Some(("part"@, 4usize)),
            Some(("part"@, 5usize)),
            Some(("part"@, 6usize)),
            Some(("part"@, 7usize)),
            Some(("part"@, 8usize)),
            Some(("lineitem"@, 0usize)),
            Some(("lineitem"@, 1usize)),
            Some(("lineitem"@, 2usize)),
            Some(("lineitem"@, 3usize)),
            Some(("lineitem"@, 4usize)),
            Some(("lineitem"@, 5usize)),
            Some(("lineitem"@, 6usize)),
            Some(("lineitem"@, 7usize)),
            Some(("lineitem"@, 8usize)),
            Some(("lineitem"@, 9usize)),
            Some(("lineitem"@, 10usize)),
            Some(("lineitem"@, 11usize)),
            Some(("lineitem"@, 12usize)),
            Some(("lineitem"@, 13usize)),
            Some(("lineitem"@, 14usize)),
            Some(("lineitem"@, 15usize)),
        ],
        correlation: Some(replay(q8_group_218_predicates())),
    }
}

/// Group 218 of the memo of TPC-H query 8.
fn q8_memo_group_218() -> (res: MemoGroupInfo)
    ensures
        res.wf(),
        res@ == q8_group_218(),
{
    let mut attributes: Vec<Attribute> = Vec::new();
    attributes.push(attribute("p_partkey", ConstantType::Int32, false));
    attributes.push(attribute("p_name", ConstantType::Utf8String, false));
    attributes.push(attribute("p_mfgr", ConstantType::Utf8String, false));
    attributes.push(attribute("p_brand", ConstantType::Utf8String, false));
    attributes.push(attribute("p_type", ConstantType::Utf8String, false));
    attributes.push(attribute("p_size", ConstantType::Int32, false));
    attributes.push(attribute("p_container", ConstantType::Utf8String, false));
    attributes.push(attribute("p_retailprice", ConstantType::Decimal, false));
    attributes.push(attribute("p_comment", ConstantType::Utf8String, false));
    attributes.push(attribute("l_orderkey", ConstantType::Int32, false));
    attributes.push(attribute("l_partkey", ConstantType::Int32, false));
    attributes.push(attribute("l_suppkey", ConstantType::Int32, false));
    attributes.push(attribute("l_linenumber", ConstantType::Int32, false));
    attributes.push(attribute("l_quantity", ConstantType::Decimal, false));
    attributes.push(attribute("l_extendedprice", ConstantType::Decimal, false));
    attributes.push(attribute("l_discount", ConstantType::Decimal, false));
    attributes.push(attribute("l_tax", ConstantType::Decimal, false));
    attributes.push(attribute("l_returnflag", ConstantType::Utf8String, false));
    attributes.push(attribute("l_linestatus", ConstantType::Utf8String, false));
    attributes.push(attribute("l_shipdate", ConstantType::Date, false));
    attributes.push(attribute("l_commitdate", ConstantType::Date, false));
    attributes.push(attribute("l_receiptdate", ConstantType::Date, false));
    attributes.push(attribute("l_shipinstruct", ConstantType::Utf8String, false));
    attributes.push(attribute("l_shipmode", ConstantType::Utf8String, false));
    attributes.push(attribute("l_comment", ConstantType::Utf8String, false));
    let mut refs: Vec<AttrRef> = Vec::new();
    refs.push(base_ref("part", 0));
    refs.push(base_ref("part", 1));
    refs.push(base_ref("part", 2));
    refs.push(base_ref("part", 3));
    refs.push(base_ref("part", 4));
    refs.push(base_ref("part", 5));
    refs.push(base_ref("part", 6));
    refs.push(base_ref("part", 7));
    refs.push(base_ref("part", 8));
    refs.push(base_ref("lineitem", 0));
    refs.push(base_ref("lineitem", 1));
    refs.push(base_ref("lineitem", 2));
    refs.push(base_ref("lineitem", 3));
    refs.push(base_ref("lineitem", 4));
    refs.push(base_ref("lineitem", 5));
    refs.push(base_ref("lineitem", 6));
    refs.push(base_ref("lineitem", 7));
    refs.push(base_ref("lineitem", 8));
    refs.push(base_ref("lineitem", 9));
    refs.push(base_ref("lineitem", 10));
    refs.push(base_ref("lineitem", 11));
    refs.push(base_ref("lineitem", 12));
    refs.push(base_ref("lineitem", 13));
    refs.push(base_ref("lineitem", 14));
    refs.push(base_ref("lineitem", 15));
    proof {
        assert(attribute_views(attributes@) =~= q8_group_218().schema);
        assert(attr_ref_views(refs@) =~= q8_group_218().refs);
    }
    let mut predicates: Vec<EqPredicate> = Vec::new();
    predicates.push(eq_predicate("part", 0, "lineitem", 1));
    assert(eq_predicate_views(predicates@) =~= q8_group_218_predicates());
    group_info(Schema { attributes }, refs, Some(correlation_of(predicates)))
}

/// The equality predicates of group 1004 of the memo of TPC-H query 8, in the order in
/// which they are added to its correlation.
pub open spec fn q8_group_1004_predicates() -> Seq<EqKey> {
    seq![
        (("lineitem"@, 2usize), ("supplier"@, 0usize)),
        (("part"@, 0usize), ("lineitem"@, 1usize)),
    ]
}

/// The model of group 1004 of the memo of TPC-H query 8.
pub open spec fn q8_group_1004() -> MemoGroupView {
    MemoGroupView {
        schema: seq![
            ("s_suppkey"@, ConstantType::Int32, false),
            ("s_name"@, ConstantType::Utf8String, false),
            ("s_address"@, ConstantType::Utf8String, false),
            ("s_nationkey"@, ConstantType::Int32, false),
            ("s_phone"@, ConstantType::Utf8String, false),
            ("s_acctbal"@, ConstantType::Decimal, false),
            ("s_comment"@, ConstantType::Utf8String, false),
            ("p_partkey"@, ConstantType::Int32, false),
            ("p_name"@, ConstantType::Utf8String, false),
            ("p_mfgr"@, ConstantType::Utf8String, false),
            ("p_brand"@, ConstantType::Utf8String, false),
            ("p_type"@, ConstantType::Utf8String, false),
            ("p_size"@, ConstantType::Int32, false),
            ("p_container"@, ConstantType::Utf8String, false),
            ("p_retailprice"@, ConstantType::Decimal, false),
            ("p_comment"@, ConstantType::Utf8String, false),
            ("l_orderkey"@, ConstantType::Int32, false),
            ("l_partkey"@, ConstantType::Int32, false),
            ("l_suppkey"@, ConstantType::Int32, false),
            ("l_linenumber"@, ConstantType::Int32, false),
            ("l_quantity"@, ConstantType::Decimal, false),
            ("l_extendedprice"@, ConstantType::Decimal, false),
            ("l_discount"@, ConstantType::Decimal, false),
            ("l_tax"@, ConstantType::Decimal, false),
            ("l_returnflag"@, ConstantType::Utf8String, false),
            ("l_linestatus"@, ConstantType::Utf8String, false),
            ("l_shipdate"@, ConstantType::Date, false),
            ("l_commitdate"@, ConstantType::Date, false),
            ("l_receiptdate"@, ConstantType::Date, false),
            ("l_shipinstruct"@, ConstantType::Utf8String, false),
            ("l_shipmode"@, ConstantType::Utf8String, false),
            ("l_comment"@, ConstantType::Utf8String, false),
        ],
        refs: seq![
            Some(("supplier"@, 0usize)),
            Some(("supplier"@, 1usize)),
            Some(("supplier"@, 2usize)),
            Some(("supplier"@, 3usize)),
            Some(("supplier"@, 4usize)),
            Some(("supplier"@, 5usize)),
            Some(("supplier"@, 6usize)),
            Some(("part"@, 0usize)),
            Some(("part"@, 1usize)),
            Some(("part"@, 2usize)),
            Some(("part"@, 3usize)),
            Some(("part"@, 4usize)),
            Some(("part"@, 5usize)),
            Some(("part"@, 6usize)),
            Some(("part"@, 7usize)),
            Some(("part"@, 8usize)),
            Some(("lineitem"@, 0usize)),
            Some(("lineitem"@, 1usize)),
            Some(("lineitem"@, 2usize)),
            Some(("lineitem"@, 3usize)),
            Some(("lineitem"@, 4usize)),
            Some(("lineitem"@, 5usize)),
            Some(("lineitem"@, 6usize)),
            Some(("lineitem"@, 7usize)),
            Some(("lineitem"@, 8usize)),
            Some(("lineitem"@, 9usize)),
            Some(("lineitem"@, 10usize)),
            Some(("lineitem"@, 11usize)),
            Some(("lineitem"@, 12usize)),
            Some(("lineitem"@, 13usize)),
            Some(("lineitem"@, 14usize)),
            Some(("lineitem"@, 15usize)),
        ],
        correlation: Some(replay(q8_group_1004_predicates())),
    }
}

/// Group 1004 of the memo of TPC-H query 8.
fn q8_memo_group_1004() -> (res: MemoGroupInfo)
    ensures
        res.wf(),
        res@ == q8_group_1004(),
{
    let mut attributes: Vec<Attribute> = Vec::new();
    attributes.push(attribute("s_suppkey", ConstantType::Int32, false));
    attributes.push(attribute("s_name", ConstantType::Utf8String, false));
    attributes.push(attribute("s_address", ConstantType::Utf8String, false));
    attributes.push(attribute("s_nationkey", ConstantType::Int32, false));
    attributes.push(attribute("s_phone", ConstantType::Utf8String, false));
    attributes.push(attribute("s_acctbal", ConstantType::Decimal, false));
    attributes.push(attribute("s_comment", ConstantType::Utf8String, false));
    attributes.push(attribute("p_partkey", ConstantType::Int32, false));
    attributes.push(attribute("p_name", ConstantType::Utf8String, false));
    attributes.push(attribute("p_mfgr", ConstantType::Utf8String, false));
    attributes.push(attribute("p_brand", ConstantType::Utf8String, false));
    attributes.push(attribute("p_type", ConstantType::Utf8String, false));
    attributes.push(attribute("p_size", ConstantType::Int32, false));
    attributes.push(attribute("p_container", ConstantType::Utf8String, false));
    attributes.push(attribute("p_retailprice", ConstantType::Decimal, false));
    attributes.push(attribute("p_comment", ConstantType::Utf8String, false));
    attributes.push(attribute("l_orderkey", ConstantType::Int32, false));
    attributes.push(attribute("l_partkey", ConstantType::Int32, false));
    attributes.push(attribute("l_suppkey", ConstantType::Int32, false));
    attributes.push(attribute("l_linenumber", ConstantType::Int32, false));
    attributes.push(attribute("l_quantity", ConstantType::Decimal, false));
    attributes.push(attribute("l_extendedprice", ConstantType::Decimal, false));
    attributes.push(attribute("l_discount", ConstantType::Decimal, false));
    attributes.push(attribute("l_tax", ConstantType::Decimal, false));
    attributes.push(attribute("l_returnflag", ConstantType::Utf8String, false));
    attributes.push(attribute("l_linestatus", ConstantType::Utf8String, false));
    attributes.push(attribute("l_shipdate", ConstantType::Date, false));
    attributes.push(attribute("l_commitdate", ConstantType::Date, false));
    attributes.push(attribute("l_receiptdate", ConstantType::Date, false));
    attributes.push(attribute("l_shipinstruct", ConstantType::Utf8String, false));
    attributes.push(attribute("l_shipmode", ConstantType::Utf8String, false));
    attributes.push(attribute("l_comment", ConstantType::Utf8String, false));
    let mut refs: Vec<AttrRef> = Vec::new();
    refs.push(base_ref("supplier", 0));
    refs.push(base_ref("supplier", 1));
    refs.push(base_ref("supplier", 2));
    refs.push(base_ref("supplier", 3));
    refs.push(base_ref("supplier", 4));
    refs.push(base_ref("supplier", 5));
    refs.push(base_ref("supplier", 6));
    refs.push(base_ref("part", 0));
    refs.push(base_ref("part", 1));
    refs.push(base_ref("part", 2));
    refs.push(base_ref("part", 3));
    refs.push(base_ref("part", 4));
    refs.push(base_ref("part", 5));
    refs.push(base_ref("part", 6));
    refs.push(base_ref("part", 7));
    refs.push(base_ref("part", 8));
    refs.push(base_ref("lineitem", 0));
    refs.push(base_ref("lineitem", 1));
    refs.push(base_ref("lineitem", 2));
    refs.push(base_ref("lineitem", 3));
    refs.push(base_ref("lineitem", 4));
    refs.push(base_ref("lineitem", 5));
    refs.push(base_ref("lineitem", 6));
    refs.push(base_ref("lineitem", 7));
    refs.push(base_ref("lineitem", 8));
    refs.push(base_ref("lineitem", 9));
    refs.push(base_ref("lineitem", 10));
    refs.push(base_ref("lineitem", 11));
    refs.push(base_ref("lineitem", 12));
    refs.push(base_ref("lineitem", 13));
    refs.push(base_ref("lineitem", 14));
    refs.push(base_ref("lineitem", 15));
    proof {
        assert(attribute_views(attributes@) =~= q8_group_1004().schema);
        assert(attr_ref_views(refs@) =~= q8_group_1004().refs);
    }
    let mut predicates: Vec<EqPredicate> = Vec::new();
    predicates.push(eq_predicate("lineitem", 2, "supplier", 0));
    predicates.push(eq_predicate("part", 0, "lineitem", 1));
    assert(eq_predicate_views(predicates@) =~= q8_group_1004_predicates());
    group_info(Schema { attributes }, refs, Some(correlation_of(predicates)))
}

/// The model of group 38 of the memo of TPC-H query 8.
pub open spec fn q8_group_38() -> MemoGroupView {
    MemoGroupView {
        schema: seq![
            ("o_orderkey"@, ConstantType::Int32, false),
            ("o_custkey"@, ConstantType::Int32, false),
            ("o_orderstatus"@, ConstantType::Utf8String, false),
            ("o_totalprice"@, ConstantType::Decimal, false),
            ("o_orderdate"@, ConstantType::Date, false),
            ("o_orderpriority"@, ConstantType::Utf8String, false),
            ("o_clerk"@, ConstantType::Utf8String, false),
            ("o_shippriority"@, ConstantType::Int32, false),
            ("o_comment"@, ConstantType::Utf8String, false),
        ],
        refs: seq![
            Some(("orders"@, 0usize)),
            Some(("orders"@, 1usize)),
            Some(("orders"@, 2usize)),
            Some(("orders"@, 3usize)),
            Some(("orders"@, 4usize)),
            Some(("orders"@, 5usize)),
            Some(("orders"@, 6usize)),
            Some(("orders"@, 7usize)),
            Some(("orders"@, 8usize)),
        ],
        correlation: None,
    }
}

/// Group 38 of the memo of TPC-H query 8.
fn q8_memo_group_38() -> (res: MemoGroupInfo)
    ensures
        res.wf(),
        res@ == q8_group_38(),
{
    let mut attributes: Vec<Attribute> = Vec::new();
    attributes.push(attribute("o_orderkey", ConstantType::Int32, false));
    attributes.push(attribute("o_custkey", ConstantType::Int32, false));
    attributes.push(attribute("o_orderstatus", ConstantType::Utf8String, false));
    attributes.push(attribute("o_totalprice", ConstantType::Decimal, false));
    attributes.push(attribute("o_orderdate", ConstantType::Date, false));
    attributes.push(attribute("o_orderpriority", ConstantType::Utf8String, false));
    attributes.push(attribute("o_clerk", ConstantType::Utf8String, false));
    attributes.push(attribute("o_shippriority", ConstantType::Int32, false));
    attributes.push(attribute("o_comment", ConstantType::Utf8String, false));
    let mut refs: Vec<AttrRef> = Vec::new();
    refs.push(base_ref("orders", 0));
    refs.push(base_ref("orders", 1));
    refs.push(base_ref("orders", 2));
    refs.push(base_ref("orders", 3));
    refs.push(base_ref("orders", 4));
    refs.push(base_ref("orders", 5));
    refs.push(base_ref("orders", 6));
    refs.push(base_ref("orders", 7));
    refs.push(base_ref("orders", 8));
    proof {
        assert(attribute_views(attributes@) =~= q8_group_38().schema);
        assert(attr_ref_views(refs@) =~= q8_group_38().refs);
    }
    group_info(Schema { attributes }, refs, None)
}

/// The model of group 155 of the memo of TPC-H query 8.
pub open spec fn q8_group_155() -> MemoGroupView {
    MemoGroupView {
        schema: seq![
            ("o_orderkey"@, ConstantType::Int32, false),
            ("o_custkey"@, ConstantType::Int32, false),
            ("o_orderstatus"@, ConstantType::Utf8String, false),
            ("o_totalprice"@, ConstantType::Decimal, false),
            ("o_orderdate"@, ConstantType::Date, false),
            ("o_orderpriority"@, ConstantType::Utf8String, false),
            ("o_clerk"@, ConstantType::Utf8String, false),
            ("o_shippriority"@, ConstantType::Int32, false),
            ("o_comment"@, ConstantType::Utf8String, false),
        ],
        refs: seq![
            Some(("orders"@, 0usize)),
            Some(("orders"@, 1usize)),
            Some(("orders"@, 2usize)),
            Some(("orders"@, 3usize)),
            Some(("orders"@, 4usize)),
            Some(("orders"@, 5usize)),
            Some(("orders"@, 6usize)),
            Some(("orders"@, 7usize)),
            Some(("orders"@, 8usize)),
        ],
        correlation: None,
    }
}

/// Group 155 of the memo of TPC-H query 8.
fn q8_memo_group_155() -> (res: MemoGroupInfo)
    ensures
        res.wf(),
        res@ == q8_group_155(),
{
    let mut attributes: Vec<Attribute> = Vec::new();
    attributes.push(attribute("o_orderkey", ConstantType::Int32, false));
    attributes.push(attribute("o_custkey", ConstantType::Int32, false));
    attributes.push(attribute("o_orderstatus", ConstantType::Utf8String, false));
    attributes.push(attribute("o_totalprice", ConstantType::Decimal, false));
    attributes.push(attribute("o_orderdate", ConstantType::Date, false));
    attributes.push(attribute("o_orderpriority", ConstantType::Utf8String, false));
    attributes.push(attribute("o_clerk", ConstantType::Utf8String, false));
    attributes.push(attribute("o_shippriority", ConstantType::Int32, false));
    attributes.push(attribute("o_comment", ConstantType::Utf8String, false));
    let mut refs: Vec<AttrRef> = Vec::new();
    refs.push(base_ref("orders", 0));
    refs.push(base_ref("orders", 1));
    refs.push(base_ref("orders", 2));
    refs.push(base_ref("orders", 3));
    refs.push(base_ref("orders", 4));
    refs.push(base_ref("orders", 5));
    refs.push(base_ref("orders", 6));
    refs.push(base_ref("orders", 7));
    refs.push(base_ref("orders", 8));
    proof {
        assert(attribute_views(attributes@) =~= q8_group_155().schema);
        assert(attr_ref_views(refs@) =~= q8_group_155().refs);
    }
    group_info(Schema { attributes }, refs, None)
}

/// The model of group 44 of the memo of TPC-H query 8.
pub open spec fn q8_group_44() -> MemoGroupView {
    MemoGroupView {
        schema: seq![
            ("unnamed"@, ConstantType::UInt64, true),
            ("unnamed"@, ConstantType::UInt64, true),
            ("unnamed"@, ConstantType::UInt64, true),
        ],
        refs: seq![
            Some(("orders"@, 0usize)),
            Some(("orders"@, 1usize)),
            Some(("orders"@, 4usize)),
        ],
        correlation: None,
    }
}

/// Group 44 of the memo of TPC-H query 8.
fn q8_memo_group_44() -> (res: MemoGroupInfo)
    ensures
        res.wf(),
        res@ == q8_group_44(),
{
    let mut attributes: Vec<Attribute> = Vec::new();
    attributes.push(attribute("unnamed", ConstantType::UInt64, true));
    attributes.push(attribute("unnamed", ConstantType::UInt64, true));
    attributes.push(attribute("unnamed", ConstantType::UInt64, true));
    let mut refs: Vec<AttrRef> = Vec::new();
    refs.push(base_ref("orders", 0));
    refs.push(base_ref("orders", 1));
    refs.push(base_ref("orders", 4));
    proof {
        assert(attribute_views(attributes@) =~= q8_group_44().schema);
        assert(attr_ref_views(refs@) =~= q8_group_44().refs);
    }
    group_info(Schema { attributes }, refs, None)
}

/// The equality predicates of group 11253 of the memo of TPC-H query 8, in the order in
/// which they are added to its correlation.
pub open spec fn q8_group_11253_predicates() -> Seq<EqKey> {
    seq![
        (("lineitem"@, 0usize), ("orders"@, 0usize)),
        (("lineitem"@, 2usize), ("supplier"@, 0usize)),
        (("part"@, 0usize), ("lineitem"@, 1usize)),
    ]
}

/// The model of group 11253 of the memo of TPC-H query 8.
pub open spec fn q8_group_11253() -> MemoGroupView {
    MemoGroupView {
        schema: seq![
            ("s_suppkey"@, ConstantType::Int32, false),
            ("s_name"@, ConstantType::Utf8String, false),
            ("s_address"@, ConstantType::Utf8String, false),
            ("s_nationkey"@, ConstantType::Int32, false),
            ("s_phone"@, ConstantType::Utf8String, false),
            ("s_acctbal"@, ConstantType::Decimal, false),
            ("s_comment"@, ConstantType::Utf8String, false),
            ("p_partkey"@, ConstantType::Int32, false),
            ("p_name"@, ConstantType::Utf8String, false),
            ("p_mfgr"@, ConstantType::Utf8String, false),
            ("p_brand"@, ConstantType::Utf8String, false),
            ("p_type"@, ConstantType::Utf8String, false),
            ("p_size"@, ConstantType::Int32, false),
            ("p_container"@, ConstantType::Utf8String, false),
            ("p_retailprice"@, ConstantType::Decimal, false),
            ("p_comment"@, ConstantType::Utf8String, false),
            ("l_orderkey"@, ConstantType::Int32, false),
            ("l_partkey"@, ConstantType::Int32, false),
            ("l_suppkey"@, ConstantType::Int32, false),
            ("l_linenumber"@, ConstantType::Int32, false),
            ("l_quantity"@, ConstantType::Decimal, false),
            ("l_extendedprice"@, ConstantType::Decimal, false),
            ("l_discount"@, ConstantType::Decimal, false),
            ("l_tax"@, ConstantType::Decimal, false),
            ("l_returnflag"@, ConstantType::Utf8String, false),
            ("l_linestatus"@, ConstantType::Utf8String, false),
            ("l_shipdate"@, ConstantType::Date, false),
            ("l_commitdate"@, ConstantType::Date, false),
            ("l_receiptdate"@, ConstantType::Date, false),
            ("l_shipinstruct"@, ConstantType::Utf8String, false),
            ("l_shipmode"@, ConstantType::Utf8String, false),
            ("l_comment"@, ConstantType::Utf8String, false),
            ("unnamed"@, ConstantType::UInt64, true),
            ("unnamed"@, ConstantType::UInt64, true),
            ("unnamed"@, ConstantType::UInt64, true),
        ],
        refs: seq![
            Some(("supplier"@, 0usize)),
            Some(("supplier"@, 1usize)),
            Some(("supplier"@, 2usize)),
            Some(("supplier"@, 3usize)),
            Some(("supplier"@, 4usize)),
            Some(("supplier"@, 5usize)),
            Some(("supplier"@, 6usize)),
            Some(("part"@, 0usize)),
            Some(("part"@, 1usize)),
            Some(("part"@, 2usize)),
            Some(("part"@, 3usize)),
            Some(("part"@, 4usize)),
            Some(("part"@, 5usize)),
            Some(("part"@, 6usize)),
            Some(("part"@, 7usize)),
            Some(("part"@, 8usize)),
            Some(("lineitem"@, 0usize)),
            Some(("lineitem"@, 1usize)),
            Some(("lineitem"@, 2usize)),
            Some(("lineitem"@, 3usize)),
            Some(("lineitem"@, 4usize)),
            Some(("lineitem"@, 5usize)),
            Some(("lineitem"@, 6usize)),
            Some(("lineitem"@, 7usize)),
            Some(("lineitem"@, 8usize)),
            Some(("lineitem"@, 9usize)),
            Some(("lineitem"@, 10usize)),
            Some(("lineitem"@, 11usize)),
            Some(("lineitem"@, 12usize)),
            Some(("lineitem"@, 13usize)),
            Some(("lineitem"@, 14usize)),
            Some(("lineitem"@, 15usize)),
            Some(("orders"@, 0usize)),
            Some(("orders"@, 1usize)),
            Some(("orders"@, 4usize)),
        ],
        correlation: Some(replay(q8_group_11253_predicates())),
    }
}

/// Group 11253 of the memo of TPC-H query 8.
fn q8_memo_group_11253() -> (res: MemoGroupInfo)
    ensures
        res.wf(),
        res@ == q8_group_11253(),
{
    let mut attributes: Vec<Attribute> = Vec::new();
    attributes.push(attribute("s_suppkey", ConstantType::Int32, false));
    attributes.push(attribute("s_name", ConstantType::Utf8String, false));
    attributes.push(attribute("s_address", ConstantType::Utf8String, false));
    attributes.push(attribute("s_nationkey", ConstantType::Int32, false));
    attributes.push(attribute("s_phone", ConstantType::Utf8String, false));
    attributes.push(attribute("s_acctbal", ConstantType::Decimal, false));
    attributes.push(attribute("s_comment", ConstantType::Utf8String, false));
    attributes.push(attribute("p_partkey", ConstantType::Int32, false));
    attributes.push(attribute("p_name", ConstantType::Utf8String, false));
    attributes.push(attribute("p_mfgr", ConstantType::Utf8String, false));
    attributes.push(attribute("p_brand", ConstantType::Utf8String, false));
    attributes.push(attribute("p_type", ConstantType::Utf8String, false));
    attributes.push(attribute("p_size", ConstantType::Int32, false));
    attributes.push(attribute("p_container", ConstantType::Utf8String, false));
    attributes.push(attribute("p_retailprice", ConstantType::Decimal, false));
    attributes.push(attribute("p_comment", ConstantType::Utf8String, false));
    attributes.push(attribute("l_orderkey", ConstantType::Int32, false));
    attributes.push(attribute("l_partkey", ConstantType::Int32, false));
    attributes.push(attribute("l_suppkey", ConstantType::Int32, false));
    attributes.push(attribute("l_linenumber", ConstantType::Int32, false));
    attributes.push(attribute("l_quantity", ConstantType::Decimal, false));
    attributes.push(attribute("l_extendedprice", ConstantType::Decimal, false));
    attributes.push(attribute("l_discount", ConstantType::Decimal, false));
    attributes.push(attribute("l_tax", ConstantType::Decimal, false));
    attributes.push(attribute("l_returnflag", ConstantType::Utf8String, false));
    attributes.push(attribute("l_linestatus", ConstantType::Utf8String, false));
    attributes.push(attribute("l_shipdate", ConstantType::Date, false));
    attributes.push(attribute("l_commitdate", ConstantType::Date, false));
    attributes.push(attribute("l_receiptdate", ConstantType::Date, false));
    attributes.push(attribute("l_shipinstruct", ConstantType::Utf8String, false));
    attributes.push(attribute("l_shipmode", ConstantType::Utf8String, false));
    attributes.push(attribute("l_comment", ConstantType::Utf8String, false));
    attributes.push(attribute("unnamed", ConstantType::UInt64, true));
    attributes.push(attribute("unnamed", ConstantType::UInt64, true));
    attributes.push(attribute("unnamed", ConstantType::UInt64, true));
    let mut refs: Vec<AttrRef> = Vec::new();
    refs.push(base_ref("supplier", 0));
    refs.push(base_ref("supplier", 1));
    refs.push(base_ref("supplier", 2));
    refs.push(base_ref("supplier", 3));
    refs.push(base_ref("supplier", 4));
    refs.push(base_ref("supplier", 5));
    refs.push(base_ref("supplier", 6));
    refs.push(base_ref("part", 0));
    refs.push(base_ref("part", 1));
    refs.push(base_ref("part", 2));
    refs.push(base_ref("part", 3));
    refs.push(base_ref("part", 4));
    refs.push(base_ref("part", 5));
    refs.push(base_ref("part", 6));
    refs.push(base_ref("part", 7));
    refs.push(base_ref("part", 8));
    refs.push(base_ref("lineitem", 0));
    refs.push(base_ref("lineitem", 1));
    refs.push(base_ref("lineitem", 2));
    refs.push(base_ref("lineitem", 3));
    refs.push(base_ref("lineitem", 4));
    refs.push(base_ref("lineitem", 5));
    refs.push(base_ref("lineitem", 6));
    refs.push(base_ref("lineitem", 7));
    refs.push(base_ref("lineitem", 8));
    refs.push(base_ref("lineitem", 9));
    refs.push(base_ref("lineitem", 10));
    refs.push(base_ref("lineitem", 11));
    refs.push(base_ref("lineitem", 12));
    refs.push(base_ref("lineitem", 13));
    refs.push(base_ref("lineitem", 14));
    refs.push(base_ref("lineitem", 15));
    refs.push(base_ref("orders", 0));
    refs.push(base_ref("orders", 1));
    refs.push(base_ref("orders", 4));
    proof {
        assert(attribute_views(attributes@) =~= q8_group_11253().schema);
        assert(attr_ref_views(refs@) =~= q8_group_11253().refs);
    }
    let mut predicates: Vec<EqPredicate> = Vec::new();
    predicates.push(eq_predicate("lineitem", 0, "orders", 0));
    predicates.push(eq_predicate("lineitem", 2, "supplier", 0));
    predicates.push(eq_predicate("part", 0, "lineitem", 1));
    assert(eq_predicate_views(predicates@) =~= q8_group_11253_predicates());
    group_info(Schema { attributes }, refs, Some(correlation_of(predicates)))
}

/// The model of group 53 of the memo of TPC-H query 8.
pub open spec fn q8_group_53() -> MemoGroupView {
    MemoGroupView {
        schema: seq![
            ("c_custkey"@, ConstantType::Int32, false),
            ("c_name"@, ConstantType::Utf8String, false),
            ("c_address"@, ConstantType::Utf8String, false),
            ("c_nationkey"@, ConstantType::Int32, false),
            ("c_phone"@, ConstantType::Utf8String, false),
            ("c_acctbal"@, ConstantType::Decimal, false),
            ("c_mktsegment"@, ConstantType::Utf8String, false),
            ("c_comment"@, ConstantType::Utf8String, false),
        ],
        refs: seq![
            Some(("customer"@, 0usize)),
            Some(("customer"@, 1usize)),
            Some(("customer"@, 2usize)),
            Some(("customer"@, 3usize)),
            Some(("customer"@, 4usize)),
            Some(("customer"@, 5usize)),
            Some(("customer"@, 6usize)),
            Some(("customer"@, 7usize)),
        ],
        correlation: None,
    }
}

/// Group 53 of the memo of TPC-H query 8.
fn q8_memo_group_53() -> (res: MemoGroupInfo)
    ensures
        res.wf(),
        res@ == q8_group_53(),
{
    let mut attributes: Vec<Attribute> = Vec::new();
    attributes.push(attribute("c_custkey", ConstantType::Int32, false));
    attributes.push(attribute("c_name", ConstantType::Utf8String, false));
    attributes.push(attribute("c_address", ConstantType::Utf8String, false));
    attributes.push(attribute("c_nationkey", ConstantType::Int32, false));
    attributes.push(attribute("c_phone", ConstantType::Utf8String, false));
    attributes.push(attribute("c_acctbal", ConstantType::Decimal, false));
    attributes.push(attribute("c_mktsegment", ConstantType::Utf8String, false));
    attributes.push(attribute("c_comment", ConstantType::Utf8String, false));
    let mut refs: Vec<AttrRef> = Vec::new();
    refs.push(base_ref("customer", 0));
    refs.push(base_ref("customer", 1));
    refs.push(base_ref("customer", 2));
    refs.push(base_ref("customer", 3));
    refs.push(base_ref("customer", 4));
    refs.push(base_ref("customer", 5));
    refs.push(base_ref("customer", 6));
    refs.push(base_ref("customer", 7));
    proof {
        assert(attribute_views(attributes@) =~= q8_group_53().schema);
        assert(attr_ref_views(refs@) =~= q8_group_53().refs);
    }
    group_info(Schema { attributes }, refs, None)
}

/// The model of group 56 of the memo of TPC-H query 8.
pub open spec fn q8_group_56() -> MemoGroupView {
    MemoGroupView {
        schema: seq![
            ("unnamed"@, ConstantType::UInt64, true),
            ("unnamed"@, ConstantType::UInt64, true),
        ],
        refs: seq![
            Some(("customer"@, 0usize)),
            Some(("customer"@, 3usize)),
        ],
        correlation: None,
    }
}

/// Group 56 of the memo of TPC-H query 8.
fn q8_memo_group_56() -> (res: MemoGroupInfo)
    ensures
        res.wf(),
        res@ == q8_group_56(),
{
    let mut attributes: Vec<Attribute> = Vec::new();
    attributes.push(attribute("unnamed", ConstantType::UInt64, true));
    attributes.push(attribute("unnamed", ConstantType::UInt64, true));
    let mut refs: Vec<AttrRef> = Vec::new();
    refs.push(base_ref("customer", 0));
    refs.push(base_ref("customer", 3));
    proof {
        assert(attribute_views(attributes@) =~= q8_group_56().schema);
        assert(attr_ref_views(refs@) =~= q8_group_56().refs);
    }
    group_info(Schema { attributes }, refs, None)
}

/// The equality predicates of group 11657 of the memo of TPC-H query 8, in the order in
/// which they are added to its correlation.
pub open spec fn q8_group_11657_predicates() -> Seq<EqKey> {
    seq![
        (("lineitem"@, 2usize), ("supplier"@, 0usize)),
        (("orders"@, 1usize), ("customer"@, 0usize)),
        (("lineitem"@, 0usize), ("orders"@, 0usize)),
        (("part"@, 0usize), ("lineitem"@, 1usize)),
    ]
}

/// The model of group 11657 of the memo of TPC-H query 8.
pub open spec fn q8_group_11657() -> MemoGroupView {
    MemoGroupView {
        schema: seq![
            ("s_suppkey"@, ConstantType::Int32, false),
            ("s_name"@, ConstantType::Utf8String, false),
            ("s_address"@, ConstantType::Utf8String, false),
            ("s_nationkey"@, ConstantType::Int32, false),
            ("s_phone"@, ConstantType::Utf8String, false),
            ("s_acctbal"@, ConstantType::Decimal, false),
            ("s_comment"@, ConstantType::Utf8String, false),
            ("p_partkey"@, ConstantType::Int32, false),
            ("p_name"@, ConstantType::Utf8String, false),
            ("p_mfgr"@, ConstantType::Utf8String, false),
            ("p_brand"@, ConstantType::Utf8String, false),
            ("p_type"@, ConstantType::Utf8String, false),
            ("p_size"@, ConstantType::Int32, false),
            ("p_container"@, ConstantType::Utf8String, false),
            ("p_retailprice"@, ConstantType::Decimal, false),
            ("p_comment"@, ConstantType::Utf8String, false),
            ("l_orderkey"@, ConstantType::Int32, false),
            ("l_partkey"@, ConstantType::Int32, false),
            ("l_suppkey"@, ConstantType::Int32, false),
            ("l_linenumber"@, ConstantType::Int32, false),
            ("l_quantity"@, ConstantType::Decimal, false),
            ("l_extendedprice"@, ConstantType::Decimal, false),
            ("l_discount"@, ConstantType::Decimal, false),
            ("l_tax"@, ConstantType::Decimal, false),
            ("l_returnflag"@, ConstantType::Utf8String, false),
            ("l_linestatus"@, ConstantType::Utf8String, false),
            ("l_shipdate"@, ConstantType::Date, false),
            ("l_commitdate"@, ConstantType::Date, false),
            ("l_receiptdate"@, ConstantType::Date, false),
            ("l_shipinstruct"@, ConstantType::Utf8String, false),
            ("l_shipmode"@, ConstantType::Utf8String, false),
            ("l_comment"@, ConstantType::Utf8String, false),
            ("unnamed"@, ConstantType::UInt64, true),
            ("unnamed"@, ConstantType::UInt64, true),
            ("unnamed"@, ConstantType::UInt64, true),
            ("unnamed"@, ConstantType::UInt64, true),
            ("unnamed"@, ConstantType::UInt64, true),
        ],
        refs: seq![
            Some(("supplier"@, 0usize)),
            Some(("supplier"@, 1usize)),
            Some(("supplier"@, 2usize)),
            Some(("supplier"@, 3usize)),
            Some(("supplier"@, 4usize)),
            Some(("supplier"@, 5usize)),
            Some(("supplier"@, 6usize)),
            Some(("part"@, 0usize)),
            Some(("part"@, 1usize)),
            Some(("part"@, 2usize)),
            Some(("part"@, 3usize)),
            Some(("part"@, 4usize)),
            Some(("part"@, 5usize)),
            Some(("part"@, 6usize)),
            Some(("part"@, 7usize)),
            Some(("part"@, 8usize)),
            Some(("lineitem"@, 0usize)),
            Some(("lineitem"@, 1usize)),
            Some(("lineitem"@, 2usize)),
            Some(("lineitem"@, 3usize)),
            Some(("lineitem"@, 4usize)),
            Some(("lineitem"@, 5usize)),
            Some(("lineitem"@, 6usize)),
            Some(("lineitem"@, 7usize)),
            Some(("lineitem"@, 8usize)),
            Some(("lineitem"@, 9usize)),
            Some(("lineitem"@, 10usize)),
            Some(("lineitem"@, 11usize)),
            Some(("lineitem"@, 12usize)),
            Some(("lineitem"@, 13usize)),
            Some(("lineitem"@, 14usize)),
            Some(("lineitem"@, 15usize)),
            Some(("orders"@, 0usize)),
            Some(("orders"@, 1usize)),
            Some(("orders"@, 4usize)),
            Some(("customer"@, 0usize)),
            Some(("customer"@, 3usize)),
        ],
        correlation: Some(replay(q8_group_11657_predicates())),
    }
}

/// Group 11657 of the memo of TPC-H query 8.
fn q8_memo_group_11657() -> (res: MemoGroupInfo)
    ensures
        res.wf(),
        res@ == q8_group_11657(),
{
    let mut attributes: Vec<Attribute> = Vec::new();
    attributes.push(attribute("s_suppkey", ConstantType::Int32, false));
    attributes.push(attribute("s_name", ConstantType::Utf8String, false));
    attributes.push(attribute("s_address", ConstantType::Utf8String, false));
    attributes.push(attribute("s_nationkey", ConstantType::Int32, false));
    attributes.push(attribute("s_phone", ConstantType::Utf8String, false));
    attributes.push(attribute("s_acctbal", ConstantType::Decimal, false));
    attributes.push(attribute("s_comment", ConstantType::Utf8String, false));
    attributes.push(attribute("p_partkey", ConstantType::Int32, false));
    attributes.push(attribute("p_name", ConstantType::Utf8String, false));
    attributes.push(attribute("p_mfgr", ConstantType::Utf8String, false));
    attributes.push(attribute("p_brand", ConstantType::Utf8String, false));
    attributes.push(attribute("p_type", ConstantType::Utf8String, false));
    attributes.push(attribute("p_size", ConstantType::Int32, false));
    attributes.push(attribute("p_container", ConstantType::Utf8String, false));
    attributes.push(attribute("p_retailprice", ConstantType::Decimal, false));
    attributes.push(attribute("p_comment", ConstantType::Utf8String, false));
    attributes.push(attribute("l_orderkey", ConstantType::Int32, false));
    attributes.push(attribute("l_partkey", ConstantType::Int32, false));
    attributes.push(attribute("l_suppkey", ConstantType::Int32, false));
    attributes.push(attribute("l_linenumber", ConstantType::Int32, false));
    attributes.push(attribute("l_quantity", ConstantType::Decimal, false));
    attributes.push(attribute("l_extendedprice", ConstantType::Decimal, false));
    attributes.push(attribute("l_discount", ConstantType::Decimal, false));
    attributes.push(attribute("l_tax", ConstantType::Decimal, false));
    attributes.push(attribute("l_returnflag", ConstantType::Utf8String, false));
    attributes.push(attribute("l_linestatus", ConstantType::Utf8String, false));
    attributes.push(attribute("l_shipdate", ConstantType::Date, false));
    attributes.push(attribute("l_commitdate", ConstantType::Date, false));
    attributes.push(attribute("l_receiptdate", ConstantType::Date, false));
    attributes.push(attribute("l_shipinstruct", ConstantType::Utf8String, false));
    attributes.push(attribute("l_shipmode", ConstantType::Utf8String, false));
    attributes.push(attribute("l_comment", ConstantType::Utf8String, false));
    attributes.push(attribute("unnamed", ConstantType::UInt64, true));
    attributes.push(attribute("unnamed", ConstantType::UInt64, true));
    attributes.push(attribute("unnamed", ConstantType::UInt64, true));
    attributes.push(attribute("unnamed", ConstantType::UInt64, true));
    attributes.push(attribute("unnamed", ConstantType::UInt64, true));
    let mut refs: Vec<AttrRef> = Vec::new();
    refs.push(base_ref("supplier", 0));
    refs.push(base_ref("supplier", 1));
    refs.push(base_ref("supplier", 2));
    refs.push(base_ref("supplier", 3));
    refs.push(base_ref("supplier", 4));
    refs.push(base_ref("supplier", 5));
    refs.push(base_ref("supplier", 6));
    refs.push(base_ref("part", 0));
    refs.push(base_ref("part", 1));
    refs.push(base_ref("part", 2));
    refs.push(base_ref("part", 3));
    refs.push(base_ref("part", 4));
    refs.push(base_ref("part", 5));
    refs.push(base_ref("part", 6));
    refs.push(base_ref("part", 7));
    refs.push(base_ref("part", 8));
    refs.push(base_ref("lineitem", 0));
    refs.push(base_ref("lineitem", 1));
    refs.push(base_ref("lineitem", 2));
    refs.push(base_ref("lineitem", 3));
    refs.push(base_ref("lineitem", 4));
    refs.push(base_ref("lineitem", 5));
    refs.push(base_ref("lineitem", 6));
    refs.push(base_ref("lineitem", 7));
    refs.push(base_ref("lineitem", 8));
    refs.push(base_ref("lineitem", 9));
    refs.push(base_ref("lineitem", 10));
    refs.push(base_ref("lineitem", 11));
    refs.push(base_ref("lineitem", 12));
    refs.push(base_ref("lineitem", 13));
    refs.push(base_ref("lineitem", 14));
    refs.push(base_ref("lineitem", 15));
    refs.push(base_ref("orders", 0));
    refs.push(base_ref("orders", 1));
    refs.push(base_ref("orders", 4));
    refs.push(base_ref("customer", 0));
    refs.push(base_ref("customer", 3));
    proof {
        assert(attribute_views(attributes@) =~= q8_group_11657().schema);
        assert(attr_ref_views(refs@) =~= q8_group_11657().refs);
    }
    let mut predicates: Vec<EqPredicate> = Vec::new();
    predicates.push(eq_predicate("lineitem", 2, "supplier", 0));
    predicates.push(eq_predicate("orders", 1, "customer", 0));
    predicates.push(eq_predicate("lineitem", 0, "orders", 0));
    predicates.push(eq_predicate("part", 0, "lineitem", 1));
    assert(eq_predicate_views(predicates@) =~= q8_group_11657_predicates());
    group_info(Schema { attributes }, refs, Some(correlation_of(predicates)))
}

/// The model of group 65 of the memo of TPC-H query 8.
pub open spec fn q8_group_65() -> MemoGroupView {
    MemoGroupView {
        schema: seq![
            ("n_nationkey"@, ConstantType::Int32, false),
            ("n_name"@, ConstantType::Utf8String, false),
            ("n_regionkey"@, ConstantType::Int32, false),
            ("n_comment"@, ConstantType::Utf8String, true),
        ],
        refs: seq![
            Some(("nation"@, 0usize)),
            Some(("nation"@, 1usize)),
            Some(("nation"@, 2usize)),
            Some(("nation"@, 3usize)),
        ],
        correlation: None,
    }
}

/// Group 65 of the memo of TPC-H query 8.
fn q8_memo_group_65() -> (res: MemoGroupInfo)
    ensures
        res.wf(),
        res@ == q8_group_65(),
{
    let mut attributes: Vec<Attribute> = Vec::new();
    attributes.push(attribute("n_nationkey", ConstantType::Int32, false));
    attributes.push(attribute("n_name", ConstantType::Utf8String, false));
    attributes.push(attribute("n_regionkey", ConstantType::Int32, false));
    attributes.push(attribute("n_comment", ConstantType::Utf8String, true));
    let mut refs: Vec<AttrRef> = Vec::new();
    refs.push(base_ref("nation", 0));
    refs.push(base_ref("nation", 1));
    refs.push(base_ref("nation", 2));
    refs.push(base_ref("nation", 3));
    proof {
        assert(attribute_views(attributes@) =~= q8_group_65().schema);
        assert(attr_ref_views(refs@) =~= q8_group_65().refs);
    }
    group_info(Schema { attributes }, refs, None)
}

/// The model of group 68 of the memo of TPC-H query 8.
pub open spec fn q8_group_68() -> MemoGroupView {
    MemoGroupView {
        schema: seq![
            ("unnamed"@, ConstantType::UInt64, true),
            ("unnamed"@, ConstantType::UInt64, true),
        ],
        refs: seq![
            Some(("nation"@, 0usize)),
            Some(("nation"@, 2usize)),
        ],
        correlation: None,
    }
}

/// Group 68 of the memo of TPC-H query 8.
fn q8_memo_group_68() -> (res: MemoGroupInfo)
    ensures
        res.wf(),
        res@ == q8_group_68(),
{
    let mut attributes: Vec<Attribute> = Vec::new();
    attributes.push(attribute("unnamed", ConstantType::UInt64, true));
    attributes.push(attribute("unnamed", ConstantType::UInt64, true));
    let mut refs: Vec<AttrRef> = Vec::new();
    refs.push(base_ref("nation", 0));
    refs.push(base_ref("nation", 2));
    proof {
        assert(attribute_views(attributes@) =~= q8_group_68().schema);
        assert(attr_ref_views(refs@) =~= q8_group_68().refs);
    }
    group_info(Schema { attributes }, refs, None)
}

/// The equality predicates of group 12075 of the memo of TPC-H query 8, in the order in
/// which they are added to its correlation.
pub open spec fn q8_group_12075_predicates() -> Seq<EqKey> {
    seq![
        (("customer"@, 3usize), ("nation"@, 0usize)),
        (("lineitem"@, 2usize), ("supplier"@, 0usize)),
        (("orders"@, 1usize), ("customer"@, 0usize)),
        (("lineitem"@, 0usize), ("orders"@, 0usize)),
        (("part"@, 0usize), ("lineitem"@, 1usize)),
    ]
}

/// The model of group 12075 of the memo of TPC-H query 8.
pub open spec fn q8_group_12075() -> MemoGroupView {
    MemoGroupView {
        schema: seq![
            ("s_suppkey"@, ConstantType::Int32, false),
            ("s_name"@, ConstantType::Utf8String, false),
            ("s_address"@, ConstantType::Utf8String, false),
            ("s_nationkey"@, ConstantType::Int32, false),
            ("s_phone"@, ConstantType::Utf8String, false),
            ("s_acctbal"@, ConstantType::Decimal, false),
            ("s_comment"@, ConstantType::Utf8String, false),
            ("p_partkey"@, ConstantType::Int32, false),
            ("p_name"@, ConstantType::Utf8String, false),
            ("p_mfgr"@, ConstantType::Utf8String, false),
            ("p_brand"@, ConstantType::Utf8String, false),
            ("p_type"@, ConstantType::Utf8String, false),
            ("p_size"@, ConstantType::Int32, false),
            ("p_container"@, ConstantType::Utf8String, false),
            ("p_retailprice"@, ConstantType::Decimal, false),
            ("p_comment"@, ConstantType::Utf8String, false),
            ("l_orderkey"@, ConstantType::Int32, false),
            ("l_partkey"@, ConstantType::Int32, false),
            ("l_suppkey"@, ConstantType::Int32, false),
            ("l_linenumber"@, ConstantType::Int32, false),
            ("l_quantity"@, ConstantType::Decimal, false),
            ("l_extendedprice"@, ConstantType::Decimal, false),
            ("l_discount"@, ConstantType::Decimal, false),
            ("l_tax"@, ConstantType::Decimal, false),
            ("l_returnflag"@, ConstantType::Utf8String, false),
            ("l_linestatus"@, ConstantType::Utf8String, false),
            ("l_shipdate"@, ConstantType::Date, false),
            ("l_commitdate"@, ConstantType::Date, false),
            ("l_receiptdate"@, ConstantType::Date, false),
            ("l_shipinstruct"@, ConstantType::Utf8String, false),
            ("l_shipmode"@, ConstantType::Utf8String, false),
            ("l_comment"@, ConstantType::Utf8String, false),
            ("unnamed"@, ConstantType::UInt64, true),
            ("unnamed"@, ConstantType::UInt64, true),
            ("unnamed"@, ConstantType::UInt64, true),
            ("unnamed"@, ConstantType::UInt64, true),
            ("unnamed"@, ConstantType::UInt64, true),
            ("unnamed"@, ConstantType::UInt64, true),
            ("unnamed"@, ConstantType::UInt64, true),
        ],
        refs: seq![
            Some(("supplier"@, 0usize)),
            Some(("supplier"@, 1usize)),
            Some(("supplier"@, 2usize)),
            Some(("supplier"@, 3usize)),
            Some(("supplier"@, 4usize)),
            Some(("supplier"@, 5usize)),
            Some(("supplier"@, 6usize)),
            Some(("part"@, 0usize)),
            Some(("part"@, 1usize)),
            Some(("part"@, 2usize)),
            Some(("part"@, 3usize)),
            Some(("part"@, 4usize)),
            Some(("part"@, 5usize)),
            Some(("part"@, 6usize)),
            Some(("part"@, 7usize)),
            Some(("part"@, 8usize)),
            Some(("lineitem"@, 0usize)),
            Some(("lineitem"@, 1usize)),
            Some(("lineitem"@, 2usize)),
            Some(("lineitem"@, 3usize)),
            Some(("lineitem"@, 4usize)),
            Some(("lineitem"@, 5usize)),
            Some(("lineitem"@, 6usize)),
            Some(("lineitem"@, 7usize)),
            Some(("lineitem"@, 8usize)),
            Some(("lineitem"@, 9usize)),
            Some(("lineitem"@, 10usize)),
            Some(("lineitem"@, 11usize)),
            Some(("lineitem"@, 12usize)),
            Some(("lineitem"@, 13usize)),
            Some(("lineitem"@, 14usize)),
            Some(("lineitem"@, 15usize)),
            Some(("orders"@, 0usize)),
            Some(("orders"@, 1usize)),
            Some(("orders"@, 4usize)),
            Some(("customer"@, 0usize)),
            Some(("customer"@, 3usize)),
            Some(("nation"@, 0usize)),
            Some(("nation"@, 2usize)),
        ],
        correlation: Some(replay(q8_group_12075_predicates())),
    }
}

/// Group 12075 of the memo of TPC-H query 8.
fn q8_memo_group_12075() -> (res: MemoGroupInfo)
    ensures
        res.wf(),
        res@ == q8_group_12075(),
{
    let mut attributes: Vec<Attribute> = Vec::new();
    attributes.push(attribute("s_suppkey", ConstantType::Int32, false));
    attributes.push(attribute("s_name", ConstantType::Utf8String, false));
    attributes.push(attribute("s_address", ConstantType::Utf8String, false));
    attributes.push(attribute("s_nationkey", ConstantType::Int32, false));
    attributes.push(attribute("s_phone", ConstantType::Utf8String, false));
    attributes.push(attribute("s_acctbal", ConstantType::Decimal, false));
    attributes.push(attribute("s_comment", ConstantType::Utf8String, false));
    attributes.push(attribute("p_partkey", ConstantType::Int32, false));
    attributes.push(attribute("p_name", ConstantType::Utf8String, false));
    attributes.push(attribute("p_mfgr", ConstantType::Utf8String, false));
    attributes.push(attribute("p_brand", ConstantType::Utf8String, false));
    attributes.push(attribute("p_type", ConstantType::Utf8String, false));
    attributes.push(attribute("p_size", ConstantType::Int32, false));
    attributes.push(attribute("p_container", ConstantType::Utf8String, false));
    attributes.push(attribute("p_retailprice", ConstantType::Decimal, false));
    attributes.push(attribute("p_comment", ConstantType::Utf8String, false));
    attributes.push(attribute("l_orderkey", ConstantType::Int32, false));
    attributes.push(attribute("l_partkey", ConstantType::Int32, false));
    attributes.push(attribute("l_suppkey", ConstantType::Int32, false));
    attributes.push(attribute("l_linenumber", ConstantType::Int32, false));
    attributes.push(attribute("l_quantity", ConstantType::Decimal, false));
    attributes.push(attribute("l_extendedprice", ConstantType::Decimal, false));
    attributes.push(attribute("l_discount", ConstantType::Decimal, false));
    attributes.push(attribute("l_tax", ConstantType::Decimal, false));
    attributes.push(attribute("l_returnflag", ConstantType::Utf8String, false));
    attributes.push(attribute("l_linestatus", ConstantType::Utf8String, false));
    attributes.push(attribute("l_shipdate", ConstantType::Date, false));
    attributes.push(attribute("l_commitdate", ConstantType::Date, false));
    attributes.push(attribute("l_receiptdate", ConstantType::Date, false));
    attributes.push(attribute("l_shipinstruct", ConstantType::Utf8String, false));
    attributes.push(attribute("l_shipmode", ConstantType::Utf8String, false));
    attributes.push(attribute("l_comment", ConstantType::Utf8String, false));
    attributes.push(attribute("unnamed", ConstantType::UInt64, true));
    attributes.push(attribute("unnamed", ConstantType::UInt64, true));
    attributes.push(attribute("unnamed", ConstantType::UInt64, true));
    attributes.push(attribute("unnamed", ConstantType::UInt64, true));
    attributes.push(attribute("unnamed", ConstantType::UInt64, true));
    attributes.push(attribute("unnamed", ConstantType::UInt64, true));
    attributes.push(attribute("unnamed", ConstantType::UInt64, true));
    let mut refs: Vec<AttrRef> = Vec::new();
    refs.push(base_ref("supplier", 0));
    refs.push(base_ref("supplier", 1));
    refs.push(base_ref("supplier", 2));
    refs.push(base_ref("supplier", 3));
    refs.push(base_ref("supplier", 4));
    refs.push(base_ref("supplier", 5));
    refs.push(base_ref("supplier", 6));
    refs.push(base_ref("part", 0));
    refs.push(base_ref("part", 1));
    refs.push(base_ref("part", 2));
    refs.push(base_ref("part", 3));
    refs.push(base_ref("part", 4));
    refs.push(base_ref("part", 5));
    refs.push(base_ref("part", 6));
    refs.push(base_ref("part", 7));
    refs.push(base_ref("part", 8));
    refs.push(base_ref("lineitem", 0));
    refs.push(base_ref("lineitem", 1));
    refs.push(base_ref("lineitem", 2));
    refs.push(base_ref("lineitem", 3));
    refs.push(base_ref("lineitem", 4));
    refs.push(base_ref("lineitem", 5));
    refs.push(base_ref("lineitem", 6));
    refs.push(base_ref("lineitem", 7));
    refs.push(base_ref("lineitem", 8));
    refs.push(base_ref("lineitem", 9));
    refs.push(base_ref("lineitem", 10));
    refs.push(base_ref("lineitem", 11));
    refs.push(base_ref("lineitem", 12));
    refs.push(base_ref("lineitem", 13));
    refs.push(base_ref("lineitem", 14));
    refs.push(base_ref("lineitem", 15));
    refs.push(base_ref("orders", 0));
    refs.push(base_ref("orders", 1));
    refs.push(base_ref("orders", 4));
    refs.push(base_ref("customer", 0));
    refs.push(base_ref("customer", 3));
    refs.push(base_ref("nation", 0));
    refs.push(base_ref("nation", 2));
    proof {
        assert(attribute_views(attributes@) =~= q8_group_12075().schema);
        assert(attr_ref_views(refs@) =~= q8_group_12075().refs);
    }
    let mut predicates: Vec<EqPredicate> = Vec::new();
    predicates.push(eq_predicate("customer", 3, "nation", 0));
    predicates.push(eq_predicate("lineitem", 2, "supplier", 0));
    predicates.push(eq_predicate("orders", 1, "customer", 0));
    predicates.push(eq_predicate("lineitem", 0, "orders", 0));
    predicates.push(eq_predicate("part", 0, "lineitem", 1));
    assert(eq_predicate_views(predicates@) =~= q8_group_12075_predicates());
    group_info(Schema { attributes }, refs, Some(correlation_of(predicates)))
}

/// The model of group 78 of the memo of TPC-H query 8.
pub open spec fn q8_group_78() -> MemoGroupView {
    MemoGroupView {
        schema: seq![
            ("unnamed"@, ConstantType::UInt64, true),
            ("unnamed"@, ConstantType::UInt64, true),
        ],
        refs: seq![
            Some(("nation"@, 0usize)),
            Some(("nation"@, 1usize)),
        ],
        correlation: None,
    }
}

/// Group 78 of the memo of TPC-H query 8.
fn q8_memo_group_78() -> (res: MemoGroupInfo)
    ensures
        res.wf(),
        res@ == q8_group_78(),
{
    let mut attributes: Vec<Attribute> = Vec::new();
    attributes.push(attribute("unnamed", ConstantType::UInt64, true));
    attributes.push(attribute("unnamed", ConstantType::UInt64, true));
    let mut refs: Vec<AttrRef> = Vec::new();
    refs.push(base_ref("nation", 0));
    refs.push(base_ref("nation", 1));
    proof {
        assert(attribute_views(attributes@) =~= q8_group_78().schema);
        assert(attr_ref_views(refs@) =~= q8_group_78().refs);
    }
    group_info(Schema { attributes }, refs, None)
}

/// The equality predicates of group 12507 of the memo of TPC-H query 8, in the order in
/// which they are added to its correlation.
pub open spec fn q8_group_12507_predicates() -> Seq<EqKey> {
    seq![
        (("customer"@, 3usize), ("nation"@, 0usize)),
        (("supplier"@, 3usize), ("nation"@, 0usize)),
        (("lineitem"@, 2usize), ("supplier"@, 0usize)),
        (("orders"@, 1usize), ("customer"@, 0usize)),
        (("lineitem"@, 0usize), ("orders"@, 0usize)),
        (("part"@, 0usize), ("lineitem"@, 1usize)),
    ]
}

/// The model of group 12507 of the memo of TPC-H query 8.
pub open spec fn q8_group_12507() -> MemoGroupView {
    MemoGroupView {
        schema: seq![
            ("s_suppkey"@, ConstantType::Int32, false),
            ("s_name"@, ConstantType::Utf8String, false),
            ("s_address"@, ConstantType::Utf8String, false),
            ("s_nationkey"@, ConstantType::Int32, false),
            ("s_phone"@, ConstantType::Utf8String, false),
            ("s_acctbal"@, ConstantType::Decimal, false),
            ("s_comment"@, ConstantType::Utf8String, false),
            ("p_partkey"@, ConstantType::Int32, false),
            ("p_name"@, ConstantType::Utf8String, false),
            ("p_mfgr"@, ConstantType::Utf8String, false),
            ("p_brand"@, ConstantType::Utf8String, false),
            ("p_type"@, ConstantType::Utf8String, false),
            ("p_size"@, ConstantType::Int32, false),
            ("p_container"@, ConstantType::Utf8String, false),
            ("p_retailprice"@, ConstantType::Decimal, false),
            ("p_comment"@, ConstantType::Utf8String, false),
            ("l_orderkey"@, ConstantType::Int32, false),
            ("l_partkey"@, ConstantType::Int32, false),
            ("l_suppkey"@, ConstantType::Int32, false),
            ("l_linenumber"@, ConstantType::Int32, false),
            ("l_quantity"@, ConstantType::Decimal, false),
            ("l_extendedprice"@, ConstantType::Decimal, false),
            ("l_discount"@, ConstantType::Decimal, false),
            ("l_tax"@, ConstantType::Decimal, false),
            ("l_returnflag"@, ConstantType::Utf8String, false),
            ("l_linestatus"@, ConstantType::Utf8String, false),
            ("l_shipdate"@, ConstantType::Date, false),
            ("l_commitdate"@, ConstantType::Date, false),
            ("l_receiptdate"@, ConstantType::Date, false),
            ("l_shipinstruct"@, ConstantType::Utf8String, false),
            ("l_shipmode"@, ConstantType::Utf8String, false),
            ("l_comment"@, ConstantType::Utf8String, false),
            ("unnamed"@, ConstantType::UInt64, true),
            ("unnamed"@, ConstantType::UInt64, true),
            ("unnamed"@, ConstantType::UInt64, true),
            ("unnamed"@, ConstantType::UInt64, true),
            ("unnamed"@, ConstantType::UInt64, true),
            ("unnamed"@, ConstantType::UInt64, true),
            ("unnamed"@, ConstantType::UInt64, true),
            ("unnamed"@, ConstantType::UInt64, true),
            ("unnamed"@, ConstantType::UInt64, true),
        ],
        refs: seq![
            Some(("supplier"@, 0usize)),
            Some(("supplier"@, 1usize)),
            Some(("supplier"@, 2usize)),
            Some(("supplier"@, 3usize)),
            Some(("supplier"@, 4usize)),
            Some(("supplier"@, 5usize)),
            Some(("supplier"@, 6usize)),
            Some(("part"@, 0usize)),
            Some(("part"@, 1usize)),
            Some(("part"@, 2usize)),
            Some(("part"@, 3usize)),
            Some(("part"@, 4usize)),
            Some(("part"@, 5usize)),
            Some(("part"@, 6usize)),
            Some(("part"@, 7usize)),
            Some(("part"@, 8usize)),
            Some(("lineitem"@, 0usize)),
            Some(("lineitem"@, 1usize)),
            Some(("lineitem"@, 2usize)),
            Some(("lineitem"@, 3usize)),
            Some(("lineitem"@, 4usize)),
            Some(("lineitem"@, 5usize)),
            Some(("lineitem"@, 6usize)),
            Some(("lineitem"@, 7usize)),
            Some(("lineitem"@, 8usize)),
            Some(("lineitem"@, 9usize)),
            Some(("lineitem"@, 10usize)),
            Some(("lineitem"@, 11usize)),
            Some(("lineitem"@, 12usize)),
            Some(("lineitem"@, 13usize)),
            Some(("lineitem"@, 14usize)),
            Some(("lineitem"@, 15usize)),
            Some(("orders"@, 0usize)),
            Some(("orders"@, 1usize)),
            Some(("orders"@, 4usize)),
            Some(("customer"@, 0usize)),
            Some(("customer"@, 3usize)),
            Some(("nation"@, 0usize)),
            Some(("nation"@, 2usize)),
            Some(("nation"@, 0usize)),
            Some(("nation"@, 1usize)),
        ],
        correlation: Some(replay(q8_group_12507_predicates())),
    }
}

/// Group 12507 of the memo of TPC-H query 8.
fn q8_memo_group_12507() -> (res: MemoGroupInfo)
    ensures
        res.wf(),
        res@ == q8_group_12507(),
{
    let mut attributes: Vec<Attribute> = Vec::new();
    attributes.push(attribute("s_suppkey", ConstantType::Int32, false));
    attributes.push(attribute("s_name", ConstantType::Utf8String, false));
    attributes.push(attribute("s_address", ConstantType::Utf8String, false));
    attributes.push(attribute("s_nationkey", ConstantType::Int32, false));
    attributes.push(attribute("s_phone", ConstantType::Utf8String, false));
    attributes.push(attribute("s_acctbal", ConstantType::Decimal, false));
    attributes.push(attribute("s_comment", ConstantType::Utf8String, false));
    attributes.push(attribute("p_partkey", ConstantType::Int32, false));
    attributes.push(attribute("p_name", ConstantType::Utf8String, false));
    attributes.push(attribute("p_mfgr", ConstantType::Utf8String, false));
    attributes.push(attribute("p_brand", ConstantType::Utf8String, false));
    attributes.push(attribute("p_type", ConstantType::Utf8String, false));
    attributes.push(attribute("p_size", ConstantType::Int32, false));
    attributes.push(attribute("p_container", ConstantType::Utf8String, false));
    attributes.push(attribute("p_retailprice", ConstantType::Decimal, false));
    attributes.push(attribute("p_comment", ConstantType::Utf8String, false));
    attributes.push(attribute("l_orderkey", ConstantType::Int32, false));
    attributes.push(attribute("l_partkey", ConstantType::Int32, false));
    attributes.push(attribute("l_suppkey", ConstantType::Int32, false));
    attributes.push(attribute("l_linenumber", ConstantType::Int32, false));
    attributes.push(attribute("l_quantity", ConstantType::Decimal, false));
    attributes.push(attribute("l_extendedprice", ConstantType::Decimal, false));
    attributes.push(attribute("l_discount", ConstantType::Decimal, false));
    attributes.push(attribute("l_tax", ConstantType::Decimal, false));
    attributes.push(attribute("l_returnflag", ConstantType::Utf8String, false));
    attributes.push(attribute("l_linestatus", ConstantType::Utf8String, false));
    attributes.push(attribute("l_shipdate", ConstantType::Date, false));
    attributes.push(attribute("l_commitdate", ConstantType::Date, false));
    attributes.push(attribute("l_receiptdate", ConstantType::Date, false));
    attributes.push(attribute("l_shipinstruct", ConstantType::Utf8String, false));
    attributes.push(attribute("l_shipmode", ConstantType::Utf8String, false));
    attributes.push(attribute("l_comment", ConstantType::Utf8String, false));
    attributes.push(attribute("unnamed", ConstantType::UInt64, true));
    attributes.push(attribute("unnamed", ConstantType::UInt64, true));
    attributes.push(attribute("unnamed", ConstantType::UInt64, true));
    attributes.push(attribute("unnamed", ConstantType::UInt64, true));
    attributes.push(attribute("unnamed", ConstantType::UInt64, true));
    attributes.push(attribute("unnamed", ConstantType::UInt64, true));
    attributes.push(attribute("unnamed", ConstantType::UInt64, true));
    attributes.push(attribute("unnamed", ConstantType::UInt64, true));
    attributes.push(attribute("unnamed", ConstantType::UInt64, true));
    let mut refs: Vec<AttrRef> = Vec::new();
    refs.push(base_ref("supplier", 0));
    refs.push(base_ref("supplier", 1));
    refs.push(base_ref("supplier", 2));
    refs.push(base_ref("supplier", 3));
    refs.push(base_ref("supplier", 4));
    refs.push(base_ref("supplier", 5));
    refs.push(base_ref("supplier", 6));
    refs.push(base_ref("part", 0));
    refs.push(base_ref("part", 1));
    refs.push(base_ref("part", 2));
    refs.push(base_ref("part", 3));
    refs.push(base_ref("part", 4));
    refs.push(base_ref("part", 5));
    refs.push(base_ref("part", 6));
    refs.push(base_ref("part", 7));
    refs.push(base_ref("part", 8));
    refs.push(base_ref("lineitem", 0));
    refs.push(base_ref("lineitem", 1));
    refs.push(base_ref("lineitem", 2));
    refs.push(base_ref("lineitem", 3));
    refs.push(base_ref("lineitem", 4));
    refs.push(base_ref("lineitem", 5));
    refs.push(base_ref("lineitem", 6));
    refs.push(base_ref("lineitem", 7));
    refs.push(base_ref("lineitem", 8));
    refs.push(base_ref("lineitem", 9));
    refs.push(base_ref("lineitem", 10));
    refs.push(base_ref("lineitem", 11));
    refs.push(base_ref("lineitem", 12));
    refs.push(base_ref("lineitem", 13));
    refs.push(base_ref("lineitem", 14));
    refs.push(base_ref("lineitem", 15));
    refs.push(base_ref("orders", 0));
    refs.push(base_ref("orders", 1));
    refs.push(base_ref("orders", 4));
    refs.push(base_ref("customer", 0));
    refs.push(base_ref("customer", 3));
    refs.push(base_ref("nation", 0));
    refs.push(base_ref("nation", 2));
    refs.push(base_ref("nation", 0));
    refs.push(base_ref("nation", 1));
    proof {
        assert(attribute_views(attributes@) =~= q8_group_12507().schema);
        assert(attr_ref_views(refs@) =~= q8_group_12507().refs);
    }
    let mut predicates: Vec<EqPredicate> = Vec::new();
    predicates.push(eq_predicate("customer", 3, "nation", 0));
    predicates.push(eq_predicate("supplier", 3, "nation", 0));
    predicates.push(eq_predicate("lineitem", 2, "supplier", 0));
    predicates.push(eq_predicate("orders", 1, "customer", 0));
    predicates.push(eq_predicate("lineitem", 0, "orders", 0));
    predicates.push(eq_predicate("part", 0, "lineitem", 1));
    assert(eq_predicate_views(predicates@) =~= q8_group_12507_predicates());
    group_info(Schema { attributes }, refs, Some(correlation_of(predicates)))
}

/// The model of group 87 of the memo of TPC-H query 8.
pub open spec fn q8_group_87() -> MemoGroupView {
    MemoGroupView {
        schema: seq![
            ("r_regionkey"@, ConstantType::Int32, false),
            ("r_name"@, ConstantType::Utf8String, false),
            ("r_comment"@, ConstantType::Utf8String, true),
        ],
        refs: seq![
            Some(("region"@, 0usize)),
            Some(("region"@, 1usize)),
            Some(("region"@, 2usize)),
        ],
        correlation: None,
    }
}

/// Group 87 of the memo of TPC-H query 8.
fn q8_memo_group_87() -> (res: MemoGroupInfo)
    ensures
        res.wf(),
        res@ == q8_group_87(),
{
    let mut attributes: Vec<Attribute> = Vec::new();
    attributes.push(attribute("r_regionkey", ConstantType::Int32, false));
    attributes.push(attribute("r_name", ConstantType::Utf8String, false));
    attributes.push(attribute("r_comment", ConstantType::Utf8String, true));
    let mut refs: Vec<AttrRef> = Vec::new();
    refs.push(base_ref("region", 0));
    refs.push(base_ref("region", 1));
    refs.push(base_ref("region", 2));
    proof {
        assert(attribute_views(attributes@) =~= q8_group_87().schema);
        assert(attr_ref_views(refs@) =~= q8_group_87().refs);
    }
    group_info(Schema { attributes }, refs, None)
}

/// The model of group 119 of the memo of TPC-H query 8.
pub open spec fn q8_group_119() -> MemoGroupView {
    MemoGroupView {
        schema: seq![
            ("r_regionkey"@, ConstantType::Int32, false),
            ("r_name"@, ConstantType::Utf8String, false),
            ("r_comment"@, ConstantType::Utf8String, true),
        ],
        refs: seq![
            Some(("region"@, 0usize)),
            Some(("region"@, 1usize)),
            Some(("region"@, 2usize)),
        ],
        correlation: None,
    }
}

/// Group 119 of the memo of TPC-H query 8.
fn q8_memo_group_119() -> (res: MemoGroupInfo)
    ensures
        res.wf(),
        res@ == q8_group_119(),
{
    let mut attributes: Vec<Attribute> = Vec::new();
    attributes.push(attribute("r_regionkey", ConstantType::Int32, false));
    attributes.push(attribute("r_name", ConstantType::Utf8String, false));
    attributes.push(attribute("r_comment", ConstantType::Utf8String, true));
    let mut refs: Vec<AttrRef> = Vec::new();
    refs.push(base_ref("region", 0));
    refs.push(base_ref("region", 1));
    refs.push(base_ref("region", 2));
    proof {
        assert(attribute_views(attributes@) =~= q8_group_119().schema);
        assert(attr_ref_views(refs@) =~= q8_group_119().refs);
    }
    group_info(Schema { attributes }, refs, None)
}

/// The model of group 96 of the memo of TPC-H query 8.
pub open spec fn q8_group_96() -> MemoGroupView {
    MemoGroupView {
        schema: seq![
            ("unnamed"@, ConstantType::UInt64, true),
        ],
        refs: seq![
            Some(("region"@, 0usize)),
        ],
        correlation: None,
    }
}

/// Group 96 of the memo of TPC-H query 8.
fn q8_memo_group_96() -> (res: MemoGroupInfo)
    ensures
        res.wf(),
        res@ == q8_group_96(),
{
    let mut attributes: Vec<Attribute> = Vec::new();
    attributes.push(attribute("unnamed", ConstantType::UInt64, true));
    let mut refs: Vec<AttrRef> = Vec::new();
    refs.push(base_ref("region", 0));
    proof {
        assert(attribute_views(attributes@) =~= q8_group_96().schema);
        assert(attr_ref_views(refs@) =~= q8_group_96().refs);
    }
    group_info(Schema { attributes }, refs, None)
}

/// The equality predicates of group 12953 of the memo of TPC-H query 8, in the order in
/// which they are added to its correlation.
pub open spec fn q8_group_12953_predicates() -> Seq<EqKey> {
    seq![
        (("customer"@, 3usize), ("nation"@, 0usize)),
        (("supplier"@, 3usize), ("nation"@, 0usize)),
        (("lineitem"@, 2usize), ("supplier"@, 0usize)),
        (("orders"@, 1usize), ("customer"@, 0usize)),
        (("lineitem"@, 0usize), ("orders"@, 0usize)),
        (("nation"@, 2usize), ("region"@, 0usize)),
        (("part"@, 0usize), ("lineitem"@, 1usize)),
    ]
}

/// The model of group 12953 of the memo of TPC-H query 8.
pub open spec fn q8_group_12953() -> MemoGroupView {
    MemoGroupView {
        schema: seq![
            ("s_suppkey"@, ConstantType::Int32, false),
            ("s_name"@, ConstantType::Utf8String, false),
            ("s_address"@, ConstantType::Utf8String, false),
            ("s_nationkey"@, ConstantType::Int32, false),
            ("s_phone"@, ConstantType::Utf8String, false),
            ("s_acctbal"@, ConstantType::Decimal, false),
            ("s_comment"@, ConstantType::Utf8String, false),
            ("p_partkey"@, ConstantType::Int32, false),
            ("p_name"@, ConstantType::Utf8String, false),
            ("p_mfgr"@, ConstantType::Utf8String, false),
            ("p_brand"@, ConstantType::Utf8String, false),
            ("p_type"@, ConstantType::Utf8String, false),
            ("p_size"@, ConstantType::Int32, false),
            ("p_container"@, ConstantType::Utf8String, false),
            ("p_retailprice"@, ConstantType::Decimal, false),
            ("p_comment"@, ConstantType::Utf8String, false),
            ("l_orderkey"@, ConstantType::Int32, false),
            ("l_partkey"@, ConstantType::Int32, false),
            ("l_suppkey"@, ConstantType::Int32, false),
            ("l_linenumber"@, ConstantType::Int32, false),
            ("l_quantity"@, ConstantType::Decimal, false),
            ("l_extendedprice"@, ConstantType::Decimal, false),
            ("l_discount"@, ConstantType::Decimal, false),
            ("l_tax"@, ConstantType::Decimal, false),
            ("l_returnflag"@, ConstantType::Utf8String, false),
            ("l_linestatus"@, ConstantType::Utf8String, false),
            ("l_shipdate"@, ConstantType::Date, false),
            ("l_commitdate"@, ConstantType::Date, false),
            ("l_receiptdate"@, ConstantType::Date, false),
            ("l_shipinstruct"@, ConstantType::Utf8String, false),
            ("l_shipmode"@, ConstantType::Utf8String, false),
            ("l_comment"@, ConstantType::Utf8String, false),
            ("unnamed"@, ConstantType::UInt64, true),
            ("unnamed"@, ConstantType::UInt64, true),
            ("unnamed"@, ConstantType::UInt64, true),
            ("unnamed"@, ConstantType::UInt64, true),
            ("unnamed"@, ConstantType::UInt64, true),
            ("unnamed"@, ConstantType::UInt64, true),
            ("unnamed"@, ConstantType::UInt64, true),
            ("unnamed"@, ConstantType::UInt64, true),
            ("unnamed"@, ConstantType::UInt64, true),
            ("unnamed"@, ConstantType::UInt64, true),
        ],
        refs: seq![
            Some(("supplier"@, 0usize)),
            Some(("supplier"@, 1usize)),
            Some(("supplier"@, 2usize)),
            Some(("supplier"@, 3usize)),
            Some(("supplier"@, 4usize)),
            Some(("supplier"@, 5usize)),
            Some(("supplier"@, 6usize)),
            Some(("part"@, 0usize)),
            Some(("part"@, 1usize)),
            Some(("part"@, 2usize)),
            Some(("part"@, 3usize)),
            Some(("part"@, 4usize)),
            Some(("part"@, 5usize)),
            Some(("part"@, 6usize)),
            Some(("part"@, 7usize)),
            Some(("part"@, 8usize)),
            Some(("lineitem"@, 0usize)),
            Some(("lineitem"@, 1usize)),
            Some(("lineitem"@, 2usize)),
            Some(("lineitem"@, 3usize)),
            Some(("lineitem"@, 4usize)),
            Some(("lineitem"@, 5usize)),
            Some(("lineitem"@, 6usize)),
            Some(("lineitem"@, 7usize)),
            Some(("lineitem"@, 8usize)),
            Some(("lineitem"@, 9usize)),
            Some(("lineitem"@, 10usize)),
            Some(("lineitem"@, 11usize)),
            Some(("lineitem"@, 12usize)),
            Some(("lineitem"@, 13usize)),
            Some(("lineitem"@, 14usize)),
            Some(("lineitem"@, 15usize)),
            Some(("orders"@, 0usize)),
            Some(("orders"@, 1usize)),
            Some(("orders"@, 4usize)),
            Some(("customer"@, 0usize)),
            Some(("customer"@, 3usize)),
            Some(("nation"@, 0usize)),
            Some(("nation"@, 2usize)),
            Some(("nation"@, 0usize)),
            Some(("nation"@, 1usize)),
            Some(("region"@, 0usize)),
        ],
        correlation: Some(replay(q8_group_12953_predicates())),
    }
}

/// Group 12953 of the memo of TPC-H query 8.
fn q8_memo_group_12953() -> (res: MemoGroupInfo)
    ensures
        res.wf(),
        res@ == q8_group_12953(),
{
    let mut attributes: Vec<Attribute> = Vec::new();
    attributes.push(attribute("s_suppkey", ConstantType::Int32, false));
    attributes.push(attribute("s_name", ConstantType::Utf8String, false));
    attributes.push(attribute("s_address", ConstantType::Utf8String, false));
    attributes.push(attribute("s_nationkey", ConstantType::Int32, false));
    attributes.push(attribute("s_phone", ConstantType::Utf8String, false));
    attributes.push(attribute("s_acctbal", ConstantType::Decimal, false));
    attributes.push(attribute("s_comment", ConstantType::Utf8String, false));
    attributes.push(attribute("p_partkey", ConstantType::Int32, false));
    attributes.push(attribute("p_name", ConstantType::Utf8String, false));
    attributes.push(attribute("p_mfgr", ConstantType::Utf8String, false));
    attributes.push(attribute("p_brand", ConstantType::Utf8String, false));
    attributes.push(attribute("p_type", ConstantType::Utf8String, false));
    attributes.push(attribute("p_size", ConstantType::Int32, false));
    attributes.push(attribute("p_container", ConstantType::Utf8String, false));
    attributes.push(attribute("p_retailprice", ConstantType::Decimal, false));
    attributes.push(attribute("p_comment", ConstantType::Utf8String, false));
    attributes.push(attribute("l_orderkey", ConstantType::Int32, false));
    attributes.push(attribute("l_partkey", ConstantType::Int32, false));
    attributes.push(attribute("l_suppkey", ConstantType::Int32, false));
    attributes.push(attribute("l_linenumber", ConstantType::Int32, false));
    attributes.push(attribute("l_quantity", ConstantType::Decimal, false));
    attributes.push(attribute("l_extendedprice", ConstantType::Decimal, false));
    attributes.push(attribute("l_discount", ConstantType::Decimal, false));
    attributes.push(attribute("l_tax", ConstantType::Decimal, false));
    attributes.push(attribute("l_returnflag", ConstantType::Utf8String, false));
    attributes.push(attribute("l_linestatus", ConstantType::Utf8String, false));
    attributes.push(attribute("l_shipdate", ConstantType::Date, false));
    attributes.push(attribute("l_commitdate", ConstantType::Date, false));
    attributes.push(attribute("l_receiptdate", ConstantType::Date, false));
    attributes.push(attribute("l_shipinstruct", ConstantType::Utf8String, false));
    attributes.push(attribute("l_shipmode", ConstantType::Utf8String, false));
    attributes.push(attribute("l_comment", ConstantType::Utf8String, false));
    attributes.push(attribute("unnamed", ConstantType::UInt64, true));
    attributes.push(attribute("unnamed", ConstantType::UInt64, true));
    attributes.push(attribute("unnamed", ConstantType::UInt64, true));
    attributes.push(attribute("unnamed", ConstantType::UInt64, true));
    attributes.push(attribute("unnamed", ConstantType::UInt64, true));
    attributes.push(attribute("unnamed", ConstantType::UInt64, true));
    attributes.push(attribute("unnamed", ConstantType::UInt64, true));
    attributes.push(attribute("unnamed", ConstantType::UInt64, true));
    attributes.push(attribute("unnamed", ConstantType::UInt64, true));
    attributes.push(attribute("unnamed", ConstantType::UInt64, true));
    let mut refs: Vec<AttrRef> = Vec::new();
    refs.push(base_ref("supplier", 0));
    refs.push(base_ref("supplier", 1));
    refs.push(base_ref("supplier", 2));
    refs.push(base_ref("supplier", 3));
    refs.push(base_ref("supplier", 4));
    refs.push(base_ref("supplier", 5));
    refs.push(base_ref("supplier", 6));
    refs.push(base_ref("part", 0));
    refs.push(base_ref("part", 1));
    refs.push(base_ref("part", 2));
    refs.push(base_ref("part", 3));
    refs.push(base_ref("part", 4));
    refs.push(base_ref("part", 5));
    refs.push(base_ref("part", 6));
    refs.push(base_ref("part", 7));
    refs.push(base_ref("part", 8));
    refs.push(base_ref("lineitem", 0));
    refs.push(base_ref("lineitem", 1));
    refs.push(base_ref("lineitem", 2));
    refs.push(base_ref("lineitem", 3));
    refs.push(base_ref("lineitem", 4));
    refs.push(base_ref("lineitem", 5));
    refs.push(base_ref("lineitem", 6));
    refs.push(base_ref("lineitem", 7));
    refs.push(base_ref("lineitem", 8));
    refs.push(base_ref("lineitem", 9));
    refs.push(base_ref("lineitem", 10));
    refs.push(base_ref("lineitem", 11));
    refs.push(base_ref("lineitem", 12));
    refs.push(base_ref("lineitem", 13));
    refs.push(base_ref("lineitem", 14));
    refs.push(base_ref("lineitem", 15));
    refs.push(base_ref("orders", 0));
    refs.push(base_ref("orders", 1));
    refs.push(base_ref("orders", 4));
    refs.push(base_ref("customer", 0));
    refs.push(base_ref("customer", 3));
    refs.push(base_ref("nation", 0));
    refs.push(base_ref("nation", 2));
    refs.push(base_ref("nation", 0));
    refs.push(base_ref("nation", 1));
    refs.push(base_ref("region", 0));
    proof {
        assert(attribute_views(attributes@) =~= q8_group_12953().schema);
        assert(attr_ref_views(refs@) =~= q8_group_12953().refs);
    }
    let mut predicates: Vec<EqPredicate> = Vec::new();
    predicates.push(eq_predicate("customer", 3, "nation", 0));
    predicates.push(eq_predicate("supplier", 3, "nation", 0));
    predicates.push(eq_predicate("lineitem", 2, "supplier", 0));
    predicates.push(eq_predicate("orders", 1, "customer", 0));
    predicates.push(eq_predicate("lineitem", 0, "orders", 0));
    predicates.push(eq_predicate("nation", 2, "region", 0));
    predicates.push(eq_predicate("part", 0, "lineitem", 1));
    assert(eq_predicate_views(predicates@) =~= q8_group_12953_predicates());
    group_info(Schema { attributes }, refs, Some(correlation_of(predicates)))
}

/// The equality predicates of group 99 of the memo of TPC-H query 8, in the order in
/// which they are added to its correlation.
pub open spec fn q8_group_99_predicates() -> Seq<EqKey> {
    seq![
        (("customer"@, 3usize), ("nation"@, 0usize)),
        (("part"@, 0usize), ("lineitem"@, 1usize)),
        (("lineitem"@, 2usize), ("supplier"@, 0usize)),
        (("lineitem"@, 0usize), ("orders"@, 0usize)),
        (("orders"@, 1usize), ("customer"@, 0usize)),
        (("nation"@, 2usize), ("region"@, 0usize)),
        (("supplier"@, 3usize), ("nation"@, 0usize)),
    ]
}

/// The model of group 99 of the memo of TPC-H query 8.
pub open spec fn q8_group_99() -> MemoGroupView {
    MemoGroupView {
        schema: seq![
            ("unnamed"@, ConstantType::UInt64, true),
            ("unnamed"@, ConstantType::UInt64, true),
            ("unnamed"@, ConstantType::UInt64, true),
            ("unnamed"@, ConstantType::UInt64, true),
            ("unnamed"@, ConstantType::UInt64, true),
            ("unnamed"@, ConstantType::UInt64, true),
        ],
        refs: seq![
            Some(("lineitem"@, 5usize)),
            Some(("lineitem"@, 6usize)),
            Some(("orders"@, 4usize)),
            Some(("nation"@, 2usize)),
            Some(("nation"@, 1usize)),
            Some(("region"@, 0usize)),
        ],
        correlation: Some(replay(q8_group_99_predicates())),
    }
}

/// Group 99 of the memo of TPC-H query 8.
fn q8_memo_group_99() -> (res: MemoGroupInfo)
    ensures
        res.wf(),
        res@ == q8_group_99(),
{
    let mut attributes: Vec<Attribute> = Vec::new();
    attributes.push(attribute("unnamed", ConstantType::UInt64, true));
    attributes.push(attribute("unnamed", ConstantType::UInt64, true));
    attributes.push(attribute("unnamed", ConstantType::UInt64, true));
    attributes.push(attribute("unnamed", ConstantType::UInt64, true));
    attributes.push(attribute("unnamed", ConstantType::UInt64, true));
    attributes.push(attribute("unnamed", ConstantType::UInt64, true));
    let mut refs: Vec<AttrRef> = Vec::new();
    refs.push(base_ref("lineitem", 5));
    refs.push(base_ref("lineitem", 6));
    refs.push(base_ref("orders", 4));
    refs.push(base_ref("nation", 2));
    refs.push(base_ref("nation", 1));
    refs.push(base_ref("region", 0));
    proof {
        assert(attribute_views(attributes@) =~= q8_group_99().schema);
        assert(attr_ref_views(refs@) =~= q8_group_99().refs);
    }
    let mut predicates: Vec<EqPredicate> = Vec::new();
    predicates.push(eq_predicate("customer", 3, "nation", 0));
    predicates.push(eq_predicate("part", 0, "lineitem", 1));
    predicates.push(eq_predicate("lineitem", 2, "supplier", 0));
    predicates.push(eq_predicate("lineitem", 0, "orders", 0));
    predicates.push(eq_predicate("orders", 1, "customer", 0));
    predicates.push(eq_predicate("nation", 2, "region", 0));
    predicates.push(eq_predicate("supplier", 3, "nation", 0));
    assert(eq_predicate_views(predicates@) =~= q8_group_99_predicates());
    group_info(Schema { attributes }, refs, Some(correlation_of(predicates)))
}

/// The equality predicates of group 102 of the memo of TPC-H query 8, in the order in
/// which they are added to its correlation.
pub open spec fn q8_group_102_predicates() -> Seq<EqKey> {
    seq![
        (("customer"@, 3usize), ("nation"@, 0usize)),
        (("part"@, 0usize), ("lineitem"@, 1usize)),
        (("lineitem"@, 2usize), ("supplier"@, 0usize)),
        (("lineitem"@, 0usize), ("orders"@, 0usize)),
        (("orders"@, 1usize), ("customer"@, 0usize)),
        (("nation"@, 2usize), ("region"@, 0usize)),
        (("supplier"@, 3usize), ("nation"@, 0usize)),
    ]
}

/// The model of group 102 of the memo of TPC-H query 8.
pub open spec fn q8_group_102() -> MemoGroupView {
    MemoGroupView {
        schema: seq![
            ("unnamed"@, ConstantType::UInt64, true),
        ],
        refs: seq![
            None,
            None,
            Some(("nation"@, 1usize)),
        ],
        correlation: Some(replay(q8_group_102_predicates())),
    }
}

/// Group 102 of the memo of TPC-H query 8.
fn q8_memo_group_102() -> (res: MemoGroupInfo)
    ensures
        res.wf(),
        res@ == q8_group_102(),
{
    let mut attributes: Vec<Attribute> = Vec::new();
    attributes.push(attribute("unnamed", ConstantType::UInt64, true));
    let mut refs: Vec<AttrRef> = Vec::new();
    refs.push(AttrRef::Derived);
    refs.push(AttrRef::Derived);
    refs.push(base_ref("nation", 1));
    proof {
        assert(attribute_views(attributes@) =~= q8_group_102().schema);
        assert(attr_ref_views(refs@) =~= q8_group_102().refs);
    }
    let mut predicates: Vec<EqPredicate> = Vec::new();
    predicates.push(eq_predicate("customer", 3, "nation", 0));
    predicates.push(eq_predicate("part", 0, "lineitem", 1));
    predicates.push(eq_predicate("lineitem", 2, "supplier", 0));
    predicates.push(eq_predicate("lineitem", 0, "orders", 0));
    predicates.push(eq_predicate("orders", 1, "customer", 0));
    predicates.push(eq_predicate("nation", 2, "region", 0));
    predicates.push(eq_predicate("supplier", 3, "nation", 0));
    assert(eq_predicate_views(predicates@) =~= q8_group_102_predicates());
    group_info(Schema { attributes }, refs, Some(correlation_of(predicates)))
}

/// The model of group 106 of the memo of TPC-H query 8.
pub open spec fn q8_group_106() -> MemoGroupView {
    MemoGroupView {
        schema: seq![
            ("unnamed"@, ConstantType::Binary, true),
            ("unnamed"@, ConstantType::Binary, true),
            ("unnamed"@, ConstantType::UInt64, true),
        ],
        refs: seq![
            None,
            None,
            None,
        ],
        correlation: None,
    }
}

/// Group 106 of the memo of TPC-H query 8.
fn q8_memo_group_106() -> (res: MemoGroupInfo)
    ensures
        res.wf(),
        res@ == q8_group_106(),
{
    let mut attributes: Vec<Attribute> = Vec::new();
    attributes.push(attribute("unnamed", ConstantType::Binary, true));
    attributes.push(attribute("unnamed", ConstantType::Binary, true));
    attributes.push(attribute("unnamed", ConstantType::UInt64, true));
    let mut refs: Vec<AttrRef> = Vec::new();
    refs.push(AttrRef::Derived);
    refs.push(AttrRef::Derived);
    refs.push(AttrRef::Derived);
    proof {
        assert(attribute_views(attributes@) =~= q8_group_106().schema);
        assert(attr_ref_views(refs@) =~= q8_group_106().refs);
    }
    group_info(Schema { attributes }, refs, None)
}

/// The model of group 109 of the memo of TPC-H query 8.
pub open spec fn q8_group_109() -> MemoGroupView {
    MemoGroupView {
        schema: seq![
            ("unnamed"@, ConstantType::UInt64, true),
        ],
        refs: seq![
            None,
            None,
        ],
        correlation: None,
    }
}

/// Group 109 of the memo of TPC-H query 8.
fn q8_memo_group_109() -> (res: MemoGroupInfo)
    ensures
        res.wf(),
        res@ == q8_group_109(),
{
    let mut attributes: Vec<Attribute> = Vec::new();
    attributes.push(attribute("unnamed", ConstantType::UInt64, true));
    let mut refs: Vec<AttrRef> = Vec::new();
    refs.push(AttrRef::Derived);
    refs.push(AttrRef::Derived);
    proof {
        assert(attribute_views(attributes@) =~= q8_group_109().schema);
        assert(attr_ref_views(refs@) =~= q8_group_109().refs);
    }
    group_info(Schema { attributes }, refs, None)
}

/// The model of group 112 of the memo of TPC-H query 8.
pub open spec fn q8_group_112() -> MemoGroupView {
    MemoGroupView {
        schema: seq![
            ("unnamed"@, ConstantType::UInt64, true),
        ],
        refs: seq![
            None,
            None,
        ],
        correlation: None,
    }
}

/// Group 112 of the memo of TPC-H query 8.
fn q8_memo_group_112() -> (res: MemoGroupInfo)
    ensures
        res.wf(),
        res@ == q8_group_112(),
{
    let mut attributes: Vec<Attribute> = Vec::new();
    attributes.push(attribute("unnamed", ConstantType::UInt64, true));
    let mut refs: Vec<AttrRef> = Vec::new();
    refs.push(AttrRef::Derived);
    refs.push(AttrRef::Derived);
    proof {
        assert(attribute_views(attributes@) =~= q8_group_112().schema);
        assert(attr_ref_views(refs@) =~= q8_group_112().refs);
    }
    group_info(Schema { attributes }, refs, None)
}

/// The model of the memo of TPC-H query 8: its groups, each with its id, in the order in
/// which they are put into the memo.
pub open spec fn q8_memo() -> Seq<(u64, MemoGroupView)> {
    seq![
        (26u64, q8_group_26()),
        (2u64, q8_group_2()),
        (162u64, q8_group_162()),
        (14u64, q8_group_14()),
        (218u64, q8_group_218()),
        (1004u64, q8_group_1004()),
        (38u64, q8_group_38()),
        (155u64, q8_group_155()),
        (44u64, q8_group_44()),
        (11253u64, q8_group_11253()),
        (53u64, q8_group_53()),
        (56u64, q8_group_56()),
        (11657u64, q8_group_11657()),
        (65u64, q8_group_65()),
        (68u64, q8_group_68()),
        (12075u64, q8_group_12075()),
        (78u64, q8_group_78()),
        (12507u64, q8_group_12507()),
        (87u64, q8_group_87()),
        (119u64, q8_group_119()),
        (96u64, q8_group_96()),
        (12953u64, q8_group_12953()),
        (99u64, q8_group_99()),
        (102u64, q8_group_102()),
        (106u64, q8_group_106()),
        (109u64, q8_group_109()),
        (112u64, q8_group_112()),
    ]
}

/// The groups of the memo of TPC-H query 8, each with its id, in the order in which
/// they are put into the memo.
fn q8_memo_groups() -> (res: Vec<(u64, MemoGroupInfo)>)
    ensures
        memo_wf(res@),
        memo_view(res@) == q8_memo(),
        group_ids(memo_view(res@)).no_duplicates(),
{
    let mut memo: Vec<(u64, MemoGroupInfo)> = Vec::new();
    memo.push((26, q8_memo_group_26()));
    memo.push((2, q8_memo_group_2()));
    memo.push((162, q8_memo_group_162()));
    memo.push((14, q8_memo_group_14()));
    memo.push((218, q8_memo_group_218()));
    memo.push((1004, q8_memo_group_1004()));
    memo.push((38, q8_memo_group_38()));
    memo.push((155, q8_memo_group_155()));
    memo.push((44, q8_memo_group_44()));
    memo.push((11253, q8_memo_group_11253()));
    memo.push((53, q8_memo_group_53()));
    memo.push((56, q8_memo_group_56()));
    memo.push((11657, q8_memo_group_11657()));
    memo.push((65, q8_memo_group_65()));
    memo.push((68, q8_memo_group_68()));
    memo.push((12075, q8_memo_group_12075()));
    memo.push((78, q8_memo_group_78()));
    memo.push((12507, q8_memo_group_12507()));
    memo.push((87, q8_memo_group_87()));
    memo.push((119, q8_memo_group_119()));
    memo.push((96, q8_memo_group_96()));
    memo.push((12953, q8_memo_group_12953()));
    memo.push((99, q8_memo_group_99()));
    memo.push((102, q8_memo_group_102()));
    memo.push((106, q8_memo_group_106()));
    memo.push((109, q8_memo_group_109()));
    memo.push((112, q8_memo_group_112()));
    assert(memo_view(memo@) =~= q8_memo());
    assert(group_ids(q8_memo()).no_duplicates());
    memo
}

/// The memo of TPC-H query 8: each group under its id.
pub fn create_tpch_q8_memo() -> (res: HashMap<u64, MemoGroupInfo>)
    ensures
        group_map_wf(res@),
        group_map_views(res@) == memo_map_view(q8_memo()),
        res@.dom() == group_ids(q8_memo()).to_set(),
        forall|i: int|
            0 <= i < q8_memo().len() ==> group_map_views(res@)[(#[trigger] q8_memo()[i]).0]
                == q8_memo()[i].1,
        forall|i: int|
            0 <= i < q8_hash_joins().len() ==> join_recorded(
                group_map_views(res@),
                #[trigger] q8_hash_joins()[i],
            ),
        forall|i: int|
            0 <= i < q8_unary_ops().len() ==> unary_recorded(
                group_map_views(res@),
                #[trigger] q8_unary_ops()[i],
            ),
{
    let groups = q8_memo_groups();
    proof {
        lemma_memo_map_view_lookup(q8_memo());
        lemma_q8_hash_joins_recorded();
        lemma_q8_unary_ops_recorded();
    }
    memo_map(groups)
}


/// The hash joins of the plan of TPC-H query 8: for each, the group it produces, the groups
/// it joins, and the positions of its key attributes in their outputs.
pub open spec fn q8_hash_joins() -> Seq<HashJoinView> {
    seq![
        HashJoinView {
            group: 12953,
            left: 12507,
            right: 96,
            left_keys: seq![38int],
            right_keys: seq![0int],
        },
        HashJoinView {
            group: 12507,
            left: 12075,
            right: 78,
            left_keys: seq![3int],
            right_keys: seq![0int],
        },
        HashJoinView {
            group: 12075,
            left: 11657,
            right: 68,
            left_keys: seq![36int],
            right_keys: seq![0int],
        },
        HashJoinView {
            group: 11657,
            left: 11253,
            right: 56,
            left_keys: seq![33int],
            right_keys: seq![0int],
        },
        HashJoinView {
            group: 11253,
            left: 1004,
            right: 44,
            left_keys: seq![16int],
            right_keys: seq![0int],
        },
        HashJoinView {
            group: 1004,
            left: 26,
            right: 218,
            left_keys: seq![0int],
            right_keys: seq![11int],
        },
        HashJoinView {
            group: 218,
            left: 162,
            right: 14,
            left_keys: seq![0int],
            right_keys: seq![1int],
        },
    ]
}

/// No group id occurs twice in the memo of TPC-H query 8.
pub proof fn lemma_q8_ids_distinct()
    ensures
        group_ids(q8_memo()).no_duplicates(),
{
}

/// The memo of TPC-H query 8 agrees with the hash join that produces group 12953.
proof fn lemma_q8_join_12953()
    ensures
        join_recorded(memo_map_view(q8_memo()), q8_hash_joins()[0]),
{
    let memo = q8_memo();
    lemma_q8_ids_distinct();
    lemma_memo_map_view_lookup(memo);
    let m = memo_map_view(memo);
    let j = q8_hash_joins()[0];
    assert(memo[21] == (12953u64, q8_group_12953()));
    assert(group_ids(memo)[21] == 12953u64);
    assert(m.contains_key(12953u64));
    assert(memo[17] == (12507u64, q8_group_12507()));
    assert(group_ids(memo)[17] == 12507u64);
    assert(m.contains_key(12507u64));
    assert(memo[20] == (96u64, q8_group_96()));
    assert(group_ids(memo)[20] == 96u64);
    assert(m.contains_key(96u64));
    let g = q8_group_12953();
    let l = q8_group_12507();
    let r = q8_group_96();
    assert(m[12953u64] == g && m[12507u64] == l && m[96u64] == r);
    assert(g.schema =~= l.schema + r.schema);
    assert(g.refs =~= l.refs + r.refs);
    lemma_replay_records(q8_group_12953_predicates());
    let pg = q8_group_12953_predicates();
    assert(recorded(g) == replay(pg).preds);
    lemma_replay_records(q8_group_12507_predicates());
    let pl = q8_group_12507_predicates();
    assert(recorded(l) == replay(pl).preds);
    assert(recorded(r) =~= Seq::<EqKey>::empty());
    assert(join_key(l, r, j, 0) == (("nation"@, 2usize), ("region"@, 0usize)));
    assert forall|p: EqKey| #[trigger] recorded(l).contains(p) implies recorded(g).contains(p) by {
        let i = choose|i: int| 0 <= i < pl.len() && pl[i] == p;
        if i == 0 {
            assert(pg[0] == p);
        } else if i == 1 {
            assert(pg[1] == p);
        } else if i == 2 {
            assert(pg[2] == p);
        } else if i == 3 {
            assert(pg[3] == p);
        } else if i == 4 {
            assert(pg[4] == p);
        } else if i == 5 {
            assert(pg[6] == p);
        }
    }
    assert forall|k: int| 0 <= k < j.left_keys.len() implies recorded(g).contains(#[trigger] join_key(l, r, j, k))
        || recorded(g).contains(flipped(join_key(l, r, j, k))) by {
        if k == 0 {
            assert(pg[5] == join_key(l, r, j, 0));
        }
    }
    assert forall|p: EqKey| #[trigger] recorded(g).contains(p) implies recorded(l).contains(p)
        || recorded(r).contains(p) || is_join_key(l, r, j, p) by {
        let i = choose|i: int| 0 <= i < pg.len() && pg[i] == p;
        if i == 0 {
            assert(pl[0] == p);
        } else if i == 1 {
            assert(pl[1] == p);
        } else if i == 2 {
            assert(pl[2] == p);
        } else if i == 3 {
            assert(pl[3] == p);
        } else if i == 4 {
            assert(pl[4] == p);
        } else if i == 5 {
            assert(p == join_key(l, r, j, 0) || p == flipped(join_key(l, r, j, 0)));
        } else if i == 6 {
            assert(pl[5] == p);
        }
    }
}

/// The memo of TPC-H query 8 agrees with the hash join that produces group 12507.
proof fn lemma_q8_join_12507()
    ensures
        join_recorded(memo_map_view(q8_memo()), q8_hash_joins()[1]),
{
    let memo = q8_memo();
    lemma_q8_ids_distinct();
    lemma_memo_map_view_lookup(memo);
    let m = memo_map_view(memo);
    let j = q8_hash_joins()[1];
    assert(memo[17] == (12507u64, q8_group_12507()));
    assert(group_ids(memo)[17] == 12507u64);
    assert(m.contains_key(12507u64));
    assert(memo[15] == (12075u64, q8_group_12075()));
    assert(group_ids(memo)[15] == 12075u64);
    assert(m.contains_key(12075u64));
    assert(memo[16] == (78u64, q8_group_78()));
    assert(group_ids(memo)[16] == 78u64);
    assert(m.contains_key(78u64));
    let g = q8_group_12507();
    let l = q8_group_12075();
    let r = q8_group_78();
    assert(m[12507u64] == g && m[12075u64] == l && m[78u64] == r);
    assert(g.schema =~= l.schema + r.schema);
    assert(g.refs =~= l.refs + r.refs);
    lemma_replay_records(q8_group_12507_predicates());
    let pg = q8_group_12507_predicates();
    assert(recorded(g) == replay(pg).preds);
    lemma_replay_records(q8_group_12075_predicates());
    let pl = q8_group_12075_predicates();
    assert(recorded(l) == replay(pl).preds);
    assert(recorded(r) =~= Seq::<EqKey>::empty());
    assert(join_key(l, r, j, 0) == (("supplier"@, 3usize), ("nation"@, 0usize)));
    assert forall|p: EqKey| #[trigger] recorded(l).contains(p) implies recorded(g).contains(p) by {
        let i = choose|i: int| 0 <= i < pl.len() && pl[i] == p;
        if i == 0 {
            assert(pg[0] == p);
        } else if i == 1 {
            assert(pg[2] == p);
        } else if i == 2 {
            assert(pg[3] == p);
        } else if i == 3 {
            assert(pg[4] == p);
        } else if i == 4 {
            assert(pg[5] == p);
        }
    }
    assert forall|k: int| 0 <= k < j.left_keys.len() implies recorded(g).contains(#[trigger] join_key(l, r, j, k))
        || recorded(g).contains(flipped(join_key(l, r, j, k))) by {
        if k == 0 {
            assert(pg[1] == join_key(l, r, j, 0));
        }
    }
    assert forall|p: EqKey| #[trigger] recorded(g).contains(p) implies recorded(l).contains(p)
        || recorded(r).contains(p) || is_join_key(l, r, j, p) by {
        let i = choose|i: int| 0 <= i < pg.len() && pg[i] == p;
        if i == 0 {
            assert(pl[0] == p);
        } else if i == 1 {
            assert(p == join_key(l, r, j, 0) || p == flipped(join_key(l, r, j, 0)));
        } else if i == 2 {
            assert(pl[1] == p);
        } else if i == 3 {
            assert(pl[2] == p);
        } else if i == 4 {
            assert(pl[3] == p);
        } else if i == 5 {
            assert(pl[4] == p);
        }
    }
}

/// The memo of TPC-H query 8 agrees with the hash join that produces group 12075.
proof fn lemma_q8_join_12075()
    ensures
        join_recorded(memo_map_view(q8_memo()), q8_hash_joins()[2]),
{
    let memo = q8_memo();
    lemma_q8_ids_distinct();
    lemma_memo_map_view_lookup(memo);
    let m = memo_map_view(memo);
    let j = q8_hash_joins()[2];
    assert(memo[15] == (12075u64, q8_group_12075()));
    assert(group_ids(memo)[15] == 12075u64);
    assert(m.contains_key(12075u64));
    assert(memo[12] == (11657u64, q8_group_11657()));
    assert(group_ids(memo)[12] == 11657u64);
    assert(m.contains_key(11657u64));
    assert(memo[14] == (68u64, q8_group_68()));
    assert(group_ids(memo)[14] == 68u64);
    assert(m.contains_key(68u64));
    let g = q8_group_12075();
    let l = q8_group_11657();
    let r = q8_group_68();
    assert(m[12075u64] == g && m[11657u64] == l && m[68u64] == r);
    assert(g.schema =~= l.schema + r.schema);
    assert(g.refs =~= l.refs + r.refs);
    lemma_replay_records(q8_group_12075_predicates());
    let pg = q8_group_12075_predicates();
    assert(recorded(g) == replay(pg).preds);
    lemma_replay_records(q8_group_11657_predicates());
    let pl = q8_group_11657_predicates();
    assert(recorded(l) == replay(pl).preds);
    assert(recorded(r) =~= Seq::<EqKey>::empty());
    assert(join_key(l, r, j, 0) == (("customer"@, 3usize), ("nation"@, 0usize)));
    assert forall|p: EqKey| #[trigger] recorded(l).contains(p) implies recorded(g).contains(p) by {
        let i = choose|i: int| 0 <= i < pl.len() && pl[i] == p;
        if i == 0 {
            assert(pg[1] == p);
        } else if i == 1 {
            assert(pg[2] == p);
        } else if i == 2 {
            assert(pg[3] == p);
        } else if i == 3 {
            assert(pg[4] == p);
        }
    }
    assert forall|k: int| 0 <= k < j.left_keys.len() implies recorded(g).contains(#[trigger] join_key(l, r, j, k))
        || recorded(g).contains(flipped(join_key(l, r, j, k))) by {
        if k == 0 {
            assert(pg[0] == join_key(l, r, j, 0));
        }
    }
    assert forall|p: EqKey| #[trigger] recorded(g).contains(p) implies recorded(l).contains(p)
        || recorded(r).contains(p) || is_join_key(l, r, j, p) by {
        let i = choose|i: int| 0 <= i < pg.len() && pg[i] == p;
        if i == 0 {
            assert(p == join_key(l, r, j, 0) || p == flipped(join_key(l, r, j, 0)));
        } else if i == 1 {
            assert(pl[0] == p);
        } else if i == 2 {
            assert(pl[1] == p);
        } else if i == 3 {
            assert(pl[2] == p);
        } else if i == 4 {
            assert(pl[3] == p);
        }
    }
}

/// The memo of TPC-H query 8 agrees with the hash join that produces group 11657.
proof fn lemma_q8_join_11657()
    ensures
        join_recorded(memo_map_view(q8_memo()), q8_hash_joins()[3]),
{
    let memo = q8_memo();
    lemma_q8_ids_distinct();
    lemma_memo_map_view_lookup(memo);
    let m = memo_map_view(memo);
    let j = q8_hash_joins()[3];
    assert(memo[12] == (11657u64, q8_group_11657()));
    assert(group_ids(memo)[12] == 11657u64);
    assert(m.contains_key(11657u64));
    assert(memo[9] == (11253u64, q8_group_11253()));
    assert(group_ids(memo)[9] == 11253u64);
    assert(m.contains_key(11253u64));
    assert(memo[11] == (56u64, q8_group_56()));
    assert(group_ids(memo)[11] == 56u64);
    assert(m.contains_key(56u64));
    let g = q8_group_11657();
    let l = q8_group_11253();
    let r = q8_group_56();
    assert(m[11657u64] == g && m[11253u64] == l && m[56u64] == r);
    assert(g.schema =~= l.schema + r.schema);
    assert(g.refs =~= l.refs + r.refs);
    lemma_replay_records(q8_group_11657_predicates());
    let pg = q8_group_11657_predicates();
    assert(recorded(g) == replay(pg).preds);
    lemma_replay_records(q8_group_11253_predicates());
    let pl = q8_group_11253_predicates();
    assert(recorded(l) == replay(pl).preds);
    assert(recorded(r) =~= Seq::<EqKey>::empty());
    assert(join_key(l, r, j, 0) == (("orders"@, 1usize), ("customer"@, 0usize)));
    assert forall|p: EqKey| #[trigger] recorded(l).contains(p) implies recorded(g).contains(p) by {
        let i = choose|i: int| 0 <= i < pl.len() && pl[i] == p;
        if i == 0 {
            assert(pg[2] == p);
        } else if i == 1 {
            assert(pg[0] == p);
        } else if i == 2 {
            assert(pg[3] == p);
        }
    }
    assert forall|k: int| 0 <= k < j.left_keys.len() implies recorded(g).contains(#[trigger] join_key(l, r, j, k))
        || recorded(g).contains(flipped(join_key(l, r, j, k))) by {
        if k == 0 {
            assert(pg[1] == join_key(l, r, j, 0));
        }
    }
    assert forall|p: EqKey| #[trigger] recorded(g).contains(p) implies recorded(l).contains(p)
        || recorded(r).contains(p) || is_join_key(l, r, j, p) by {
        let i = choose|i: int| 0 <= i < pg.len() && pg[i] == p;
        if i == 0 {
            assert(pl[1] == p);
        } else if i == 1 {
            assert(p == join_key(l, r, j, 0) || p == flipped(join_key(l, r, j, 0)));
        } else if i == 2 {
            assert(pl[0] == p);
        } else if i == 3 {
            assert(pl[2] == p);
        }
    }
}

/// The memo of TPC-H query 8 agrees with the hash join that produces group 11253.
proof fn lemma_q8_join_11253()
    ensures
        join_recorded(memo_map_view(q8_memo()), q8_hash_joins()[4]),
{
    let memo = q8_memo();
    lemma_q8_ids_distinct();
    lemma_memo_map_view_lookup(memo);
    let m = memo_map_view(memo);
    let j = q8_hash_joins()[4];
    assert(memo[9] == (11253u64, q8_group_11253()));
    assert(group_ids(memo)[9] == 11253u64);
    assert(m.contains_key(11253u64));
    assert(memo[5] == (1004u64, q8_group_1004()));
    assert(group_ids(memo)[5] == 1004u64);
    assert(m.contains_key(1004u64));
    assert(memo[8] == (44u64, q8_group_44()));
    assert(group_ids(memo)[8] == 44u64);
    assert(m.contains_key(44u64));
    let g = q8_group_11253();
    let l = q8_group_1004();
    let r = q8_group_44();
    assert(m[11253u64] == g && m[1004u64] == l && m[44u64] == r);
    assert(g.schema =~= l.schema + r.schema);
    assert(g.refs =~= l.refs + r.refs);
    lemma_replay_records(q8_group_11253_predicates());
    let pg = q8_group_11253_predicates();
    assert(recorded(g) == replay(pg).preds);
    lemma_replay_records(q8_group_1004_predicates());
    let pl = q8_group_1004_predicates();
    assert(recorded(l) == replay(pl).preds);
    assert(recorded(r) =~= Seq::<EqKey>::empty());
    assert(join_key(l, r, j, 0) == (("lineitem"@, 0usize), ("orders"@, 0usize)));
    assert forall|p: EqKey| #[trigger] recorded(l).contains(p) implies recorded(g).contains(p) by {
        let i = choose|i: int| 0 <= i < pl.len() && pl[i] == p;
        if i == 0 {
            assert(pg[1] == p);
        } else if i == 1 {
            assert(pg[2] == p);
        }
    }
    assert forall|k: int| 0 <= k < j.left_keys.len() implies recorded(g).contains(#[trigger] join_key(l, r, j, k))
        || recorded(g).contains(flipped(join_key(l, r, j, k))) by {
        if k == 0 {
            assert(pg[0] == join_key(l, r, j, 0));
        }
    }
    assert forall|p: EqKey| #[trigger] recorded(g).contains(p) implies recorded(l).contains(p)
        || recorded(r).contains(p) || is_join_key(l, r, j, p) by {
        let i = choose|i: int| 0 <= i < pg.len() && pg[i] == p;
        if i == 0 {
            assert(p == join_key(l, r, j, 0) || p == flipped(join_key(l, r, j, 0)));
        } else if i == 1 {
            assert(pl[0] == p);
        } else if i == 2 {
            assert(pl[1] == p);
        }
    }
}

/// The memo of TPC-H query 8 agrees with the hash join that produces group 1004.
proof fn lemma_q8_join_1004()
    ensures
        join_recorded(memo_map_view(q8_memo()), q8_hash_joins()[5]),
{
    let memo = q8_memo();
    lemma_q8_ids_distinct();
    lemma_memo_map_view_lookup(memo);
    let m = memo_map_view(memo);
    let j = q8_hash_joins()[5];
    assert(memo[5] == (1004u64, q8_group_1004()));
    assert(group_ids(memo)[5] == 1004u64);
    assert(m.contains_key(1004u64));
    assert(memo[0] == (26u64, q8_group_26()));
    assert(group_ids(memo)[0] == 26u64);
    assert(m.contains_key(26u64));
    assert(memo[4] == (218u64, q8_group_218()));
    assert(group_ids(memo)[4] == 218u64);
    assert(m.contains_key(218u64));
    let g = q8_group_1004();
    let l = q8_group_26();
    let r = q8_group_218();
    assert(m[1004u64] == g && m[26u64] == l && m[218u64] == r);
    assert(g.schema =~= l.schema + r.schema);
    assert(g.refs =~= l.refs + r.refs);
    lemma_replay_records(q8_group_1004_predicates());
    let pg = q8_group_1004_predicates();
    assert(recorded(g) == replay(pg).preds);
    assert(recorded(l) =~= Seq::<EqKey>::empty());
    lemma_replay_records(q8_group_218_predicates());
    let pr = q8_group_218_predicates();
    assert(recorded(r) == replay(pr).preds);
    assert(join_key(l, r, j, 0) == (("supplier"@, 0usize), ("lineitem"@, 2usize)));
    assert forall|p: EqKey| #[trigger] recorded(r).contains(p) implies recorded(g).contains(p) by {
        let i = choose|i: int| 0 <= i < pr.len() && pr[i] == p;
        if i == 0 {
            assert(pg[1] == p);
        }
    }
    assert forall|k: int| 0 <= k < j.left_keys.len() implies recorded(g).contains(#[trigger] join_key(l, r, j, k))
        || recorded(g).contains(flipped(join_key(l, r, j, k))) by {
        if k == 0 {
            assert(pg[0] == flipped(join_key(l, r, j, 0)));
        }
    }
    assert forall|p: EqKey| #[trigger] recorded(g).contains(p) implies recorded(l).contains(p)
        || recorded(r).contains(p) || is_join_key(l, r, j, p) by {
        let i = choose|i: int| 0 <= i < pg.len() && pg[i] == p;
        if i == 0 {
            assert(p == join_key(l, r, j, 0) || p == flipped(join_key(l, r, j, 0)));
        } else if i == 1 {
            assert(pr[0] == p);
        }
    }
}

/// The memo of TPC-H query 8 agrees with the hash join that produces group 218.
proof fn lemma_q8_join_218()
    ensures
        join_recorded(memo_map_view(q8_memo()), q8_hash_joins()[6]),
{
    let memo = q8_memo();
    lemma_q8_ids_distinct();
    lemma_memo_map_view_lookup(memo);
    let m = memo_map_view(memo);
    let j = q8_hash_joins()[6];
    assert(memo[4] == (218u64, q8_group_218()));
    assert(group_ids(memo)[4] == 218u64);
    assert(m.contains_key(218u64));
    assert(memo[2] == (162u64, q8_group_162()));
    assert(group_ids(memo)[2] == 162u64);
    assert(m.contains_key(162u64));
    assert(memo[3] == (14u64, q8_group_14()));
    assert(group_ids(memo)[3] == 14u64);
    assert(m.contains_key(14u64));
    let g = q8_group_218();
    let l = q8_group_162();
    let r = q8_group_14();
    assert(m[218u64] == g && m[162u64] == l && m[14u64] == r);
    assert(g.schema =~= l.schema + r.schema);
    assert(g.refs =~= l.refs + r.refs);
    lemma_replay_records(q8_group_218_predicates());
    let pg = q8_group_218_predicates();
    assert(recorded(g) == replay(pg).preds);
    assert(recorded(l) =~= Seq::<EqKey>::empty());
    assert(recorded(r) =~= Seq::<EqKey>::empty());
    assert(join_key(l, r, j, 0) == (("part"@, 0usize), ("lineitem"@, 1usize)));
    assert forall|k: int| 0 <= k < j.left_keys.len() implies recorded(g).contains(#[trigger] join_key(l, r, j, k))
        || recorded(g).contains(flipped(join_key(l, r, j, k))) by {
        if k == 0 {
            assert(pg[0] == join_key(l, r, j, 0));
        }
    }
    assert forall|p: EqKey| #[trigger] recorded(g).contains(p) implies recorded(l).contains(p)
        || recorded(r).contains(p) || is_join_key(l, r, j, p) by {
        let i = choose|i: int| 0 <= i < pg.len() && pg[i] == p;
        if i == 0 {
            assert(p == join_key(l, r, j, 0) || p == flipped(join_key(l, r, j, 0)));
        }
    }
}

/// Each hash join of the plan of TPC-H query 8 is recorded in its memo: the joined group
/// outputs the attributes of the left group and then those of the right group, and its
/// correlation records exactly the equalities of both groups and the join's own key
/// equalities.
pub proof fn lemma_q8_hash_joins_recorded()
    ensures
        forall|i: int|
            0 <= i < q8_hash_joins().len() ==> join_recorded(
                memo_map_view(q8_memo()),
                #[trigger] q8_hash_joins()[i],
            ),
{
    lemma_q8_join_12953();
    lemma_q8_join_12507();
    lemma_q8_join_12075();
    lemma_q8_join_11657();
    lemma_q8_join_11253();
    lemma_q8_join_1004();
    lemma_q8_join_218();
    assert forall|i: int| 0 <= i < q8_hash_joins().len() implies join_recorded(
        memo_map_view(q8_memo()),
        #[trigger] q8_hash_joins()[i],
    ) by {
        if i == 0 {
        } else if i == 1 {
        } else if i == 2 {
        } else if i == 3 {
        } else if i == 4 {
        } else if i == 5 {
        } else if i == 6 {
        }
    }
}

/// The filters, sorts and projections of the plan of TPC-H query 8: for each, the group it
/// produces and the group it reads.
pub open spec fn q8_unary_ops() -> Seq<UnaryOpView> {
    seq![
        UnaryOpView { group: 112, child: 109, keeps_output: true },
        UnaryOpView { group: 109, child: 106, keeps_output: false },
        UnaryOpView { group: 102, child: 99, keeps_output: false },
        UnaryOpView { group: 99, child: 12953, keeps_output: false },
        UnaryOpView { group: 96, child: 119, keeps_output: false },
        UnaryOpView { group: 119, child: 87, keeps_output: true },
        UnaryOpView { group: 78, child: 65, keeps_output: false },
        UnaryOpView { group: 68, child: 65, keeps_output: false },
        UnaryOpView { group: 56, child: 53, keeps_output: false },
        UnaryOpView { group: 44, child: 155, keeps_output: false },
        UnaryOpView { group: 155, child: 38, keeps_output: true },
        UnaryOpView { group: 162, child: 2, keeps_output: true },
    ]
}

/// The memo of TPC-H query 8 agrees with the operator that produces group 112.
proof fn lemma_q8_unary_112()
    ensures
        unary_recorded(memo_map_view(q8_memo()), q8_unary_ops()[0]),
{
    let memo = q8_memo();
    lemma_q8_ids_distinct();
    lemma_memo_map_view_lookup(memo);
    let m = memo_map_view(memo);
    let u = q8_unary_ops()[0];
    assert(memo[26] == (112u64, q8_group_112()));
    assert(group_ids(memo)[26] == 112u64);
    assert(m.contains_key(112u64));
    assert(memo[25] == (109u64, q8_group_109()));
    assert(group_ids(memo)[25] == 109u64);
    assert(m.contains_key(109u64));
    let g = q8_group_112();
    let c = q8_group_109();
    assert(m[112u64] == g && m[109u64] == c);
    assert(g.schema =~= c.schema);
    assert(g.refs =~= c.refs);
    assert(recorded(g) =~= Seq::<EqKey>::empty());
    assert(recorded(c) =~= Seq::<EqKey>::empty());
}

/// The memo of TPC-H query 8 agrees with the operator that produces group 109.
proof fn lemma_q8_unary_109()
    ensures
        unary_recorded(memo_map_view(q8_memo()), q8_unary_ops()[1]),
{
    let memo = q8_memo();
    lemma_q8_ids_distinct();
    lemma_memo_map_view_lookup(memo);
    let m = memo_map_view(memo);
    let u = q8_unary_ops()[1];
    assert(memo[25] == (109u64, q8_group_109()));
    assert(group_ids(memo)[25] == 109u64);
    assert(m.contains_key(109u64));
    assert(memo[24] == (106u64, q8_group_106()));
    assert(group_ids(memo)[24] == 106u64);
    assert(m.contains_key(106u64));
    let g = q8_group_109();
    let c = q8_group_106();
    assert(m[109u64] == g && m[106u64] == c);
    assert(recorded(g) =~= Seq::<EqKey>::empty());
    assert(recorded(c) =~= Seq::<EqKey>::empty());
}

/// The memo of TPC-H query 8 agrees with the operator that produces group 102.
proof fn lemma_q8_unary_102()
    ensures
        unary_recorded(memo_map_view(q8_memo()), q8_unary_ops()[2]),
{
    let memo = q8_memo();
    lemma_q8_ids_distinct();
    lemma_memo_map_view_lookup(memo);
    let m = memo_map_view(memo);
    let u = q8_unary_ops()[2];
    assert(memo[23] == (102u64, q8_group_102()));
    assert(group_ids(memo)[23] == 102u64);
    assert(m.contains_key(102u64));
    assert(memo[22] == (99u64, q8_group_99()));
    assert(group_ids(memo)[22] == 99u64);
    assert(m.contains_key(99u64));
    let g = q8_group_102();
    let c = q8_group_99();
    assert(m[102u64] == g && m[99u64] == c);
    lemma_replay_records(q8_group_102_predicates());
    let pg = q8_group_102_predicates();
    assert(recorded(g) == replay(pg).preds);
    lemma_replay_records(q8_group_99_predicates());
    let pc = q8_group_99_predicates();
    assert(recorded(c) == replay(pc).preds);
    assert forall|p: EqKey| #[trigger] recorded(g).contains(p) implies recorded(c).contains(p) by {
        let i = choose|i: int| 0 <= i < pg.len() && pg[i] == p;
        if i == 0 {
            assert(pc[0] == p);
        } else if i == 1 {
            assert(pc[1] == p);
        } else if i == 2 {
            assert(pc[2] == p);
        } else if i == 3 {
            assert(pc[3] == p);
        } else if i == 4 {
            assert(pc[4] == p);
        } else if i == 5 {
            assert(pc[5] == p);
        } else if i == 6 {
            assert(pc[6] == p);
        }
    }
    assert forall|p: EqKey| #[trigger] recorded(c).contains(p) implies recorded(g).contains(p) by {
        let i = choose|i: int| 0 <= i < pc.len() && pc[i] == p;
        if i == 0 {
            assert(pg[0] == p);
        } else if i == 1 {
            assert(pg[1] == p);
        } else if i == 2 {
            assert(pg[2] == p);
        } else if i == 3 {
            assert(pg[3] == p);
        } else if i == 4 {
            assert(pg[4] == p);
        } else if i == 5 {
            assert(pg[5] == p);
        } else if i == 6 {
            assert(pg[6] == p);
        }
    }
}

/// The memo of TPC-H query 8 agrees with the operator that produces group 99.
proof fn lemma_q8_unary_99()
    ensures
        unary_recorded(memo_map_view(q8_memo()), q8_unary_ops()[3]),
{
    let memo = q8_memo();
    lemma_q8_ids_distinct();
    lemma_memo_map_view_lookup(memo);
    let m = memo_map_view(memo);
    let u = q8_unary_ops()[3];
    assert(memo[22] == (99u64, q8_group_99()));
    assert(group_ids(memo)[22] == 99u64);
    assert(m.contains_key(99u64));
    assert(memo[21] == (12953u64, q8_group_12953()));
    assert(group_ids(memo)[21] == 12953u64);
    assert(m.contains_key(12953u64));
    let g = q8_group_99();
    let c = q8_group_12953();
    assert(m[99u64] == g && m[12953u64] == c);
    lemma_replay_records(q8_group_99_predicates());
    let pg = q8_group_99_predicates();
    assert(recorded(g) == replay(pg).preds);
    lemma_replay_records(q8_group_12953_predicates());
    let pc = q8_group_12953_predicates();
    assert(recorded(c) == replay(pc).preds);
    assert forall|p: EqKey| #[trigger] recorded(g).contains(p) implies recorded(c).contains(p) by {
        let i = choose|i: int| 0 <= i < pg.len() && pg[i] == p;
        if i == 0 {
            assert(pc[0] == p);
        } else if i == 1 {
            assert(pc[6] == p);
        } else if i == 2 {
            assert(pc[2] == p);
        } else if i == 3 {
            assert(pc[4] == p);
        } else if i == 4 {
            assert(pc[3] == p);
        } else if i == 5 {
            assert(pc[5] == p);
        } else if i == 6 {
            assert(pc[1] == p);
        }
    }
    assert forall|p: EqKey| #[trigger] recorded(c).contains(p) implies recorded(g).contains(p) by {
        let i = choose|i: int| 0 <= i < pc.len() && pc[i] == p;
        if i == 0 {
            assert(pg[0] == p);
        } else if i == 1 {
            assert(pg[6] == p);
        } else if i == 2 {
            assert(pg[2] == p);
        } else if i == 3 {
            assert(pg[4] == p);
        } else if i == 4 {
            assert(pg[3] == p);
        } else if i == 5 {
            assert(pg[5] == p);
        } else if i == 6 {
            assert(pg[1] == p);
        }
    }
}

/// The memo of TPC-H query 8 agrees with the operator that produces group 96.
proof fn lemma_q8_unary_96()
    ensures
        unary_recorded(memo_map_view(q8_memo()), q8_unary_ops()[4]),
{
    let memo = q8_memo();
    lemma_q8_ids_distinct();
    lemma_memo_map_view_lookup(memo);
    let m = memo_map_view(memo);
    let u = q8_unary_ops()[4];
    assert(memo[20] == (96u64, q8_group_96()));
    assert(group_ids(memo)[20] == 96u64);
    assert(m.contains_key(96u64));
    assert(memo[19] == (119u64, q8_group_119()));
    assert(group_ids(memo)[19] == 119u64);
    assert(m.contains_key(119u64));
    let g = q8_group_96();
    let c = q8_group_119();
    assert(m[96u64] == g && m[119u64] == c);
    assert(recorded(g) =~= Seq::<EqKey>::empty());
    assert(recorded(c) =~= Seq::<EqKey>::empty());
}

/// The memo of TPC-H query 8 agrees with the operator that produces group 119.
proof fn lemma_q8_unary_119()
    ensures
        unary_recorded(memo_map_view(q8_memo()), q8_unary_ops()[5]),
{
    let memo = q8_memo();
    lemma_q8_ids_distinct();
    lemma_memo_map_view_lookup(memo);
    let m = memo_map_view(memo);
    let u = q8_unary_ops()[5];
    assert(memo[19] == (119u64, q8_group_119()));
    assert(group_ids(memo)[19] == 119u64);
    assert(m.contains_key(119u64));
    assert(memo[18] == (87u64, q8_group_87()));
    assert(group_ids(memo)[18] == 87u64);
    assert(m.contains_key(87u64));
    let g = q8_group_119();
    let c = q8_group_87();
    assert(m[119u64] == g && m[87u64] == c);
    assert(g.schema =~= c.schema);
    assert(g.refs =~= c.refs);
    assert(recorded(g) =~= Seq::<EqKey>::empty());
    assert(recorded(c) =~= Seq::<EqKey>::empty());
}

/// The memo of TPC-H query 8 agrees with the operator that produces group 78.
proof fn lemma_q8_unary_78()
    ensures
        unary_recorded(memo_map_view(q8_memo()), q8_unary_ops()[6]),
{
    let memo = q8_memo();
    lemma_q8_ids_distinct();
    lemma_memo_map_view_lookup(memo);
    let m = memo_map_view(memo);
    let u = q8_unary_ops()[6];
    assert(memo[16] == (78u64, q8_group_78()));
    assert(group_ids(memo)[16] == 78u64);
    assert(m.contains_key(78u64));
    assert(memo[13] == (65u64, q8_group_65()));
    assert(group_ids(memo)[13] == 65u64);
    assert(m.contains_key(65u64));
    let g = q8_group_78();
    let c = q8_group_65();
    assert(m[78u64] == g && m[65u64] == c);
    assert(recorded(g) =~= Seq::<EqKey>::empty());
    assert(recorded(c) =~= Seq::<EqKey>::empty());
}

/// The memo of TPC-H query 8 agrees with the operator that produces group 68.
proof fn lemma_q8_unary_68()
    ensures
        unary_recorded(memo_map_view(q8_memo()), q8_unary_ops()[7]),
{
    let memo = q8_memo();
    lemma_q8_ids_distinct();
    lemma_memo_map_view_lookup(memo);
    let m = memo_map_view(memo);
    let u = q8_unary_ops()[7];
    assert(memo[14] == (68u64, q8_group_68()));
    assert(group_ids(memo)[14] == 68u64);
    assert(m.contains_key(68u64));
    assert(memo[13] == (65u64, q8_group_65()));
    assert(group_ids(memo)[13] == 65u64);
    assert(m.contains_key(65u64));
    let g = q8_group_68();
    let c = q8_group_65();
    assert(m[68u64] == g && m[65u64] == c);
    assert(recorded(g) =~= Seq::<EqKey>::empty());
    assert(recorded(c) =~= Seq::<EqKey>::empty());
}

/// The memo of TPC-H query 8 agrees with the operator that produces group 56.
proof fn lemma_q8_unary_56()
    ensures
        unary_recorded(memo_map_view(q8_memo()), q8_unary_ops()[8]),
{
    let memo = q8_memo();
    lemma_q8_ids_distinct();
    lemma_memo_map_view_lookup(memo);
    let m = memo_map_view(memo);
    let u = q8_unary_ops()[8];
    assert(memo[11] == (56u64, q8_group_56()));
    assert(group_ids(memo)[11] == 56u64);
    assert(m.contains_key(56u64));
    assert(memo[10] == (53u64, q8_group_53()));
    assert(group_ids(memo)[10] == 53u64);
    assert(m.contains_key(53u64));
    let g = q8_group_56();
    let c = q8_group_53();
    assert(m[56u64] == g && m[53u64] == c);
    assert(recorded(g) =~= Seq::<EqKey>::empty());
    assert(recorded(c) =~= Seq::<EqKey>::empty());
}

/// The memo of TPC-H query 8 agrees with the operator that produces group 44.
proof fn lemma_q8_unary_44()
    ensures
        unary_recorded(memo_map_view(q8_memo()), q8_unary_ops()[9]),
{
    let memo = q8_memo();
    lemma_q8_ids_distinct();
    lemma_memo_map_view_lookup(memo);
    let m = memo_map_view(memo);
    let u = q8_unary_ops()[9];
    assert(memo[8] == (44u64, q8_group_44()));
    assert(group_ids(memo)[8] == 44u64);
    assert(m.contains_key(44u64));
    assert(memo[7] == (155u64, q8_group_155()));
    assert(group_ids(memo)[7] == 155u64);
    assert(m.contains_key(155u64));
    let g = q8_group_44();
    let c = q8_group_155();
    assert(m[44u64] == g && m[155u64] == c);
    assert(recorded(g) =~= Seq::<EqKey>::empty());
    assert(recorded(c) =~= Seq::<EqKey>::empty());
}

/// The memo of TPC-H query 8 agrees with the operator that produces group 155.
proof fn lemma_q8_unary_155()
    ensures
        unary_recorded(memo_map_view(q8_memo()), q8_unary_ops()[10]),
{
    let memo = q8_memo();
    lemma_q8_ids_distinct();
    lemma_memo_map_view_lookup(memo);
    let m = memo_map_view(memo);
    let u = q8_unary_ops()[10];
    assert(memo[7] == (155u64, q8_group_155()));
    assert(group_ids(memo)[7] == 155u64);
    assert(m.contains_key(155u64));
    assert(memo[6] == (38u64, q8_group_38()));
    assert(group_ids(memo)[6] == 38u64);
    assert(m.contains_key(38u64));
    let g = q8_group_155();
    let c = q8_group_38();
    assert(m[155u64] == g && m[38u64] == c);
    assert(g.schema =~= c.schema);
    assert(g.refs =~= c.refs);
    assert(recorded(g) =~= Seq::<EqKey>::empty());
    assert(recorded(c) =~= Seq::<EqKey>::empty());
}

/// The memo of TPC-H query 8 agrees with the operator that produces group 162.
proof fn lemma_q8_unary_162()
    ensures
        unary_recorded(memo_map_view(q8_memo()), q8_unary_ops()[11]),
{
    let memo = q8_memo();
    lemma_q8_ids_distinct();
    lemma_memo_map_view_lookup(memo);
    let m = memo_map_view(memo);
    let u = q8_unary_ops()[11];
    assert(memo[2] == (162u64, q8_group_162()));
    assert(group_ids(memo)[2] == 162u64);
    assert(m.contains_key(162u64));
    assert(memo[1] == (2u64, q8_group_2()));
    assert(group_ids(memo)[1] == 2u64);
    assert(m.contains_key(2u64));
    let g = q8_group_162();
    let c = q8_group_2();
    assert(m[162u64] == g && m[2u64] == c);
    assert(g.schema =~= c.schema);
    assert(g.refs =~= c.refs);
    assert(recorded(g) =~= Seq::<EqKey>::empty());
    assert(recorded(c) =~= Seq::<EqKey>::empty());
}

/// Each filter, sort and projection of the plan of TPC-H query 8 is recorded in its memo:
/// its group records the same equalities as the group it reads, and a filter's or a sort's
/// group has the schema and attribute references of the group it reads.
pub proof fn lemma_q8_unary_ops_recorded()
    ensures
        forall|i: int|
            0 <= i < q8_unary_ops().len() ==> unary_recorded(
                memo_map_view(q8_memo()),
                #[trigger] q8_unary_ops()[i],
            ),
{
    lemma_q8_unary_112();
    lemma_q8_unary_109();
    lemma_q8_unary_102();
    lemma_q8_unary_99();
    lemma_q8_unary_96();
    lemma_q8_unary_119();
    lemma_q8_unary_78();
    lemma_q8_unary_68();
    lemma_q8_unary_56();
    lemma_q8_unary_44();
    lemma_q8_unary_155();
    lemma_q8_unary_162();
    assert forall|i: int| 0 <= i < q8_unary_ops().len() implies unary_recorded(
        memo_map_view(q8_memo()),
        #[trigger] q8_unary_ops()[i],
    ) by {
        if i == 0 {
        } else if i == 1 {
        } else if i == 2 {
        } else if i == 3 {
        } else if i == 4 {
        } else if i == 5 {
        } else if i == 6 {
        } else if i == 7 {
        } else if i == 8 {
        } else if i == 9 {
        } else if i == 10 {
        } else if i == 11 {
        }
    }
}

} // verus!
