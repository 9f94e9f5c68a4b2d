use std::collections::HashMap;

use vstd::prelude::*;

use crate::common::predicates::constant_pred::ConstantType;
use crate::common::properties::attr_ref::{
    attr_ref_views, eq_predicate_views, replay, AttrRef, EqKey, EqPredicate,
};
use crate::common::properties::attribute_views;
use crate::common::properties::schema::Schema;
use crate::common::properties::Attribute;

use super::{
    attribute, base_ref, correlation_of, eq_predicate, group_ids, group_info,
    group_map_views, group_map_wf, lemma_memo_map_view_lookup, memo_map, memo_map_view,
    memo_view, memo_wf, flipped, is_join_key, join_key, join_recorded,
    lemma_replay_records, recorded, unary_recorded, HashJoinView, MemoGroupInfo,
    MemoGroupView, UnaryOpView,
};

verus! {

/// The model of group 2 of the memo of TPC-H query 9.
pub open spec fn q9_group_2() -> MemoGroupView {
    MemoGroupView {
        schema: seq![
            ("p_partkey"@, ConstantType::Int32, false),
            ("p_name"@, ConstantType::Utf8String, false),
            ("p_mfgr"@, ConstantType::Utf8String, false),
            ("p_brand"@, ConstantType::Utf8String, false),
            ("p_type"@, ConstantType::Utf8String, false),
            ("p_size"@, ConstantType::Int32, false),
            ("p_container"@, ConstantType::Utf8String, false),
            ("p_retailprice"@, ConstantType::Decimal, false),
            ("p_comment"@, ConstantType::Utf8String, false),
        ],
        refs: seq![
            Some(("part"@, 0usize)),
            Some(("part"@, 1usize)),
            Some(("part"@, 2usize)),
            Some(("part"@, 3usize)),
            Some(("part"@, 4usize)),
            Some(("part"@, 5usize)),
            Some(("part"@, 6usize)),
            Some(("part"@, 7usize)),
            Some(("part"@, 8usize)),
        ],
        correlation: None,
    }
}

/// Group 2 of the memo of TPC-H query 9.
fn q9_memo_group_2() -> (res: MemoGroupInfo)
    ensures
        res.wf(),
        res@ == q9_group_2(),
{
    let mut attributes: Vec<Attribute> = Vec::new();
    attributes.push(attribute("p_partkey", ConstantType::Int32, false));
    attributes.push(attribute("p_name", ConstantType::Utf8String, false));
    attributes.push(attribute("p_mfgr", ConstantType::Utf8String, false));
    attributes.push(attribute("p_brand", ConstantType::Utf8String, false));
    attributes.push(attribute("p_type", ConstantType::Utf8String, false));
    attributes.push(attribute("p_size", ConstantType::Int32, false));
    attributes.push(attribute("p_container", ConstantType::Utf8String, false));
    attributes.push(attribute("p_retailprice", ConstantType::Decimal, false));
    attributes.push(attribute("p_comment", ConstantType::Utf8String, false));
    let mut refs: Vec<AttrRef> = Vec::new();
    refs.push(base_ref("part", 0));
    refs.push(base_ref("part", 1));
    refs.push(base_ref("part", 2));
    refs.push(base_ref("part", 3));
    refs.push(base_ref("part", 4));
    refs.push(base_ref("part", 5));
    refs.push(base_ref("part", 6));
    refs.push(base_ref("part", 7));
    refs.push(base_ref("part", 8));
    proof {
        assert(attribute_views(attributes@) =~= q9_group_2().schema);
        assert(attr_ref_views(refs@) =~= q9_group_2().refs);
    }
    group_info(Schema { attributes }, refs, None)
}

/// The model of group 83 of the memo of TPC-H query 9.
pub open spec fn q9_group_83() -> MemoGroupView {
    MemoGroupView {
        schema: seq![
            ("p_partkey"@, ConstantType::Int32, false),
            ("p_name"@, ConstantType::Utf8String, false),
            ("p_mfgr"@, ConstantType::Utf8String, false),
            ("p_brand"@, ConstantType::Utf8String, false),
            ("p_type"@, ConstantType::Utf8String, false),
            ("p_size"@, ConstantType::Int32, false),
            ("p_container"@, ConstantType::Utf8String, false),
            ("p_retailprice"@, ConstantType::Decimal, false),
            ("p_comment"@, ConstantType::Utf8String, false),
        ],
        refs: seq![
            Some(("part"@, 0usize)),
            Some(("part"@, 1usize)),
            Some(("part"@, 2usize)),
            Some(("part"@, 3usize)),
            Some(("part"@, 4usize)),
            Some(("part"@, 5usize)),
            Some(("part"@, 6usize)),
            Some(("part"@, 7usize)),
            Some(("part"@, 8usize)),
        ],
        correlation: None,
    }
}

/// Group 83 of the memo of TPC-H query 9.
fn q9_memo_group_83() -> (res: MemoGroupInfo)
    ensures
        res.wf(),
        res@ == q9_group_83(),
{
    let mut attributes: Vec<Attribute> = Vec::new();
    attributes.push(attribute("p_partkey", ConstantType::Int32, false));
    attributes.push(attribute("p_name", ConstantType::Utf8String, false));
    attributes.push(attribute("p_mfgr", ConstantType::Utf8String, false));
    attributes.push(attribute("p_brand", ConstantType::Utf8String, false));
    attributes.push(attribute("p_type", ConstantType::Utf8String, false));
    attributes.push(attribute("p_size", ConstantType::Int32, false));
    attributes.push(attribute("p_container", ConstantType::Utf8String, false));
    attributes.push(attribute("p_retailprice", ConstantType::Decimal, false));
    attributes.push(attribute("p_comment", ConstantType::Utf8String, false));
    let mut refs: Vec<AttrRef> = Vec::new();
    refs.push(base_ref("part", 0));
    refs.push(base_ref("part", 1));
    refs.push(base_ref("part", 2));
    refs.push(base_ref("part", 3));
    refs.push(base_ref("part", 4));
    refs.push(base_ref("part", 5));
    refs.push(base_ref("part", 6));
    refs.push(base_ref("part", 7));
    refs.push(base_ref("part", 8));
    proof {
        assert(attribute_views(attributes@) =~= q9_group_83().schema);
        assert(attr_ref_views(refs@) =~= q9_group_83().refs);
    }
    group_info(Schema { attributes }, refs, None)
}

/// The model of group 14 of the memo of TPC-H query 9.
pub open spec fn q9_group_14() -> MemoGroupView {
    MemoGroupView {
        schema: seq![
            ("l_orderkey"@, ConstantType::Int32, false),
            ("l_partkey"@, ConstantType::Int32, false),
            ("l_suppkey"@, ConstantType::Int32, false),
            ("l_linenumber"@, ConstantType::Int32, false),
            ("l_quantity"@, ConstantType::Decimal, false),
            ("l_extendedprice"@, ConstantType::Decimal, false),
            ("l_discount"@, ConstantType::Decimal, false),
            ("l_tax"@, ConstantType::Decimal, false),
            ("l_returnflag"@, ConstantType::Utf8String, false),
            ("l_linestatus"@, ConstantType::Utf8String, false),
            ("l_shipdate"@, ConstantType::Date, false),
            ("l_commitdate"@, ConstantType::Date, false),
            ("l_receiptdate"@, ConstantType::Date, false),
            ("l_shipinstruct"@, ConstantType::Utf8String, false),
            ("l_shipmode"@, ConstantType::Utf8String, false),
            ("l_comment"@, ConstantType::Utf8String, false),
        ],
        refs: seq![
            Some(("lineitem"@, 0usize)),
            Some(("lineitem"@, 1usize)),
            Some(("lineitem"@, 2usize)),
            Some(("lineitem"@, 3usize)),
            Some(("lineitem"@, 4usize)),
            Some(("lineitem"@, 5usize)),
            Some(("lineitem"@, 6usize)),
            Some(("lineitem"@, 7usize)),
            Some(("lineitem"@, 8usize)),
            Some(("lineitem"@, 9usize)),
            Some(("lineitem"@, 10usize)),
            Some(("lineitem"@, 11usize)),
            Some(("lineitem"@, 12usize)),
            Some(("lineitem"@, 13usize)),
            Some(("lineitem"@, 14usize)),
            Some(("lineitem"@, 15usize)),
        ],
        correlation: None,
    }
}

/// Group 14 of the memo of TPC-H query 9.
fn q9_memo_group_14() -> (res: MemoGroupInfo)
    ensures
        res.wf(),
        res@ == q9_group_14(),
{
    let mut attributes: Vec<Attribute> = Vec::new();
    attributes.push(attribute("l_orderkey", ConstantType::Int32, false));
    attributes.push(attribute("l_partkey", ConstantType::Int32, false));
    attributes.push(attribute("l_suppkey", ConstantType::Int32, false));
    attributes.push(attribute("l_linenumber", ConstantType::Int32, false));
    attributes.push(attribute("l_quantity", ConstantType::Decimal, false));
    attributes.push(attribute("l_extendedprice", ConstantType::Decimal, false));
    attributes.push(attribute("l_discount", ConstantType::Decimal, false));
    attributes.push(attribute("l_tax", ConstantType::Decimal, false));
    attributes.push(attribute("l_returnflag", ConstantType::Utf8String, false));
    attributes.push(attribute("l_linestatus", ConstantType::Utf8String, false));
    attributes.push(attribute("l_shipdate", ConstantType::Date, false));
    attributes.push(attribute("l_commitdate", ConstantType::Date, false));
    attributes.push(attribute("l_receiptdate", ConstantType::Date, false));
    attributes.push(attribute("l_shipinstruct", ConstantType::Utf8String, false));
    attributes.push(attribute("l_shipmode", ConstantType::Utf8String, false));
    attributes.push(attribute("l_comment", ConstantType::Utf8String, false));
    let mut refs: Vec<AttrRef> = Vec::new();
    refs.push(base_ref("lineitem", 0));
    refs.push(base_ref("lineitem", 1));
    refs.push(base_ref("lineitem", 2));
    refs.push(base_ref("lineitem", 3));
    refs.push(base_ref("lineitem", 4));
    refs.push(base_ref("lineitem", 5));
    refs.push(base_ref("lineitem", 6));
    refs.push(base_ref("lineitem", 7));
    refs.push(base_ref("lineitem", 8));
    refs.push(base_ref("lineitem", 9));
    refs.push(base_ref("lineitem", 10));
    refs.push(base_ref("lineitem", 11));
    refs.push(base_ref("lineitem", 12));
    refs.push(base_ref("lineitem", 13));
    refs.push(base_ref("lineitem", 14));
    refs.push(base_ref("lineitem", 15));
    proof {
        assert(attribute_views(attributes@) =~= q9_group_14().schema);
        assert(attr_ref_views(refs@) =~= q9_group_14().refs);
    }
    group_info(Schema { attributes }, refs, None)
}

/// The equality predicates of group 139 of the memo of TPC-H query 9, in the order in
/// which they are added to its correlation.
pub open spec fn q9_group_139_predicates() -> Seq<EqKey> {
    seq![
        (("part"@, 0usize), ("lineitem"@, 1usize)),
    ]
}

/// The model of group 139 of the memo of TPC-H query 9.
pub open spec fn q9_group_139() -> MemoGroupView {
    MemoGroupView {
        schema: seq![
            ("p_partkey"@, ConstantType::Int32, false),
            ("p_name"@, ConstantType::Utf8String, false),
            ("p_mfgr"@, ConstantType::Utf8String, false),
            ("p_brand"@, ConstantType::Utf8String, false),
            ("p_type"@, ConstantType::Utf8String, false),
            ("p_size"@, ConstantType::Int32, false),
            ("p_container"@, ConstantType::Utf8String, false),
            ("p_retailprice"@, ConstantType::Decimal, false),
            ("p_comment"@, ConstantType::Utf8String, false),
            ("l_orderkey"@, ConstantType::Int32, false),
            ("l_partkey"@, ConstantType::Int32, false),
            ("l_suppkey"@, ConstantType::Int32, false),
            ("l_linenumber"@, ConstantType::Int32, false),
            ("l_quantity"@, ConstantType::Decimal, false),
            ("l_extendedprice"@, ConstantType::Decimal, false),
            ("l_discount"@, ConstantType::Decimal, false),
            ("l_tax"@, ConstantType::Decimal, false),
            ("l_returnflag"@, ConstantType::Utf8String, false),
            ("l_linestatus"@, ConstantType::Utf8String, false),
            ("l_shipdate"@, ConstantType::Date, false),
            ("l_commitdate"@, ConstantType::Date, false),
            ("l_receiptdate"@, ConstantType::Date, false),
            ("l_shipinstruct"@, ConstantType::Utf8String, false),
            ("l_shipmode"@, ConstantType::Utf8String, false),
            ("l_comment"@, ConstantType::Utf8String, false),
        ],
        refs: seq![
            Some(("part"@, 0usize)),
            Some(("part"@, 1usize)),
            Some(("part"@, 2usize)),
            Some(("part"@, 3usize)),
            Some(("part"@, 4usize)),
            Some(("part"@, 5usize)),
            Some(("part"@, 6usize)),
            Some(("part"@, 7usize)),
            Some(("part"@, 8usize)),
            Some(("lineitem"@, 0usize)),
            Some(("lineitem"@, 1usize)),
            Some(("lineitem"@, 2usize)),
            Some(("lineitem"@, 3usize)),
            Some(("lineitem"@, 4usize)),
            Some(("lineitem"@, 5usize)),
            Some(("lineitem"@, 6usize)),
            Some(("lineitem"@, 7usize)),
            Some(("lineitem"@, 8usize)),
            Some(("lineitem"@, 9usize)),
            Some(("lineitem"@, 10usize)),
            Some(("lineitem"@, 11usize)),
            Some(("lineitem"@, 12usize)),
            Some(("lineitem"@, 13usize)),
            Some(("lineitem"@, 14usize)),
            Some(("lineitem"@, 15usize)),
        ],
        correlation: Some(replay(q9_group_139_predicates())),
    }
}

/// Group 139 of the memo of TPC-H query 9.
fn q9_memo_group_139() -> (res: MemoGroupInfo)
    ensures
        res.wf(),
        res@ == q9_group_139(),
{
    let mut attributes: Vec<Attribute> = Vec::new();
    attributes.push(attribute("p_partkey", ConstantType::Int32, false));
    attributes.push(attribute("p_name", ConstantType::Utf8String, false));
    attributes.push(attribute("p_mfgr", ConstantType::Utf8String, false));
    attributes.push(attribute("p_brand", ConstantType::Utf8String, false));
    attributes.push(attribute("p_type", ConstantType::Utf8String, false));
    attributes.push(attribute("p_size", ConstantType::Int32, false));
    attributes.push(attribute("p_container", ConstantType::Utf8String, false));
    attributes.push(attribute("p_retailprice", ConstantType::Decimal, false));
    attributes.push(attribute("p_comment", ConstantType::Utf8String, false));
    attributes.push(attribute("l_orderkey", ConstantType::Int32, false));
    attributes.push(attribute("l_partkey", ConstantType::Int32, false));
    attributes.push(attribute("l_suppkey", ConstantType::Int32, false));
    attributes.push(attribute("l_linenumber", ConstantType::Int32, false));
    attributes.push(attribute("l_quantity", ConstantType::Decimal, false));
    attributes.push(attribute("l_extendedprice", ConstantType::Decimal, false));
    attributes.push(attribute("l_discount", ConstantType::Decimal, false));
    attributes.push(attribute("l_tax", ConstantType::Decimal, false));
    attributes.push(attribute("l_returnflag", ConstantType::Utf8String, false));
    attributes.push(attribute("l_linestatus", ConstantType::Utf8String, false));
    attributes.push(attribute("l_shipdate", ConstantType::Date, false));
    attributes.push(attribute("l_commitdate", ConstantType::Date, false));
    attributes.push(attribute("l_receiptdate", ConstantType::Date, false));
    attributes.push(attribute("l_shipinstruct", ConstantType::Utf8String, false));
    attributes.push(attribute("l_shipmode", ConstantType::Utf8String, false));
    attributes.push(attribute("l_comment", ConstantType::Utf8String, false));
    let mut refs: Vec<AttrRef> = Vec::new();
    refs.push(base_ref("part", 0));
    refs.push(base_ref("part", 1));
    refs.push(base_ref("part", 2));
    refs.push(base_ref("part", 3));
    refs.push(base_ref("part", 4));
    refs.push(base_ref("part", 5));
    refs.push(base_ref("part", 6));
    refs.push(base_ref("part", 7));
    refs.push(base_ref("part", 8));
    refs.push(base_ref("lineitem", 0));
    refs.push(base_ref("lineitem", 1));
    refs.push(base_ref("lineitem", 2));
    refs.push(base_ref("lineitem", 3));
    refs.push(base_ref("lineitem", 4));
    refs.push(base_ref("lineitem", 5));
    refs.push(base_ref("lineitem", 6));
    refs.push(base_ref("lineitem", 7));
    refs.push(base_ref("lineitem", 8));
    refs.push(base_ref("lineitem", 9));
    refs.push(base_ref("lineitem", 10));
    refs.push(base_ref("lineitem", 11));
    refs.push(base_ref("lineitem", 12));
    refs.push(base_ref("lineitem", 13));
    refs.push(base_ref("lineitem", 14));
    refs.push(base_ref("lineitem", 15));
    proof {
        assert(attribute_views(attributes@) =~= q9_group_139().schema);
        assert(attr_ref_views(refs@) =~= q9_group_139().refs);
    }
    let mut predicates: Vec<EqPredicate> = Vec::new();
    predicates.push(eq_predicate("part", 0, "lineitem", 1));
    assert(eq_predicate_views(predicates@) =~= q9_group_139_predicates());
    group_info(Schema { attributes }, refs, Some(correlation_of(predicates)))
}

/// The model of group 26 of the memo of TPC-H query 9.
pub open spec fn q9_group_26() -> MemoGroupView {
    MemoGroupView {
        schema: seq![
            ("s_suppkey"@, ConstantType::Int32, false),
            ("s_name"@, ConstantType::Utf8String, false),
            ("s_address"@, ConstantType::Utf8String, false),
            ("s_nationkey"@, ConstantType::Int32, false),
            ("s_phone"@, ConstantType::Utf8String, false),
            ("s_acctbal"@, ConstantType::Decimal, false),
            ("s_comment"@, ConstantType::Utf8String, false),
        ],
        refs: seq![
            Some(("supplier"@, 0usize)),
            Some(("supplier"@, 1usize)),
            Some(("supplier"@, 2usize)),
            Some(("supplier"@, 3usize)),
            Some(("supplier"@, 4usize)),
            Some(("supplier"@, 5usize)),
            Some(("supplier"@, 6usize)),
        ],
        correlation: None,
    }
}

/// Group 26 of the memo of TPC-H query 9.
fn q9_memo_group_26() -> (res: MemoGroupInfo)
    ensures
        res.wf(),
        res@ == q9_group_26(),
{
    let mut attributes: Vec<Attribute> = Vec::new();
    attributes.push(attribute("s_suppkey", ConstantType::Int32, false));
    attributes.push(attribute("s_name", ConstantType::Utf8String, false));
    attributes.push(attribute("s_address", ConstantType::Utf8String, false));
    attributes.push(attribute("s_nationkey", ConstantType::Int32, false));
    attributes.push(attribute("s_phone", ConstantType::Utf8String, false));
    attributes.push(attribute("s_acctbal", ConstantType::Decimal, false));
    attributes.push(attribute("s_comment", ConstantType::Utf8String, false));
    let mut refs: Vec<AttrRef> = Vec::new();
    refs.push(base_ref("supplier", 0));
    refs.push(base_ref("supplier", 1));
    refs.push(base_ref("supplier", 2));
    refs.push(base_ref("supplier", 3));
    refs.push(base_ref("supplier", 4));
    refs.push(base_ref("supplier", 5));
    refs.push(base_ref("supplier", 6));
    proof {
        assert(attribute_views(attributes@) =~= q9_group_26().schema);
        assert(attr_ref_views(refs@) =~= q9_group_26().refs);
    }
    group_info(Schema { attributes }, refs, None)
}

/// The equality predicates of group 893 of the memo of TPC-H query 9, in the order in
/// which they are added to its correlation.
pub open spec fn q9_group_893_predicates() -> Seq<EqKey> {
    seq![
        (("part"@, 0usize), ("lineitem"@, 1usize)),
        (("lineitem"@, 2usize), ("supplier"@, 0usize)),
    ]
}

/// The model of group 893 of the memo of TPC-H query 9.
pub open spec fn q9_group_893() -> MemoGroupView {
    MemoGroupView {
        schema: seq![
            ("p_partkey"@, ConstantType::Int32, false),
            ("p_name"@, ConstantType::Utf8String, false),
            ("p_mfgr"@, ConstantType::Utf8String, false),
            ("p_brand"@, ConstantType::Utf8String, false),
            ("p_type"@, ConstantType::Utf8String, false),
            ("p_size"@, ConstantType::Int32, false),
            ("p_container"@, ConstantType::Utf8String, false),
            ("p_retailprice"@, ConstantType::Decimal, false),
            ("p_comment"@, ConstantType::Utf8String, false),
            ("l_orderkey"@, ConstantType::Int32, false),
            ("l_partkey"@, ConstantType::Int32, false),
            ("l_suppkey"@, ConstantType::Int32, false),
            ("l_linenumber"@, ConstantType::Int32, false),
            ("l_quantity"@, ConstantType::Decimal, false),
            ("l_extendedprice"@, ConstantType::Decimal, false),
            ("l_discount"@, ConstantType::Decimal, false),
            ("l_tax"@, ConstantType::Decimal, false),
            ("l_returnflag"@, ConstantType::Utf8String, false),
            ("l_linestatus"@, ConstantType::Utf8String, false),
            ("l_shipdate"@, ConstantType::Date, false),
            ("l_commitdate"@, ConstantType::Date, false),
            ("l_receiptdate"@, ConstantType::Date, false),
            ("l_shipinstruct"@, ConstantType::Utf8String, false),
            ("l_shipmode"@, ConstantType::Utf8String, false),
            ("l_comment"@, ConstantType::Utf8String, false),
            ("s_suppkey"@, ConstantType::Int32, false),
            ("s_name"@, ConstantType::Utf8String, false),
            ("s_address"@, ConstantType::Utf8String, false),
            ("s_nationkey"@, ConstantType::Int32, false),
            ("s_phone"@, ConstantType::Utf8String, false),
            ("s_acctbal"@, ConstantType::Decimal, false),
            ("s_comment"@, ConstantType::Utf8String, false),
        ],
        refs: seq![
            Some(("part"@, 0usize)),
            Some(("part"@, 1usize)),
            Some(("part"@, 2usize)),
            Some(("part"@, 3usize)),
            Some(("part"@, 4usize)),
            Some(("part"@, 5usize)),
            Some(("part"@, 6usize)),
            Some(("part"@, 7usize)),
            Some(("part"@, 8usize)),
            Some(("lineitem"@, 0usize)),
            Some(("lineitem"@, 1usize)),
            Some(("lineitem"@, 2usize)),
            Some(("lineitem"@, 3usize)),
            Some(("lineitem"@, 4usize)),
            Some(("lineitem"@, 5usize)),
            Some(("lineitem"@, 6usize)),
            Some(("lineitem"@, 7usize)),
            Some(("lineitem"@, 8usize)),
            Some(("lineitem"@, 9usize)),
            Some(("lineitem"@, 10usize)),
            Some(("lineitem"@, 11usize)),
            Some(("lineitem"@, 12usize)),
            Some(("lineitem"@, 13usize)),
            Some(("lineitem"@, 14usize)),
            Some(("lineitem"@, 15usize)),
            Some(("supplier"@, 0usize)),
            Some(("supplier"@, 1usize)),
            Some(("supplier"@, 2usize)),
            Some(("supplier"@, 3usize)),
            Some(("supplier"@, 4usize)),
            Some(("supplier"@, 5usize)),
            Some(("supplier"@, 6usize)),
        ],
        correlation: Some(replay(q9_group_893_predicates())),
    }
}

/// Group 893 of the memo of TPC-H query 9.
fn q9_memo_group_893() -> (res: MemoGroupInfo)
    ensures
        res.wf(),
        res@ == q9_group_893(),
{
    let mut attributes: Vec<Attribute> = Vec::new();
    attributes.push(attribute("p_partkey", ConstantType::Int32, false));
    attributes.push(attribute("p_name", ConstantType::Utf8String, false));
    attributes.push(attribute("p_mfgr", ConstantType::Utf8String, false));
    attributes.push(attribute("p_brand", ConstantType::Utf8String, false));
    attributes.push(attribute("p_type", ConstantType::Utf8String, false));
    attributes.push(attribute("p_size", ConstantType::Int32, false));
    attributes.push(attribute("p_container", ConstantType::Utf8String, false));
    attributes.push(attribute("p_retailprice", ConstantType::Decimal, false));
    attributes.push(attribute("p_comment", ConstantType::Utf8String, false));
    attributes.push(attribute("l_orderkey", ConstantType::Int32, false));
    attributes.push(attribute("l_partkey", ConstantType::Int32, false));
    attributes.push(attribute("l_suppkey", ConstantType::Int32, false));
    attributes.push(attribute("l_linenumber", ConstantType::Int32, false));
    attributes.push(attribute("l_quantity", ConstantType::Decimal, false));
    attributes.push(attribute("l_extendedprice", ConstantType::Decimal, false));
    attributes.push(attribute("l_discount", ConstantType::Decimal, false));
    attributes.push(attribute("l_tax", ConstantType::Decimal, false));
    attributes.push(attribute("l_returnflag", ConstantType::Utf8String, false));
    attributes.push(attribute("l_linestatus", ConstantType::Utf8String, false));
    attributes.push(attribute("l_shipdate", ConstantType::Date, false));
    attributes.push(attribute("l_commitdate", ConstantType::Date, false));
    attributes.push(attribute("l_receiptdate", ConstantType::Date, false));
    attributes.push(attribute("l_shipinstruct", ConstantType::Utf8String, false));
    attributes.push(attribute("l_shipmode", ConstantType::Utf8String, false));
    attributes.push(attribute("l_comment", ConstantType::Utf8String, false));
    attributes.push(attribute("s_suppkey", ConstantType::Int32, false));
    attributes.push(attribute("s_name", ConstantType::Utf8String, false));
    attributes.push(attribute("s_address", ConstantType::Utf8String, false));
    attributes.push(attribute("s_nationkey", ConstantType::Int32, false));
    attributes.push(attribute("s_phone", ConstantType::Utf8String, false));
    attributes.push(attribute("s_acctbal", ConstantType::Decimal, false));
    attributes.push(attribute("s_comment", ConstantType::Utf8String, false));
    let mut refs: Vec<AttrRef> = Vec::new();
    refs.push(base_ref("part", 0));
    refs.push(base_ref("part", 1));
    refs.push(base_ref("part", 2));
    refs.push(base_ref("part", 3));
    refs.push(base_ref("part", 4));
    refs.push(base_ref("part", 5));
    refs.push(base_ref("part", 6));
    refs.push(base_ref("part", 7));
    refs.push(base_ref("part", 8));
    refs.push(base_ref("lineitem", 0));
    refs.push(base_ref("lineitem", 1));
    refs.push(base_ref("lineitem", 2));
    refs.push(base_ref("lineitem", 3));
    refs.push(base_ref("lineitem", 4));
    refs.push(base_ref("lineitem", 5));
    refs.push(base_ref("lineitem", 6));
    refs.push(base_ref("lineitem", 7));
    refs.push(base_ref("lineitem", 8));
    refs.push(base_ref("lineitem", 9));
    refs.push(base_ref("lineitem", 10));
    refs.push(base_ref("lineitem", 11));
    refs.push(base_ref("lineitem", 12));
    refs.push(base_ref("lineitem", 13));
    refs.push(base_ref("lineitem", 14));
    refs.push(base_ref("lineitem", 15));
    refs.push(base_ref("supplier", 0));
    refs.push(base_ref("supplier", 1));
    refs.push(base_ref("supplier", 2));
    refs.push(base_ref("supplier", 3));
    refs.push(base_ref("supplier", 4));
    refs.push(base_ref("supplier", 5));
    refs.push(base_ref("supplier", 6));
    proof {
        assert(attribute_views(attributes@) =~= q9_group_893().schema);
        assert(attr_ref_views(refs@) =~= q9_group_893().refs);
    }
    let mut predicates: Vec<EqPredicate> = Vec::new();
    predicates.push(eq_predicate("part", 0, "lineitem", 1));
    predicates.push(eq_predicate("lineitem", 2, "supplier", 0));
    assert(eq_predicate_views(predicates@) =~= q9_group_893_predicates());
    group_info(Schema { attributes }, refs, Some(correlation_of(predicates)))
}

/// The model of group 38 of the memo of TPC-H query 9.
pub open spec fn q9_group_38() -> MemoGroupView {
    MemoGroupView {
        schema: seq![
            ("ps_partkey"@, ConstantType::Int32, false),
            ("ps_suppkey"@, ConstantType::Int32, false),
            ("ps_availqty"@, ConstantType::Int32, false),
            ("ps_supplycost"@, ConstantType::Decimal, false),
            ("ps_comment"@, ConstantType::Utf8String, false),
        ],
        refs: seq![
            Some(("partsupp"@, 0usize)),
            Some(("partsupp"@, 1usize)),
            Some(("partsupp"@, 2usize)),
            Some(("partsupp"@, 3usize)),
            Some(("partsupp"@, 4usize)),
        ],
        correlation: None,
    }
}

/// Group 38 of the memo of TPC-H query 9.
fn q9_memo_group_38() -> (res: MemoGroupInfo)
    ensures
        res.wf(),
        res@ == q9_group_38(),
{
    let mut attributes: Vec<Attribute> = Vec::new();
    attributes.push(attribute("ps_partkey", ConstantType::Int32, false));
    attributes.push(attribute("ps_suppkey", ConstantType::Int32, false));
    attributes.push(attribute("ps_availqty", ConstantType::Int32, false));
    attributes.push(attribute("ps_supplycost", ConstantType::Decimal, false));
    attributes.push(attribute("ps_comment", ConstantType::Utf8String, false));
    let mut refs: Vec<AttrRef> = Vec::new();
    refs.push(base_ref("partsupp", 0));
    refs.push(base_ref("partsupp", 1));
    refs.push(base_ref("partsupp", 2));
    refs.push(base_ref("partsupp", 3));
    refs.push(base_ref("partsupp", 4));
    proof {
        assert(attribute_views(attributes@) =~= q9_group_38().schema);
        assert(attr_ref_views(refs@) =~= q9_group_38().refs);
    }
    group_info(Schema { attributes }, refs, None)
}

/// The model of group 41 of the memo of TPC-H query 9.
pub open spec fn q9_group_41() -> MemoGroupView {
    MemoGroupView {
        schema: seq![
            ("unnamed"@, ConstantType::UInt64, true),
            ("unnamed"@, ConstantType::UInt64, true),
            ("unnamed"@, ConstantType::UInt64, true),
        ],
        refs: seq![
            Some(("partsupp"@, 0usize)),
            Some(("partsupp"@, 1usize)),
            Some(("partsupp"@, 3usize)),
        ],
        correlation: None,
    }
}

/// Group 41 of the memo of TPC-H query 9.
fn q9_memo_group_41() -> (res: MemoGroupInfo)
    ensures
        res.wf(),
        res@ == q9_group_41(),
{
    let mut attributes: Vec<Attribute> = Vec::new();
    attributes.push(attribute("unnamed", ConstantType::UInt64, true));
    attributes.push(attribute("unnamed", ConstantType::UInt64, true));
    attributes.push(attribute("unnamed", ConstantType::UInt64, true));
    let mut refs: Vec<AttrRef> = Vec::new();
    refs.push(base_ref("partsupp", 0));
    refs.push(base_ref("partsupp", 1));
    refs.push(base_ref("partsupp", 3));
    proof {
        assert(attribute_views(attributes@) =~= q9_group_41().schema);
        assert(attr_ref_views(refs@) =~= q9_group_41().refs);
    }
    group_info(Schema { attributes }, refs, None)
}

/// The equality predicates of group 11371 of the memo of TPC-H query 9, in the order in
/// which they are added to its correlation.
pub open spec fn q9_group_11371_predicates() -> Seq<EqKey> {
    seq![
        (("part"@, 0usize), ("lineitem"@, 1usize)),
        (("lineitem"@, 2usize), ("supplier"@, 0usize)),
        (("lineitem"@, 1usize), ("partsupp"@, 0usize)),
        (("lineitem"@, 2usize), ("partsupp"@, 1usize)),
    ]
}

/// The model of group 11371 of the memo of TPC-H query 9.
pub open spec fn q9_group_11371() -> MemoGroupView {
    MemoGroupView {
        schema: seq![
            ("p_partkey"@, ConstantType::Int32, false),
            ("p_name"@, ConstantType::Utf8String, false),
            ("p_mfgr"@, ConstantType::Utf8String, false),
            ("p_brand"@, ConstantType::Utf8String, false),
            ("p_type"@, ConstantType::Utf8String, false),
            ("p_size"@, ConstantType::Int32, false),
            ("p_container"@, ConstantType::Utf8String, false),
            ("p_retailprice"@, ConstantType::Decimal, false),
            ("p_comment"@, ConstantType::Utf8String, false),
            ("l_orderkey"@, ConstantType::Int32, false),
            ("l_partkey"@, ConstantType::Int32, false),
            ("l_suppkey"@, ConstantType::Int32, false),
            ("l_linenumber"@, ConstantType::Int32, false),
            ("l_quantity"@, ConstantType::Decimal, false),
            ("l_extendedprice"@, ConstantType::Decimal, false),
            ("l_discount"@, ConstantType::Decimal, false),
            ("l_tax"@, ConstantType::Decimal, false),
            ("l_returnflag"@, ConstantType::Utf8String, false),
            ("l_linestatus"@, ConstantType::Utf8String, false),
            ("l_shipdate"@, ConstantType::Date, false),
            ("l_commitdate"@, ConstantType::Date, false),
            ("l_receiptdate"@, ConstantType::Date, false),
            ("l_shipinstruct"@, ConstantType::Utf8String, false),
            ("l_shipmode"@, ConstantType::Utf8String, false),
            ("l_comment"@, ConstantType::Utf8String, false),
            ("s_suppkey"@, ConstantType::Int32, false),
            ("s_name"@, ConstantType::Utf8String, false),
            ("s_address"@, ConstantType::Utf8String, false),
            ("s_nationkey"@, ConstantType::Int32, false),
            ("s_phone"@, ConstantType::Utf8String, false),
            ("s_acctbal"@, ConstantType::Decimal, false),
            ("s_comment"@, ConstantType::Utf8String, false),
            ("unnamed"@, ConstantType::UInt64, true),
            ("unnamed"@, ConstantType::UInt64, true),
            ("unnamed"@, ConstantType::UInt64, true),
        ],
        refs: seq![
            Some(("part"@, 0usize)),
            Some(("part"@, 1usize)),
            Some(("part"@, 2usize)),
            Some(("part"@, 3usize)),
            Some(("part"@, 4usize)),
            Some(("part"@, 5usize)),
            Some(("part"@, 6usize)),
            Some(("part"@, 7usize)),
            Some(("part"@, 8usize)),
            Some(("lineitem"@, 0usize)),
            Some(("lineitem"@, 1usize)),
            Some(("lineitem"@, 2usize)),
            Some(("lineitem"@, 3usize)),
            Some(("lineitem"@, 4usize)),
            Some(("lineitem"@, 5usize)),
            Some(("lineitem"@, 6usize)),
            Some(("lineitem"@, 7usize)),
            Some(("lineitem"@, 8usize)),
            Some(("lineitem"@, 9usize)),
            Some(("lineitem"@, 10usize)),
            Some(("lineitem"@, 11usize)),
            Some(("lineitem"@, 12usize)),
            Some(("lineitem"@, 13usize)),
            Some(("lineitem"@, 14usize)),
            Some(("lineitem"@, 15usize)),
            Some(("supplier"@, 0usize)),
            Some(("supplier"@, 1usize)),
            Some(("supplier"@, 2usize)),
            Some(("supplier"@, 3usize)),
            Some(("supplier"@, 4usize)),
            Some(("supplier"@, 5usize)),
            Some(("supplier"@, 6usize)),
            Some(("partsupp"@, 0usize)),
            Some(("partsupp"@, 1usize)),
            Some(("partsupp"@, 3usize)),
        ],
        correlation: Some(replay(q9_group_11371_predicates())),
    }
}

/// Group 11371 of the memo of TPC-H query 9.
fn q9_memo_group_11371() -> (res: MemoGroupInfo)
    ensures
        res.wf(),
        res@ == q9_group_11371(),
{
    let mut attributes: Vec<Attribute> = Vec::new();
    attributes.push(attribute("p_partkey", ConstantType::Int32, false));
    attributes.push(attribute("p_name", ConstantType::Utf8String, false));
    attributes.push(attribute("p_mfgr", ConstantType::Utf8String, false));
    attributes.push(attribute("p_brand", ConstantType::Utf8String, false));
    attributes.push(attribute("p_type", ConstantType::Utf8String, false));
    attributes.push(attribute("p_size", ConstantType::Int32, false));
    attributes.push(attribute("p_container", ConstantType::Utf8String, false));
    attributes.push(attribute("p_retailprice", ConstantType::Decimal, false));
    attributes.push(attribute("p_comment", ConstantType::Utf8String, false));
    attributes.push(attribute("l_orderkey", ConstantType::Int32, false));
    attributes.push(attribute("l_partkey", ConstantType::Int32, false));
    attributes.push(attribute("l_suppkey", ConstantType::Int32, false));
    attributes.push(attribute("l_linenumber", ConstantType::Int32, false));
    attributes.push(attribute("l_quantity", ConstantType::Decimal, false));
    attributes.push(attribute("l_extendedprice", ConstantType::Decimal, false));
    attributes.push(attribute("l_discount", ConstantType::Decimal, false));
    attributes.push(attribute("l_tax", ConstantType::Decimal, false));
    attributes.push(attribute("l_returnflag", ConstantType::Utf8String, false));
    attributes.push(attribute("l_linestatus", ConstantType::Utf8String, false));
    attributes.push(attribute("l_shipdate", ConstantType::Date, false));
    attributes.push(attribute("l_commitdate", ConstantType::Date, false));
    attributes.push(attribute("l_receiptdate", ConstantType::Date, false));
    attributes.push(attribute("l_shipinstruct", ConstantType::Utf8String, false));
    attributes.push(attribute("l_shipmode", ConstantType::Utf8String, false));
    attributes.push(attribute("l_comment", ConstantType::Utf8String, false));
    attributes.push(attribute("s_suppkey", ConstantType::Int32, false));
    attributes.push(attribute("s_name", ConstantType::Utf8String, false));
    attributes.push(attribute("s_address", ConstantType::Utf8String, false));
    attributes.push(attribute("s_nationkey", ConstantType::Int32, false));
    attributes.push(attribute("s_phone", ConstantType::Utf8String, false));
    attributes.push(attribute("s_acctbal", ConstantType::Decimal, false));
    attributes.push(attribute("s_comment", ConstantType::Utf8String, false));
    attributes.push(attribute("unnamed", ConstantType::UInt64, true));
    attributes.push(attribute("unnamed", ConstantType::UInt64, true));
    attributes.push(attribute("unnamed", ConstantType::UInt64, true));
    let mut refs: Vec<AttrRef> = Vec::new();
    refs.push(base_ref("part", 0));
    refs.push(base_ref("part", 1));
    refs.push(base_ref("part", 2));
    refs.push(base_ref("part", 3));
    refs.push(base_ref("part", 4));
    refs.push(base_ref("part", 5));
    refs.push(base_ref("part", 6));
    refs.push(base_ref("part", 7));
    refs.push(base_ref("part", 8));
    refs.push(base_ref("lineitem", 0));
    refs.push(base_ref("lineitem", 1));
    refs.push(base_ref("lineitem", 2));
    refs.push(base_ref("lineitem", 3));
    refs.push(base_ref("lineitem", 4));
    refs.push(base_ref("lineitem", 5));
    refs.push(base_ref("lineitem", 6));
    refs.push(base_ref("lineitem", 7));
    refs.push(base_ref("lineitem", 8));
    refs.push(base_ref("lineitem", 9));
    refs.push(base_ref("lineitem", 10));
    refs.push(base_ref("lineitem", 11));
    refs.push(base_ref("lineitem", 12));
    refs.push(base_ref("lineitem", 13));
    refs.push(base_ref("lineitem", 14));
    refs.push(base_ref("lineitem", 15));
    refs.push(base_ref("supplier", 0));
    refs.push(base_ref("supplier", 1));
    refs.push(base_ref("supplier", 2));
    refs.push(base_ref("supplier", 3));
    refs.push(base_ref("supplier", 4));
    refs.push(base_ref("supplier", 5));
    refs.push(base_ref("supplier", 6));
    refs.push(base_ref("partsupp", 0));
    refs.push(base_ref("partsupp", 1));
    refs.push(base_ref("partsupp", 3));
    proof {
        assert(attribute_views(attributes@) =~= q9_group_11371().schema);
        assert(attr_ref_views(refs@) =~= q9_group_11371().refs);
    }
    let mut predicates: Vec<EqPredicate> = Vec::new();
    predicates.push(eq_predicate("part", 0, "lineitem", 1));
    predicates.push(eq_predicate("lineitem", 2, "supplier", 0));
    predicates.push(eq_predicate("lineitem", 1, "partsupp", 0));
    predicates.push(eq_predicate("lineitem", 2, "partsupp", 1));
    assert(eq_predicate_views(predicates@) =~= q9_group_11371_predicates());
    group_info(Schema { attributes }, refs, Some(correlation_of(predicates)))
}

/// The model of group 50 of the memo of TPC-H query 9.
pub open spec fn q9_group_50() -> MemoGroupView {
    MemoGroupView {
        schema: seq![
            ("o_orderkey"@, ConstantType::Int32, false),
            ("o_custkey"@, ConstantType::Int32, false),
            ("o_orderstatus"@, ConstantType::Utf8String, false),
            ("o_totalprice"@, ConstantType::Decimal, false),
            ("o_orderdate"@, ConstantType::Date, false),
            ("o_orderpriority"@, ConstantType::Utf8String, false),
            ("o_clerk"@, ConstantType::Utf8String, false),
            ("o_shippriority"@, ConstantType::Int32, false),
            ("o_comment"@, ConstantType::Utf8String, false),
        ],
        refs: seq![
            Some(("orders"@, 0usize)),
            Some(("orders"@, 1usize)),
            Some(("orders"@, 2usize)),
            Some(("orders"@, 3usize)),
            Some(("orders"@, 4usize)),
            Some(("orders"@, 5usize)),
            Some(("orders"@, 6usize)),
            Some(("orders"@, 7usize)),
            Some(("orders"@, 8usize)),
        ],
        correlation: None,
    }
}

/// Group 50 of the memo of TPC-H query 9.
fn q9_memo_group_50() -> (res: MemoGroupInfo)
    ensures
        res.wf(),
        res@ == q9_group_50(),
{
    let mut attributes: Vec<Attribute> = Vec::new();
    attributes.push(attribute("o_orderkey", ConstantType::Int32, false));
    attributes.push(attribute("o_custkey", ConstantType::Int32, false));
    attributes.push(attribute("o_orderstatus", ConstantType::Utf8String, false));
    attributes.push(attribute("o_totalprice", ConstantType::Decimal, false));
    attributes.push(attribute("o_orderdate", ConstantType::Date, false));
    attributes.push(attribute("o_orderpriority", ConstantType::Utf8String, false));
    attributes.push(attribute("o_clerk", ConstantType::Utf8String, false));
    attributes.push(attribute("o_shippriority", ConstantType::Int32, false));
    attributes.push(attribute("o_comment", ConstantType::Utf8String, false));
    let mut refs: Vec<AttrRef> = Vec::new();
    refs.push(base_ref("orders", 0));
    refs.push(base_ref("orders", 1));
    refs.push(base_ref("orders", 2));
    refs.push(base_ref("orders", 3));
    refs.push(base_ref("orders", 4));
    refs.push(base_ref("orders", 5));
    refs.push(base_ref("orders", 6));
    refs.push(base_ref("orders", 7));
    refs.push(base_ref("orders", 8));
    proof {
        assert(attribute_views(attributes@) =~= q9_group_50().schema);
        assert(attr_ref_views(refs@) =~= q9_group_50().refs);
    }
    group_info(Schema { attributes }, refs, None)
}

/// The model of group 53 of the memo of TPC-H query 9.
pub open spec fn q9_group_53() -> MemoGroupView {
    MemoGroupView {
        schema: seq![
            ("unnamed"@, ConstantType::UInt64, true),
            ("unnamed"@, ConstantType::UInt64, true),
        ],
        refs: seq![
            Some(("orders"@, 0usize)),
            Some(("orders"@, 4usize)),
        ],
        correlation: None,
    }
}

/// Group 53 of the memo of TPC-H query 9.
fn q9_memo_group_53() -> (res: MemoGroupInfo)
    ensures
        res.wf(),
        res@ == q9_group_53(),
{
    let mut attributes: Vec<Attribute> = Vec::new();
    attributes.push(attribute("unnamed", ConstantType::UInt64, true));
    attributes.push(attribute("unnamed", ConstantType::UInt64, true));
    let mut refs: Vec<AttrRef> = Vec::new();
    refs.push(base_ref("orders", 0));
    refs.push(base_ref("orders", 4));
    proof {
        assert(attribute_views(attributes@) =~= q9_group_53().schema);
        assert(attr_ref_views(refs@) =~= q9_group_53().refs);
    }
    group_info(Schema { attributes }, refs, None)
}

/// The equality predicates of group 11775 of the memo of TPC-H query 9, in the order in
/// which they are added to its correlation.
pub open spec fn q9_group_11775_predicates() -> Seq<EqKey> {
    seq![
        (("part"@, 0usize), ("lineitem"@, 1usize)),
        (("lineitem"@, 2usize), ("supplier"@, 0usize)),
        (("lineitem"@, 1usize), ("partsupp"@, 0usize)),
        (("lineitem"@, 0usize), ("orders"@, 0usize)),
        (("lineitem"@, 2usize), ("partsupp"@, 1usize)),
    ]
}

/// The model of group 11775 of the memo of TPC-H query 9.
pub open spec fn q9_group_11775() -> MemoGroupView {
    MemoGroupView {
        schema: seq![
            ("p_partkey"@, ConstantType::Int32, false),
            ("p_name"@, ConstantType::Utf8String, false),
            ("p_mfgr"@, ConstantType::Utf8String, false),
            ("p_brand"@, ConstantType::Utf8String, false),
            ("p_type"@, ConstantType::Utf8String, false),
            ("p_size"@, ConstantType::Int32, false),
            ("p_container"@, ConstantType::Utf8String, false),
            ("p_retailprice"@, ConstantType::Decimal, false),
            ("p_comment"@, ConstantType::Utf8String, false),
            ("l_orderkey"@, ConstantType::Int32, false),
            ("l_partkey"@, ConstantType::Int32, false),
            ("l_suppkey"@, ConstantType::Int32, false),
            ("l_linenumber"@, ConstantType::Int32, false),
            ("l_quantity"@, ConstantType::Decimal, false),
            ("l_extendedprice"@, ConstantType::Decimal, false),
            ("l_discount"@, ConstantType::Decimal, false),
            ("l_tax"@, ConstantType::Decimal, false),
            ("l_returnflag"@, ConstantType::Utf8String, false),
            ("l_linestatus"@, ConstantType::Utf8String, false),
            ("l_shipdate"@, ConstantType::Date, false),
            ("l_commitdate"@, ConstantType::Date, false),
            ("l_receiptdate"@, ConstantType::Date, false),
            ("l_shipinstruct"@, ConstantType::Utf8String, false),
            ("l_shipmode"@, ConstantType::Utf8String, false),
            ("l_comment"@, ConstantType::Utf8String, false),
            ("s_suppkey"@, ConstantType::Int32, false),
            ("s_name"@, ConstantType::Utf8String, false),
            ("s_address"@, ConstantType::Utf8String, false),
            ("s_nationkey"@, ConstantType::Int32, false),
            ("s_phone"@, ConstantType::Utf8String, false),
            ("s_acctbal"@, ConstantType::Decimal, false),
            ("s_comment"@, ConstantType::Utf8String, false),
            ("unnamed"@, ConstantType::UInt64, true),
            ("unnamed"@, ConstantType::UInt64, true),
            ("unnamed"@, ConstantType::UInt64, true),
            ("unnamed"@, ConstantType::UInt64, true),
            ("unnamed"@, ConstantType::UInt64, true),
        ],
        refs: seq![
            Some(("part"@, 0usize)),
            Some(("part"@, 1usize)),
            Some(("part"@, 2usize)),
            Some(("part"@, 3usize)),
            Some(("part"@, 4usize)),
            Some(("part"@, 5usize)),
            Some(("part"@, 6usize)),
            Some(("part"@, 7usize)),
            Some(("part"@, 8usize)),
            Some(("lineitem"@, 0usize)),
            Some(("lineitem"@, 1usize)),
            Some(("lineitem"@, 2usize)),
            Some(("lineitem"@, 3usize)),
            Some(("lineitem"@, 4usize)),
            Some(("lineitem"@, 5usize)),
            Some(("lineitem"@, 6usize)),
            Some(("lineitem"@, 7usize)),
            Some(("lineitem"@, 8usize)),
            Some(("lineitem"@, 9usize)),
            Some(("lineitem"@, 10usize)),
            Some(("lineitem"@, 11usize)),
            Some(("lineitem"@, 12usize)),
            Some(("lineitem"@, 13usize)),
            Some(("lineitem"@, 14usize)),
            Some(("lineitem"@, 15usize)),
            Some(("supplier"@, 0usize)),
            Some(("supplier"@, 1usize)),
            Some(("supplier"@, 2usize)),
            Some(("supplier"@, 3usize)),
            Some(("supplier"@, 4usize)),
            Some(("supplier"@, 5usize)),
            Some(("supplier"@, 6usize)),
            Some(("partsupp"@, 0usize)),
            Some(("partsupp"@, 1usize)),
            Some(("partsupp"@, 3usize)),
            Some(("orders"@, 0usize)),
            Some(("orders"@, 4usize)),
        ],
        correlation: Some(replay(q9_group_11775_predicates())),
    }
}

/// Group 11775 of the memo of TPC-H query 9.
fn q9_memo_group_11775() -> (res: MemoGroupInfo)
    ensures
        res.wf(),
        res@ == q9_group_11775(),
{
    let mut attributes: Vec<Attribute> = Vec::new();
    attributes.push(attribute("p_partkey", ConstantType::Int32, false));
    attributes.push(attribute("p_name", ConstantType::Utf8String, false));
    attributes.push(attribute("p_mfgr", ConstantType::Utf8String, false));
    attributes.push(attribute("p_brand", ConstantType::Utf8String, false));
    attributes.push(attribute("p_type", ConstantType::Utf8String, false));
    attributes.push(attribute("p_size", ConstantType::Int32, false));
    attributes.push(attribute("p_container", ConstantType::Utf8String, false));
    attributes.push(attribute("p_retailprice", ConstantType::Decimal, false));
    attributes.push(attribute("p_comment", ConstantType::Utf8String, false));
    attributes.push(attribute("l_orderkey", ConstantType::Int32, false));
    attributes.push(attribute("l_partkey", ConstantType::Int32, false));
    attributes.push(attribute("l_suppkey", ConstantType::Int32, false));
    attributes.push(attribute("l_linenumber", ConstantType::Int32, false));
    attributes.push(attribute("l_quantity", ConstantType::Decimal, false));
    attributes.push(attribute("l_extendedprice", ConstantType::Decimal, false));
    attributes.push(attribute("l_discount", ConstantType::Decimal, false));
    attributes.push(attribute("l_tax", ConstantType::Decimal, false));
    attributes.push(attribute("l_returnflag", ConstantType::Utf8String, false));
    attributes.push(attribute("l_linestatus", ConstantType::Utf8String, false));
    attributes.push(attribute("l_shipdate", ConstantType::Date, false));
    attributes.push(attribute("l_commitdate", ConstantType::Date, false));
    attributes.push(attribute("l_receiptdate", ConstantType::Date, false));
    attributes.push(attribute("l_shipinstruct", ConstantType::Utf8String, false));
    attributes.push(attribute("l_shipmode", ConstantType::Utf8String, false));
    attributes.push(attribute("l_comment", ConstantType::Utf8String, false));
    attributes.push(attribute("s_suppkey", ConstantType::Int32, false));
    attributes.push(attribute("s_name", ConstantType::Utf8String, false));
    attributes.push(attribute("s_address", ConstantType::Utf8String, false));
    attributes.push(attribute("s_nationkey", ConstantType::Int32, false));
    attributes.push(attribute("s_phone", ConstantType::Utf8String, false));
    attributes.push(attribute("s_acctbal", ConstantType::Decimal, false));
    attributes.push(attribute("s_comment", ConstantType::Utf8String, false));
    attributes.push(attribute("unnamed", ConstantType::UInt64, true));
    attributes.push(attribute("unnamed", ConstantType::UInt64, true));
    attributes.push(attribute("unnamed", ConstantType::UInt64, true));
    attributes.push(attribute("unnamed", ConstantType::UInt64, true));
    attributes.push(attribute("unnamed", ConstantType::UInt64, true));
    let mut refs: Vec<AttrRef> = Vec::new();
    refs.push(base_ref("part", 0));
    refs.push(base_ref("part", 1));
    refs.push(base_ref("part", 2));
    refs.push(base_ref("part", 3));
    refs.push(base_ref("part", 4));
    refs.push(base_ref("part", 5));
    refs.push(base_ref("part", 6));
    refs.push(base_ref("part", 7));
    refs.push(base_ref("part", 8));
    refs.push(base_ref("lineitem", 0));
    refs.push(base_ref("lineitem", 1));
    refs.push(base_ref("lineitem", 2));
    refs.push(base_ref("lineitem", 3));
    refs.push(base_ref("lineitem", 4));
    refs.push(base_ref("lineitem", 5));
    refs.push(base_ref("lineitem", 6));
    refs.push(base_ref("lineitem", 7));
    refs.push(base_ref("lineitem", 8));
    refs.push(base_ref("lineitem", 9));
    refs.push(base_ref("lineitem", 10));
    refs.push(base_ref("lineitem", 11));
    refs.push(base_ref("lineitem", 12));
    refs.push(base_ref("lineitem", 13));
    refs.push(base_ref("lineitem", 14));
    refs.push(base_ref("lineitem", 15));
    refs.push(base_ref("supplier", 0));
    refs.push(base_ref("supplier", 1));
    refs.push(base_ref("supplier", 2));
    refs.push(base_ref("supplier", 3));
    refs.push(base_ref("supplier", 4));
    refs.push(base_ref("supplier", 5));
    refs.push(base_ref("supplier", 6));
    refs.push(base_ref("partsupp", 0));
    refs.push(base_ref("partsupp", 1));
    refs.push(base_ref("partsupp", 3));
    refs.push(base_ref("orders", 0));
    refs.push(base_ref("orders", 4));
    proof {
        assert(attribute_views(attributes@) =~= q9_group_11775().schema);
        assert(attr_ref_views(refs@) =~= q9_group_11775().refs);
    }
    let mut predicates: Vec<EqPredicate> = Vec::new();
    predicates.push(eq_predicate("part", 0, "lineitem", 1));
    predicates.push(eq_predicate("lineitem", 2, "supplier", 0));
    predicates.push(eq_predicate("lineitem", 1, "partsupp", 0));
    predicates.push(eq_predicate("lineitem", 0, "orders", 0));
    predicates.push(eq_predicate("lineitem", 2, "partsupp", 1));
    assert(eq_predicate_views(predicates@) =~= q9_group_11775_predicates());
    group_info(Schema { attributes }, refs, Some(correlation_of(predicates)))
}

/// The equality predicates of group 59 of the memo of TPC-H query 9, in the order in
/// which they are added to its correlation.
pub open spec fn q9_group_59_predicates() -> Seq<EqKey> {
    seq![
        (("lineitem"@, 2usize), ("partsupp"@, 1usize)),
        (("lineitem"@, 0usize), ("orders"@, 0usize)),
        (("lineitem"@, 1usize), ("partsupp"@, 0usize)),
        (("part"@, 0usize), ("lineitem"@, 1usize)),
        (("lineitem"@, 2usize), ("supplier"@, 0usize)),
    ]
}

/// The model of group 59 of the memo of TPC-H query 9.
pub open spec fn q9_group_59() -> MemoGroupView {
    MemoGroupView {
        schema: seq![
            ("unnamed"@, ConstantType::UInt64, true),
            ("unnamed"@, ConstantType::UInt64, true),
            ("unnamed"@, ConstantType::UInt64, true),
            ("unnamed"@, ConstantType::UInt64, true),
            ("unnamed"@, ConstantType::UInt64, true),
            ("unnamed"@, ConstantType::UInt64, true),
        ],
        refs: seq![
            Some(("lineitem"@, 4usize)),
            Some(("lineitem"@, 5usize)),
            Some(("lineitem"@, 6usize)),
            Some(("supplier"@, 3usize)),
            Some(("partsupp"@, 3usize)),
            Some(("orders"@, 4usize)),
        ],
        correlation: Some(replay(q9_group_59_predicates())),
    }
}

/// Group 59 of the memo of TPC-H query 9.
fn q9_memo_group_59() -> (res: MemoGroupInfo)
    ensures
        res.wf(),
        res@ == q9_group_59(),
{
    let mut attributes: Vec<Attribute> = Vec::new();
    attributes.push(attribute("unnamed", ConstantType::UInt64, true));
    attributes.push(attribute("unnamed", ConstantType::UInt64, true));
    attributes.push(attribute("unnamed", ConstantType::UInt64, true));
    attributes.push(attribute("unnamed", ConstantType::UInt64, true));
    attributes.push(attribute("unnamed", ConstantType::UInt64, true));
    attributes.push(attribute("unnamed", ConstantType::UInt64, true));
    let mut refs: Vec<AttrRef> = Vec::new();
    refs.push(base_ref("lineitem", 4));
    refs.push(base_ref("lineitem", 5));
    refs.push(base_ref("lineitem", 6));
    refs.push(base_ref("supplier", 3));
    refs.push(base_ref("partsupp", 3));
    refs.push(base_ref("orders", 4));
    proof {
        assert(attribute_views(attributes@) =~= q9_group_59().schema);
        assert(attr_ref_views(refs@) =~= q9_group_59().refs);
    }
    let mut predicates: Vec<EqPredicate> = Vec::new();
    predicates.push(eq_predicate("lineitem", 2, "partsupp", 1));
    predicates.push(eq_predicate("lineitem", 0, "orders", 0));
    predicates.push(eq_predicate("lineitem", 1, "partsupp", 0));
    predicates.push(eq_predicate("part", 0, "lineitem", 1));
    predicates.push(eq_predicate("lineitem", 2, "supplier", 0));
    assert(eq_predicate_views(predicates@) =~= q9_group_59_predicates());
    group_info(Schema { attributes }, refs, Some(correlation_of(predicates)))
}

/// The model of group 62 of the memo of TPC-H query 9.
pub open spec fn q9_group_62() -> MemoGroupView {
    MemoGroupView {
        schema: seq![
            ("n_nationkey"@, ConstantType::Int32, false),
            ("n_name"@, ConstantType::Utf8String, false),
            ("n_regionkey"@, ConstantType::Int32, false),
            ("n_comment"@, ConstantType::Utf8String, true),
        ],
        refs: seq![
            Some(("nation"@, 0usize)),
            Some(("nation"@, 1usize)),
            Some(("nation"@, 2usize)),
            Some(("nation"@, 3usize)),
        ],
        correlation: None,
    }
}

/// Group 62 of the memo of TPC-H query 9.
fn q9_memo_group_62() -> (res: MemoGroupInfo)
    ensures
        res.wf(),
        res@ == q9_group_62(),
{
    let mut attributes: Vec<Attribute> = Vec::new();
    attributes.push(attribute("n_nationkey", ConstantType::Int32, false));
    attributes.push(attribute("n_name", ConstantType::Utf8String, false));
    attributes.push(attribute("n_regionkey", ConstantType::Int32, false));
    attributes.push(attribute("n_comment", ConstantType::Utf8String, true));
    let mut refs: Vec<AttrRef> = Vec::new();
    refs.push(base_ref("nation", 0));
    refs.push(base_ref("nation", 1));
    refs.push(base_ref("nation", 2));
    refs.push(base_ref("nation", 3));
    proof {
        assert(attribute_views(attributes@) =~= q9_group_62().schema);
        assert(attr_ref_views(refs@) =~= q9_group_62().refs);
    }
    group_info(Schema { attributes }, refs, None)
}

/// The model of group 65 of the memo of TPC-H query 9.
pub open spec fn q9_group_65() -> MemoGroupView {
    MemoGroupView {
        schema: seq![
            ("unnamed"@, ConstantType::UInt64, true),
            ("unnamed"@, ConstantType::UInt64, true),
        ],
        refs: seq![
            Some(("nation"@, 0usize)),
            Some(("nation"@, 1usize)),
        ],
        correlation: None,
    }
}

/// Group 65 of the memo of TPC-H query 9.
fn q9_memo_group_65() -> (res: MemoGroupInfo)
    ensures
        res.wf(),
        res@ == q9_group_65(),
{
    let mut attributes: Vec<Attribute> = Vec::new();
    attributes.push(attribute("unnamed", ConstantType::UInt64, true));
    attributes.push(attribute("unnamed", ConstantType::UInt64, true));
    let mut refs: Vec<AttrRef> = Vec::new();
    refs.push(base_ref("nation", 0));
    refs.push(base_ref("nation", 1));
    proof {
        assert(attribute_views(attributes@) =~= q9_group_65().schema);
        assert(attr_ref_views(refs@) =~= q9_group_65().refs);
    }
    group_info(Schema { attributes }, refs, None)
}

/// The equality predicates of group 68 of the memo of TPC-H query 9, in the order in
/// which they are added to its correlation.
pub open spec fn q9_group_68_predicates() -> Seq<EqKey> {
    seq![
        (("lineitem"@, 2usize), ("partsupp"@, 1usize)),
        (("lineitem"@, 0usize), ("orders"@, 0usize)),
        (("lineitem"@, 1usize), ("partsupp"@, 0usize)),
        (("part"@, 0usize), ("lineitem"@, 1usize)),
        (("lineitem"@, 2usize), ("supplier"@, 0usize)),
        (("supplier"@, 3usize), ("nation"@, 0usize)),
    ]
}

/// The model of group 68 of the memo of TPC-H query 9.
pub open spec fn q9_group_68() -> MemoGroupView {
    MemoGroupView {
        schema: seq![
            ("unnamed"@, ConstantType::UInt64, true),
            ("unnamed"@, ConstantType::UInt64, true),
            ("unnamed"@, ConstantType::UInt64, true),
            ("unnamed"@, ConstantType::UInt64, true),
            ("unnamed"@, ConstantType::UInt64, true),
            ("unnamed"@, ConstantType::UInt64, true),
            ("unnamed"@, ConstantType::UInt64, true),
            ("unnamed"@, ConstantType::UInt64, true),
        ],
        refs: seq![
            Some(("lineitem"@, 4usize)),
            Some(("lineitem"@, 5usize)),
            Some(("lineitem"@, 6usize)),
            Some(("supplier"@, 3usize)),
            Some(("partsupp"@, 3usize)),
            Some(("orders"@, 4usize)),
            Some(("nation"@, 0usize)),
            Some(("nation"@, 1usize)),
        ],
        correlation: Some(replay(q9_group_68_predicates())),
    }
}

/// Group 68 of the memo of TPC-H query 9.
fn q9_memo_group_68() -> (res: MemoGroupInfo)
    ensures
        res.wf(),
        res@ == q9_group_68(),
{
    let mut attributes: Vec<Attribute> = Vec::new();
    attributes.push(attribute("unnamed", ConstantType::UInt64, true));
    attributes.push(attribute("unnamed", ConstantType::UInt64, true));
    attributes.push(attribute("unnamed", ConstantType::UInt64, true));
    attributes.push(attribute("unnamed", ConstantType::UInt64, true));
    attributes.push(attribute("unnamed", ConstantType::UInt64, true));
    attributes.push(attribute("unnamed", ConstantType::UInt64, true));
    attributes.push(attribute("unnamed", ConstantType::UInt64, true));
    attributes.push(attribute("unnamed", ConstantType::UInt64, true));
    let mut refs: Vec<AttrRef> = Vec::new();
    refs.push(base_ref("lineitem", 4));
    refs.push(base_ref("lineitem", 5));
    refs.push(base_ref("lineitem", 6));
    refs.push(base_ref("supplier", 3));
    refs.push(base_ref("partsupp", 3));
    refs.push(base_ref("orders", 4));
    refs.push(base_ref("nation", 0));
    refs.push(base_ref("nation", 1));
    proof {
        assert(attribute_views(attributes@) =~= q9_group_68().schema);
        assert(attr_ref_views(refs@) =~= q9_group_68().refs);
    }
    let mut predicates: Vec<EqPredicate> = Vec::new();
    predicates.push(eq_predicate("lineitem", 2, "partsupp", 1));
    predicates.push(eq_predicate("lineitem", 0, "orders", 0));
    predicates.push(eq_predicate("lineitem", 1, "partsupp", 0));
    predicates.push(eq_predicate("part", 0, "lineitem", 1));
    predicates.push(eq_predicate("lineitem", 2, "supplier", 0));
    predicates.push(eq_predicate("supplier", 3, "nation", 0));
    assert(eq_predicate_views(predicates@) =~= q9_group_68_predicates());
    group_info(Schema { attributes }, refs, Some(correlation_of(predicates)))
}

/// The equality predicates of group 71 of the memo of TPC-H query 9, in the order in
/// which they are added to its correlation.
pub open spec fn q9_group_71_predicates() -> Seq<EqKey> {
    seq![
        (("lineitem"@, 2usize), ("partsupp"@, 1usize)),
        (("lineitem"@, 0usize), ("orders"@, 0usize)),
        (("lineitem"@, 1usize), ("partsupp"@, 0usize)),
        (("part"@, 0usize), ("lineitem"@, 1usize)),
        (("lineitem"@, 2usize), ("supplier"@, 0usize)),
        (("supplier"@, 3usize), ("nation"@, 0usize)),
    ]
}

/// The model of group 71 of the memo of TPC-H query 9.
pub open spec fn q9_group_71() -> MemoGroupView {
    MemoGroupView {
        schema: seq![
            ("unnamed"@, ConstantType::UInt64, true),
        ],
        refs: seq![
            Some(("nation"@, 1usize)),
            None,
            None,
        ],
        correlation: Some(replay(q9_group_71_predicates())),
    }
}

/// Group 71 of the memo of TPC-H query 9.
fn q9_memo_group_71() -> (res: MemoGroupInfo)
    ensures
        res.wf(),
        res@ == q9_group_71(),
{
    let mut attributes: Vec<Attribute> = Vec::new();
    attributes.push(attribute("unnamed", ConstantType::UInt64, true));
    let mut refs: Vec<AttrRef> = Vec::new();
    refs.push(base_ref("nation", 1));
    refs.push(AttrRef::Derived);
    refs.push(AttrRef::Derived);
    proof {
        assert(attribute_views(attributes@) =~= q9_group_71().schema);
        assert(attr_ref_views(refs@) =~= q9_group_71().refs);
    }
    let mut predicates: Vec<EqPredicate> = Vec::new();
    predicates.push(eq_predicate("lineitem", 2, "partsupp", 1));
    predicates.push(eq_predicate("lineitem", 0, "orders", 0));
    predicates.push(eq_predicate("lineitem", 1, "partsupp", 0));
    predicates.push(eq_predicate("part", 0, "lineitem", 1));
    predicates.push(eq_predicate("lineitem", 2, "supplier", 0));
    predicates.push(eq_predicate("supplier", 3, "nation", 0));
    assert(eq_predicate_views(predicates@) =~= q9_group_71_predicates());
    group_info(Schema { attributes }, refs, Some(correlation_of(predicates)))
}

/// The model of group 75 of the memo of TPC-H query 9.
pub open spec fn q9_group_75() -> MemoGroupView {
    MemoGroupView {
        schema: seq![
            ("unnamed"@, ConstantType::Binary, true),
            ("unnamed"@, ConstantType::UInt64, true),
            ("unnamed"@, ConstantType::UInt64, true),
        ],
        refs: seq![
            Some(("nation"@, 1usize)),
            None,
            None,
        ],
        correlation: None,
    }
}

/// Group 75 of the memo of TPC-H query 9.
fn q9_memo_group_75() -> (res: MemoGroupInfo)
    ensures
        res.wf(),
        res@ == q9_group_75(),
{
    let mut attributes: Vec<Attribute> = Vec::new();
    attributes.push(attribute("unnamed", ConstantType::Binary, true));
    attributes.push(attribute("unnamed", ConstantType::UInt64, true));
    attributes.push(attribute("unnamed", ConstantType::UInt64, true));
    let mut refs: Vec<AttrRef> = Vec::new();
    refs.push(base_ref("nation", 1));
    refs.push(AttrRef::Derived);
    refs.push(AttrRef::Derived);
    proof {
        assert(attribute_views(attributes@) =~= q9_group_75().schema);
        assert(attr_ref_views(refs@) =~= q9_group_75().refs);
    }
    group_info(Schema { attributes }, refs, None)
}

/// The model of group 78 of the memo of TPC-H query 9.
pub open spec fn q9_group_78() -> MemoGroupView {
    MemoGroupView {
        schema: seq![
            ("unnamed"@, ConstantType::Binary, true),
            ("unnamed"@, ConstantType::UInt64, true),
            ("unnamed"@, ConstantType::UInt64, true),
        ],
        refs: seq![
            Some(("nation"@, 1usize)),
            None,
            None,
        ],
        correlation: None,
    }
}

/// Group 78 of the memo of TPC-H query 9.
fn q9_memo_group_78() -> (res: MemoGroupInfo)
    ensures
        res.wf(),
        res@ == q9_group_78(),
{
    let mut attributes: Vec<Attribute> = Vec::new();
    attributes.push(attribute("unnamed", ConstantType::Binary, true));
    attributes.push(attribute("unnamed", ConstantType::UInt64, true));
    attributes.push(attribute("unnamed", ConstantType::UInt64, true));
    let mut refs: Vec<AttrRef> = Vec::new();
    refs.push(base_ref("nation", 1));
    refs.push(AttrRef::Derived);
    refs.push(AttrRef::Derived);
    proof {
        assert(attribute_views(attributes@) =~= q9_group_78().schema);
        assert(attr_ref_views(refs@) =~= q9_group_78().refs);
    }
    group_info(Schema { attributes }, refs, None)
}

/// The model of the memo of TPC-H query 9: its groups, each with its id, in the order in
/// which they are put into the memo.
pub open spec fn q9_memo() -> Seq<(u64, MemoGroupView)> {
    seq![
        (2u64, q9_group_2()),
        (83u64, q9_group_83()),
        (14u64, q9_group_14()),
        (139u64, q9_group_139()),
        (26u64, q9_group_26()),
        (893u64, q9_group_893()),
        (38u64, q9_group_38()),
        (41u64, q9_group_41()),
        (11371u64, q9_group_11371()),
        (50u64, q9_group_50()),
        (53u64, q9_group_53()),
        (11775u64, q9_group_11775()),
        (59u64, q9_group_59()),
        (62u64, q9_group_62()),
        (65u64, q9_group_65()),
        (68u64, q9_group_68()),
        (71u64, q9_group_71()),
        (75u64, q9_group_75()),
        (78u64, q9_group_78()),
    ]
}

/// The groups of the memo of TPC-H query 9, each with its id, in the order in which
/// they are put into the memo.
fn q9_memo_groups() -> (res: Vec<(u64, MemoGroupInfo)>)
    ensures
        memo_wf(res@),
        memo_view(res@) == q9_memo(),
        group_ids(memo_view(res@)).no_duplicates(),
{
    let mut memo: Vec<(u64, MemoGroupInfo)> = Vec::new();
    memo.push((2, q9_memo_group_2()));
    memo.push((83, q9_memo_group_83()));
    memo.push((14, q9_memo_group_14()));
    memo.push((139, q9_memo_group_139()));
    memo.push((26, q9_memo_group_26()));
    memo.push((893, q9_memo_group_893()));
    memo.push((38, q9_memo_group_38()));
    memo.push((41, q9_memo_group_41()));
    memo.push((11371, q9_memo_group_11371()));
    memo.push((50, q9_memo_group_50()));
    memo.push((53, q9_memo_group_53()));
    memo.push((11775, q9_memo_group_11775()));
    memo.push((59, q9_memo_group_59()));
    memo.push((62, q9_memo_group_62()));
    memo.push((65, q9_memo_group_65()));
    memo.push((68, q9_memo_group_68()));
    memo.push((71, q9_memo_group_71()));
    memo.push((75, q9_memo_group_75()));
    memo.push((78, q9_memo_group_78()));
    assert(memo_view(memo@) =~= q9_memo());
    assert(group_ids(q9_memo()).no_duplicates());
    memo
}

/// The memo of TPC-H query 9: each group under its id.
pub fn create_tpch_q9_memo() -> (res: HashMap<u64, MemoGroupInfo>)
    ensures
        group_map_wf(res@),
        group_map_views(res@) == memo_map_view(q9_memo()),
        res@.dom() == group_ids(q9_memo()).to_set(),
        forall|i: int|
            0 <= i < q9_memo().len() ==> group_map_views(res@)[(#[trigger] q9_memo()[i]).0]
                == q9_memo()[i].1,
        forall|i: int|
            0 <= i < q9_hash_joins().len() ==> join_recorded(
                group_map_views(res@),
                #[trigger] q9_hash_joins()[i],
            ),
        forall|i: int|
            0 <= i < q9_unary_ops().len() ==> unary_recorded(
                group_map_views(res@),
                #[trigger] q9_unary_ops()[i],
            ),
{
    let groups = q9_memo_groups();
    proof {
        lemma_memo_map_view_lookup(q9_memo());
        lemma_q9_hash_joins_recorded();
        lemma_q9_unary_ops_recorded();
    }
    memo_map(groups)
}


/// The hash joins of the plan of TPC-H query 9: for each, the group it produces, the groups
/// it joins, and the positions of its key attributes in their outputs.
pub open spec fn q9_hash_joins() -> Seq<HashJoinView> {
    seq![
        HashJoinView {
            group: 68,
            left: 59,
            right: 65,
            left_keys: seq![3int],
            right_keys: seq![0int],
        },
        HashJoinView {
            group: 11775,
            left: 11371,
            right: 53,
            left_keys: seq![9int],
            right_keys: seq![0int],
        },
        HashJoinView {
            group: 11371,
            left: 893,
            right: 41,
            left_keys: seq![11int, 10int],
            right_keys: seq![1int, 0int],
        },
        HashJoinView {
            group: 893,
            left: 139,
            right: 26,
            left_keys: seq![11int],
            right_keys: seq![0int],
        },
        HashJoinView {
            group: 139,
            left: 83,
            right: 14,
            left_keys: seq![0int],
            right_keys: seq![1int],
        },
    ]
}

/// No group id occurs twice in the memo of TPC-H query 9.
pub proof fn lemma_q9_ids_distinct()
    ensures
        group_ids(q9_memo()).no_duplicates(),
{
}

/// The memo of TPC-H query 9 agrees with the hash join that produces group 68.
proof fn lemma_q9_join_68()
    ensures
        join_recorded(memo_map_view(q9_memo()), q9_hash_joins()[0]),
{
    let memo = q9_memo();
    lemma_q9_ids_distinct();
    lemma_memo_map_view_lookup(memo);
    let m = memo_map_view(memo);
    let j = q9_hash_joins()[0];
    assert(memo[15] == (68u64, q9_group_68()));
    assert(group_ids(memo)[15] == 68u64);
    assert(m.contains_key(68u64));
    assert(memo[12] == (59u64, q9_group_59()));
    assert(group_ids(memo)[12] == 59u64);
    assert(m.contains_key(59u64));
    assert(memo[14] == (65u64, q9_group_65()));
    assert(group_ids(memo)[14] == 65u64);
    assert(m.contains_key(65u64));
    let g = q9_group_68();
    let l = q9_group_59();
    let r = q9_group_65();
    assert(m[68u64] == g && m[59u64] == l && m[65u64] == r);
    assert(g.schema =~= l.schema + r.schema);
    assert(g.refs =~= l.refs + r.refs);
    lemma_replay_records(q9_group_68_predicates());
    let pg = q9_group_68_predicates();
    assert(recorded(g) == replay(pg).preds);
    lemma_replay_records(q9_group_59_predicates());
    let pl = q9_group_59_predicates();
    assert(recorded(l) == replay(pl).preds);
    assert(recorded(r) =~= Seq::<EqKey>::empty());
    assert(join_key(l, r, j, 0) == (("supplier"@, 3usize), ("nation"@, 0usize)));
    assert forall|p: EqKey| #[trigger] recorded(l).contains(p) implies recorded(g).contains(p) by {
        let i = choose|i: int| 0 <= i < pl.len() && pl[i] == p;
        if i == 0 {
            assert(pg[0] == p);
        } else if i == 1 {
            assert(pg[1] == p);
        } else if i == 2 {
            assert(pg[2] == p);
        } else if i == 3 {
            assert(pg[3] == p);
        } else if i == 4 {
            assert(pg[4] == p);
        }
    }
    assert forall|k: int| 0 <= k < j.left_keys.len() implies recorded(g).contains(#[trigger] join_key(l, r, j, k))
        || recorded(g).contains(flipped(join_key(l, r, j, k))) by {
        if k == 0 {
            assert(pg[5] == join_key(l, r, j, 0));
        }
    }
    assert forall|p: EqKey| #[trigger] recorded(g).contains(p) implies recorded(l).contains(p)
        || recorded(r).contains(p) || is_join_key(l, r, j, p) by {
        let i = choose|i: int| 0 <= i < pg.len() && pg[i] == p;
        if i == 0 {
            assert(pl[0] == p);
        } else if i == 1 {
            assert(pl[1] == p);
        } else if i == 2 {
            assert(pl[2] == p);
        } else if i == 3 {
            assert(pl[3] == p);
        } else if i == 4 {
            assert(pl[4] == p);
        } else if i == 5 {
            assert(p == join_key(l, r, j, 0) || p == flipped(join_key(l, r, j, 0)));
        }
    }
}

/// The memo of TPC-H query 9 agrees with the hash join that produces group 11775.
proof fn lemma_q9_join_11775()
    ensures
        join_recorded(memo_map_view(q9_memo()), q9_hash_joins()[1]),
{
    let memo = q9_memo();
    lemma_q9_ids_distinct();
    lemma_memo_map_view_lookup(memo);
    let m = memo_map_view(memo);
    let j = q9_hash_joins()[1];
    assert(memo[11] == (11775u64, q9_group_11775()));
    assert(group_ids(memo)[11] == 11775u64);
    assert(m.contains_key(11775u64));
    assert(memo[8] == (11371u64, q9_group_11371()));
    assert(group_ids(memo)[8] == 11371u64);
    assert(m.contains_key(11371u64));
    assert(memo[10] == (53u64, q9_group_53()));
    assert(group_ids(memo)[10] == 53u64);
    assert(m.contains_key(53u64));
    let g = q9_group_11775();
    let l = q9_group_11371();
    let r = q9_group_53();
    assert(m[11775u64] == g && m[11371u64] == l && m[53u64] == r);
    assert(g.schema =~= l.schema + r.schema);
    assert(g.refs =~= l.refs + r.refs);
    lemma_replay_records(q9_group_11775_predicates());
    let pg = q9_group_11775_predicates();
    assert(recorded(g) == replay(pg).preds);
    lemma_replay_records(q9_group_11371_predicates());
    let pl = q9_group_11371_predicates();
    assert(recorded(l) == replay(pl).preds);
    assert(recorded(r) =~= Seq::<EqKey>::empty());
    assert(join_key(l, r, j, 0) == (("lineitem"@, 0usize), ("orders"@, 0usize)));
    assert forall|p: EqKey| #[trigger] recorded(l).contains(p) implies recorded(g).contains(p) by {
        let i = choose|i: int| 0 <= i < pl.len() && pl[i] == p;
        if i == 0 {
            assert(pg[0] == p);
        } else if i == 1 {
            assert(pg[1] == p);
        } else if i == 2 {
            assert(pg[2] == p);
        } else if i == 3 {
            assert(pg[4] == p);
        }
    }
    assert forall|k: int| 0 <= k < j.left_keys.len() implies recorded(g).contains(#[trigger] join_key(l, r, j, k))
        || recorded(g).contains(flipped(join_key(l, r, j, k))) by {
        if k == 0 {
            assert(pg[3] == join_key(l, r, j, 0));
        }
    }
    assert forall|p: EqKey| #[trigger] recorded(g).contains(p) implies recorded(l).contains(p)
        || recorded(r).contains(p) || is_join_key(l, r, j, p) by {
        let i = choose|i: int| 0 <= i < pg.len() && pg[i] == p;
        if i == 0 {
            assert(pl[0] == p);
        } else if i == 1 {
            assert(pl[1] == p);
        } else if i == 2 {
            assert(pl[2] == p);
        } else if i == 3 {
            assert(p == join_key(l, r, j, 0) || p == flipped(join_key(l, r, j, 0)));
        } else if i == 4 {
            assert(pl[3] == p);
        }
    }
}

/// The memo of TPC-H query 9 agrees with the hash join that produces group 11371.
proof fn lemma_q9_join_11371()
    ensures
        join_recorded(memo_map_view(q9_memo()), q9_hash_joins()[2]),
{
    let memo = q9_memo();
    lemma_q9_ids_distinct();
    lemma_memo_map_view_lookup(memo);
    let m = memo_map_view(memo);
    let j = q9_hash_joins()[2];
    assert(memo[8] == (11371u64, q9_group_11371()));
    assert(group_ids(memo)[8] == 11371u64);
    assert(m.contains_key(11371u64));
    assert(memo[5] == (893u64, q9_group_893()));
    assert(group_ids(memo)[5] == 893u64);
    assert(m.contains_key(893u64));
    assert(memo[7] == (41u64, q9_group_41()));
    assert(group_ids(memo)[7] == 41u64);
    assert(m.contains_key(41u64));
    let g = q9_group_11371();
    let l = q9_group_893();
    let r = q9_group_41();
    assert(m[11371u64] == g && m[893u64] == l && m[41u64] == r);
    assert(g.schema =~= l.schema + r.schema);
    assert(g.refs =~= l.refs + r.refs);
    lemma_replay_records(q9_group_11371_predicates());
    let pg = q9_group_11371_predicates();
    assert(recorded(g) == replay(pg).preds);
    lemma_replay_records(q9_group_893_predicates());
    let pl = q9_group_893_predicates();
    assert(recorded(l) == replay(pl).preds);
    assert(recorded(r) =~= Seq::<EqKey>::empty());
    assert(join_key(l, r, j, 0) == (("lineitem"@, 2usize), ("partsupp"@, 1usize)));
    assert(join_key(l, r, j, 1) == (("lineitem"@, 1usize), ("partsupp"@, 0usize)));
    assert forall|p: EqKey| #[trigger] recorded(l).contains(p) implies recorded(g).contains(p) by {
        let i = choose|i: int| 0 <= i < pl.len() && pl[i] == p;
        if i == 0 {
            assert(pg[0] == p);
        } else if i == 1 {
            assert(pg[1] == p);
        }
    }
    assert forall|k: int| 0 <= k < j.left_keys.len() implies recorded(g).contains(#[trigger] join_key(l, r, j, k))
        || recorded(g).contains(flipped(join_key(l, r, j, k))) by {
        if k == 0 {
            assert(pg[3] == join_key(l, r, j, 0));
        } else if k == 1 {
            assert(pg[2] == join_key(l, r, j, 1));
        }
    }
    assert forall|p: EqKey| #[trigger] recorded(g).contains(p) implies recorded(l).contains(p)
        || recorded(r).contains(p) || is_join_key(l, r, j, p) by {
        let i = choose|i: int| 0 <= i < pg.len() && pg[i] == p;
        if i == 0 {
            assert(pl[0] == p);
        } else if i == 1 {
            assert(pl[1] == p);
        } else if i == 2 {
            assert(p == join_key(l, r, j, 1) || p == flipped(join_key(l, r, j, 1)));
        } else if i == 3 {
            assert(p == join_key(l, r, j, 0) || p == flipped(join_key(l, r, j, 0)));
        }
    }
}

/// The memo of TPC-H query 9 agrees with the hash join that produces group 893.
proof fn lemma_q9_join_893()
    ensures
        join_recorded(memo_map_view(q9_memo()), q9_hash_joins()[3]),
{
    let memo = q9_memo();
    lemma_q9_ids_distinct();
    lemma_memo_map_view_lookup(memo);
    let m = memo_map_view(memo);
    let j = q9_hash_joins()[3];
    assert(memo[5] == (893u64, q9_group_893()));
    assert(group_ids(memo)[5] == 893u64);
    assert(m.contains_key(893u64));
    assert(memo[3] == (139u64, q9_group_139()));
    assert(group_ids(memo)[3] == 139u64);
    assert(m.contains_key(139u64));
    assert(memo[4] == (26u64, q9_group_26()));
    assert(group_ids(memo)[4] == 26u64);
    assert(m.contains_key(26u64));
    let g = q9_group_893();
    let l = q9_group_139();
    let r = q9_group_26();
    assert(m[893u64] == g && m[139u64] == l && m[26u64] == r);
    assert(g.schema =~= l.schema + r.schema);
    assert(g.refs =~= l.refs + r.refs);
    lemma_replay_records(q9_group_893_predicates());
    let pg = q9_group_893_predicates();
    assert(recorded(g) == replay(pg).preds);
    lemma_replay_records(q9_group_139_predicates());
    let pl = q9_group_139_predicates();
    assert(recorded(l) == replay(pl).preds);
    assert(recorded(r) =~= Seq::<EqKey>::empty());
    assert(join_key(l, r, j, 0) == (("lineitem"@, 2usize), ("supplier"@, 0usize)));
    assert forall|p: EqKey| #[trigger] recorded(l).contains(p) implies recorded(g).contains(p) by {
        let i = choose|i: int| 0 <= i < pl.len() && pl[i] == p;
        if i == 0 {
            assert(pg[0] == p);
        }
    }
    assert forall|k: int| 0 <= k < j.left_keys.len() implies recorded(g).contains(#[trigger] join_key(l, r, j, k))
        || recorded(g).contains(flipped(join_key(l, r, j, k))) by {
        if k == 0 {
            assert(pg[1] == join_key(l, r, j, 0));
        }
    }
    assert forall|p: EqKey| #[trigger] recorded(g).contains(p) implies recorded(l).contains(p)
        || recorded(r).contains(p) || is_join_key(l, r, j, p) by {
        let i = choose|i: int| 0 <= i < pg.len() && pg[i] == p;
        if i == 0 {
            assert(pl[0] == p);
        } else if i == 1 {
            assert(p == join_key(l, r, j, 0) || p == flipped(join_key(l, r, j, 0)));
        }
    }
}

/// The memo of TPC-H query 9 agrees with the hash join that produces group 139.
proof fn lemma_q9_join_139()
    ensures
        join_recorded(memo_map_view(q9_memo()), q9_hash_joins()[4]),
{
    let memo = q9_memo();
    lemma_q9_ids_distinct();
    lemma_memo_map_view_lookup(memo);
    let m = memo_map_view(memo);
    let j = q9_hash_joins()[4];
    assert(memo[3] == (139u64, q9_group_139()));
    assert(group_ids(memo)[3] == 139u64);
    assert(m.contains_key(139u64));
    assert(memo[1] == (83u64, q9_group_83()));
    assert(group_ids(memo)[1] == 83u64);
    assert(m.contains_key(83u64));
    assert(memo[2] == (14u64, q9_group_14()));
    assert(group_ids(memo)[2] == 14u64);
    assert(m.contains_key(14u64));
    let g = q9_group_139();
    let l = q9_group_83();
    let r = q9_group_14();
    assert(m[139u64] == g && m[83u64] == l && m[14u64] == r);
    assert(g.schema =~= l.schema + r.schema);
    assert(g.refs =~= l.refs + r.refs);
    lemma_replay_records(q9_group_139_predicates());
    let pg = q9_group_139_predicates();
    assert(recorded(g) == replay(pg).preds);
    assert(recorded(l) =~= Seq::<EqKey>::empty());
    assert(recorded(r) =~= Seq::<EqKey>::empty());
    assert(join_key(l, r, j, 0) == (("part"@, 0usize), ("lineitem"@, 1usize)));
    assert forall|k: int| 0 <= k < j.left_keys.len() implies recorded(g).contains(#[trigger] join_key(l, r, j, k))
        || recorded(g).contains(flipped(join_key(l, r, j, k))) by {
        if k == 0 {
            assert(pg[0] == join_key(l, r, j, 0));
        }
    }
    assert forall|p: EqKey| #[trigger] recorded(g).contains(p) implies recorded(l).contains(p)
        || recorded(r).contains(p) || is_join_key(l, r, j, p) by {
        let i = choose|i: int| 0 <= i < pg.len() && pg[i] == p;
        if i == 0 {
            assert(p == join_key(l, r, j, 0) || p == flipped(join_key(l, r, j, 0)));
        }
    }
}

/// Each hash join of the plan of TPC-H query 9 is recorded in its memo: the joined group
/// outputs the attributes of the left group and then those of the right group, and its
/// correlation records exactly the equalities of both groups and the join's own key
/// equalities.
pub proof fn lemma_q9_hash_joins_recorded()
    ensures
        forall|i: int|
            0 <= i < q9_hash_joins().len() ==> join_recorded(
                memo_map_view(q9_memo()),
                #[trigger] q9_hash_joins()[i],
            ),
{
    lemma_q9_join_68();
    lemma_q9_join_11775();
    lemma_q9_join_11371();
    lemma_q9_join_893();
    lemma_q9_join_139();
    assert forall|i: int| 0 <= i < q9_hash_joins().len() implies join_recorded(
        memo_map_view(q9_memo()),
        #[trigger] q9_hash_joins()[i],
    ) by {
        if i == 0 {
        } else if i == 1 {
        } else if i == 2 {
        } else if i == 3 {
        } else if i == 4 {
        }
    }
}

/// The filters, sorts and projections of the plan of TPC-H query 9: for each, the group it
/// produces and the group it reads.
pub open spec fn q9_unary_ops() -> Seq<UnaryOpView> {
    seq![
        UnaryOpView { group: 78, child: 75, keeps_output: true },
        UnaryOpView { group: 71, child: 68, keeps_output: false },
        UnaryOpView { group: 65, child: 62, keeps_output: false },
        UnaryOpView { group: 59, child: 11775, keeps_output: false },
        UnaryOpView { group: 53, child: 50, keeps_output: false },
        UnaryOpView { group: 41, child: 38, keeps_output: false },
        UnaryOpView { group: 83, child: 2, keeps_output: true },
    ]
}

/// The memo of TPC-H query 9 agrees with the operator that produces group 78.
proof fn lemma_q9_unary_78()
    ensures
        unary_recorded(memo_map_view(q9_memo()), q9_unary_ops()[0]),
{
    let memo = q9_memo();
    lemma_q9_ids_distinct();
    lemma_memo_map_view_lookup(memo);
    let m = memo_map_view(memo);
    let u = q9_unary_ops()[0];
    assert(memo[18] == (78u64, q9_group_78()));
    assert(group_ids(memo)[18] == 78u64);
    assert(m.contains_key(78u64));
    assert(memo[17] == (75u64, q9_group_75()));
    assert(group_ids(memo)[17] == 75u64);
    assert(m.contains_key(75u64));
    let g = q9_group_78();
    let c = q9_group_75();
    assert(m[78u64] == g && m[75u64] == c);
    assert(g.schema =~= c.schema);
    assert(g.refs =~= c.refs);
    assert(recorded(g) =~= Seq::<EqKey>::empty());
    assert(recorded(c) =~= Seq::<EqKey>::empty());
}

/// The memo of TPC-H query 9 agrees with the operator that produces group 71.
proof fn lemma_q9_unary_71()
    ensures
        unary_recorded(memo_map_view(q9_memo()), q9_unary_ops()[1]),
{
    let memo = q9_memo();
    lemma_q9_ids_distinct();
    lemma_memo_map_view_lookup(memo);
    let m = memo_map_view(memo);
    let u = q9_unary_ops()[1];
    assert(memo[16] == (71u64, q9_group_71()));
    assert(group_ids(memo)[16] == 71u64);
    assert(m.contains_key(71u64));
    assert(memo[15] == (68u64, q9_group_68()));
    assert(group_ids(memo)[15] == 68u64);
    assert(m.contains_key(68u64));
    let g = q9_group_71();
    let c = q9_group_68();
    assert(m[71u64] == g && m[68u64] == c);
    lemma_replay_records(q9_group_71_predicates());
    let pg = q9_group_71_predicates();
    assert(recorded(g) == replay(pg).preds);
    lemma_replay_records(q9_group_68_predicates());
    let pc = q9_group_68_predicates();
    assert(recorded(c) == replay(pc).preds);
    assert forall|p: EqKey| #[trigger] recorded(g).contains(p) implies recorded(c).contains(p) by {
        let i = choose|i: int| 0 <= i < pg.len() && pg[i] == p;
        if i == 0 {
            assert(pc[0] == p);
        } else if i == 1 {
            assert(pc[1] == p);
        } else if i == 2 {
            assert(pc[2] == p);
        } else if i == 3 {
            assert(pc[3] == p);
        } else if i == 4 {
            assert(pc[4] == p);
        } else if i == 5 {
            assert(pc[5] == p);
        }
    }
    assert forall|p: EqKey| #[trigger] recorded(c).contains(p) implies recorded(g).contains(p) by {
        let i = choose|i: int| 0 <= i < pc.len() && pc[i] == p;
        if i == 0 {
            assert(pg[0] == p);
        } else if i == 1 {
            assert(pg[1] == p);
        } else if i == 2 {
            assert(pg[2] == p);
        } else if i == 3 {
            assert(pg[3] == p);
        } else if i == 4 {
            assert(pg[4] == p);
        } else if i == 5 {
            assert(pg[5] == p);
        }
    }
}

/// The memo of TPC-H query 9 agrees with the operator that produces group 65.
proof fn lemma_q9_unary_65()
    ensures
        unary_recorded(memo_map_view(q9_memo()), q9_unary_ops()[2]),
{
    let memo = q9_memo();
    lemma_q9_ids_distinct();
    lemma_memo_map_view_lookup(memo);
    let m = memo_map_view(memo);
    let u = q9_unary_ops()[2];
    assert(memo[14] == (65u64, q9_group_65()));
    assert(group_ids(memo)[14] == 65u64);
    assert(m.contains_key(65u64));
    assert(memo[13] == (62u64, q9_group_62()));
    assert(group_ids(memo)[13] == 62u64);
    assert(m.contains_key(62u64));
    let g = q9_group_65();
    let c = q9_group_62();
    assert(m[65u64] == g && m[62u64] == c);
    assert(recorded(g) =~= Seq::<EqKey>::empty());
    assert(recorded(c) =~= Seq::<EqKey>::empty());
}

/// The memo of TPC-H query 9 agrees with the operator that produces group 59.
proof fn lemma_q9_unary_59()
    ensures
        unary_recorded(memo_map_view(q9_memo()), q9_unary_ops()[3]),
{
    let memo = q9_memo();
    lemma_q9_ids_distinct();
    lemma_memo_map_view_lookup(memo);
    let m = memo_map_view(memo);
    let u = q9_unary_ops()[3];
    assert(memo[12] == (59u64, q9_group_59()));
    assert(group_ids(memo)[12] == 59u64);
    assert(m.contains_key(59u64));
    assert(memo[11] == (11775u64, q9_group_11775()));
    assert(group_ids(memo)[11] == 11775u64);
    assert(m.contains_key(11775u64));
    let g = q9_group_59();
    let c = q9_group_11775();
    assert(m[59u64] == g && m[11775u64] == c);
    lemma_replay_records(q9_group_59_predicates());
    let pg = q9_group_59_predicates();
    assert(recorded(g) == replay(pg).preds);
    lemma_replay_records(q9_group_11775_predicates());
    let pc = q9_group_11775_predicates();
    assert(recorded(c) == replay(pc).preds);
    assert forall|p: EqKey| #[trigger] recorded(g).contains(p) implies recorded(c).contains(p) by {
        let i = choose|i: int| 0 <= i < pg.len() && pg[i] == p;
        if i == 0 {
            assert(pc[4] == p);
        } else if i == 1 {
            assert(pc[3] == p);
        } else if i == 2 {
            assert(pc[2] == p);
        } else if i == 3 {
            assert(pc[0] == p);
        } else if i == 4 {
            assert(pc[1] == p);
        }
    }
    assert forall|p: EqKey| #[trigger] recorded(c).contains(p) implies recorded(g).contains(p) by {
        let i = choose|i: int| 0 <= i < pc.len() && pc[i] == p;
        if i == 0 {
            assert(pg[3] == p);
        } else if i == 1 {
            assert(pg[4] == p);
        } else if i == 2 {
            assert(pg[2] == p);
        } else if i == 3 {
            assert(pg[1] == p);
        } else if i == 4 {
            assert(pg[0] == p);
        }
    }
}

/// The memo of TPC-H query 9 agrees with the operator that produces group 53.
proof fn lemma_q9_unary_53()
    ensures
        unary_recorded(memo_map_view(q9_memo()), q9_unary_ops()[4]),
{
    let memo = q9_memo();
    lemma_q9_ids_distinct();
    lemma_memo_map_view_lookup(memo);
    let m = memo_map_view(memo);
    let u = q9_unary_ops()[4];
    assert(memo[10] == (53u64, q9_group_53()));
    assert(group_ids(memo)[10] == 53u64);
    assert(m.contains_key(53u64));
    assert(memo[9] == (50u64, q9_group_50()));
    assert(group_ids(memo)[9] == 50u64);
    assert(m.contains_key(50u64));
    let g = q9_group_53();
    let c = q9_group_50();
    assert(m[53u64] == g && m[50u64] == c);
    assert(recorded(g) =~= Seq::<EqKey>::empty());
    assert(recorded(c) =~= Seq::<EqKey>::empty());
}

/// The memo of TPC-H query 9 agrees with the operator that produces group 41.
proof fn lemma_q9_unary_41()
    ensures
        unary_recorded(memo_map_view(q9_memo()), q9_unary_ops()[5]),
{
    let memo = q9_memo();
    lemma_q9_ids_distinct();
    lemma_memo_map_view_lookup(memo);
    let m = memo_map_view(memo);
    let u = q9_unary_ops()[5];
    assert(memo[7] == (41u64, q9_group_41()));
    assert(group_ids(memo)[7] == 41u64);
    assert(m.contains_key(41u64));
    assert(memo[6] == (38u64, q9_group_38()));
    assert(group_ids(memo)[6] == 38u64);
    assert(m.contains_key(38u64));
    let g = q9_group_41();
    let c = q9_group_38();
    assert(m[41u64] == g && m[38u64] == c);
    assert(recorded(g) =~= Seq::<EqKey>::empty());
    assert(recorded(c) =~= Seq::<EqKey>::empty());
}

/// The memo of TPC-H query 9 agrees with the operator that produces group 83.
proof fn lemma_q9_unary_83()
    ensures
        unary_recorded(memo_map_view(q9_memo()), q9_unary_ops()[6]),
{
    let memo = q9_memo();
    lemma_q9_ids_distinct();
    lemma_memo_map_view_lookup(memo);
    let m = memo_map_view(memo);
    let u = q9_unary_ops()[6];
    assert(memo[1] == (83u64, q9_group_83()));
    assert(group_ids(memo)[1] == 83u64);
    assert(m.contains_key(83u64));
    assert(memo[0] == (2u64, q9_group_2()));
    assert(group_ids(memo)[0] == 2u64);
    assert(m.contains_key(2u64));
    let g = q9_group_83();
    let c = q9_group_2();
    assert(m[83u64] == g && m[2u64] == c);
    assert(g.schema =~= c.schema);
    assert(g.refs =~= c.refs);
    assert(recorded(g) =~= Seq::<EqKey>::empty());
    assert(recorded(c) =~= Seq::<EqKey>::empty());
}

/// Each filter, sort and projection of the plan of TPC-H query 9 is recorded in its memo:
/// its group records the same equalities as the group it reads, and a filter's or a sort's
/// group has the schema and attribute references of the group it reads.
pub proof fn lemma_q9_unary_ops_recorded()
    ensures
        forall|i: int|
            0 <= i < q9_unary_ops().len() ==> unary_recorded(
                memo_map_view(q9_memo()),
                #[trigger] q9_unary_ops()[i],
            ),
{
    lemma_q9_unary_78();
    lemma_q9_unary_71();
    lemma_q9_unary_65();
    lemma_q9_unary_59();
    lemma_q9_unary_53();
    lemma_q9_unary_41();
    lemma_q9_unary_83();
    assert forall|i: int| 0 <= i < q9_unary_ops().len() implies unary_recorded(
        memo_map_view(q9_memo()),
        #[trigger] q9_unary_ops()[i],
    ) by {
        if i == 0 {
        } else if i == 1 {
        } else if i == 2 {
        } else if i == 3 {
        } else if i == 4 {
        } else if i == 5 {
        } else if i == 6 {
        }
    }
}

} // verus!
