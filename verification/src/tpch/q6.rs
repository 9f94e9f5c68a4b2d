use std::collections::HashMap;

use vstd::prelude::*;

use vstd::string::StringExecFns;

use crate::common::predicates::constant_pred::ConstantType;
use crate::common::properties::attr_ref::{attr_ref_views, AttrKey, AttrRef};
use crate::common::properties::schema::Schema;
use crate::common::properties::{attribute_views, Attribute, AttributeView};

use super::{
    attribute, base_ref, group_ids, group_info, group_map_views, group_map_wf,
    lemma_memo_map_view_lookup, memo_map, memo_map_view, memo_view, memo_wf, recorded,
    unary_recorded, MemoGroupInfo, MemoGroupView, UnaryOpView,
};
use crate::common::properties::attr_ref::EqKey;

verus! {

/// The models of the attributes of `lineitem`.
pub open spec fn q6_lineitem_schema() -> Seq<AttributeView> {
    seq![
        ("l_orderkey"@, ConstantType::Int32, false),
        ("l_partkey"@, ConstantType::Int32, false),
        ("l_suppkey"@, ConstantType::Int32, false),
        ("l_linenumber"@, ConstantType::Int32, false),
        ("l_quantity"@, ConstantType::Decimal, false),
        ("l_extendedprice"@, ConstantType::Decimal, false),
        ("l_discount"@, ConstantType::Decimal, false),
        ("l_tax"@, ConstantType::Decimal, false),
        ("l_returnflag"@, ConstantType::Utf8String, false),
        ("l_linestatus"@, ConstantType::Utf8String, false),
        ("l_shipdate"@, ConstantType::Date, false),
        ("l_commitdate"@, ConstantType::Date, false),
        ("l_receiptdate"@, ConstantType::Date, false),
        ("l_shipinstruct"@, ConstantType::Utf8String, false),
        ("l_shipmode"@, ConstantType::Utf8String, false),
        ("l_comment"@, ConstantType::Utf8String, false),
    ]
}

/// References to the first `n` attributes of `lineitem`, in order.
pub open spec fn q6_lineitem_refs(n: nat) -> Seq<Option<AttrKey>> {
    Seq::new(n, |i: int| Some(("lineitem"@, i as usize)))
}

/// The model of the memo of TPC-H query 6: its groups, each with its id, in the order in
/// which they are put into the memo. The aggregation's single output is derived; the
/// filter and the scan both output the whole of `lineitem`, referring to its first
/// fifteen attributes.
pub open spec fn q6_memo() -> Seq<(u64, MemoGroupView)> {
    seq![
        (15u64, MemoGroupView {
            schema: seq![("unnamed"@, ConstantType::Binary, true)],
            refs: seq![None],
            correlation: None,
        }),
        (18u64, MemoGroupView {
            schema: q6_lineitem_schema(),
            refs: q6_lineitem_refs(15),
            correlation: None,
        }),
        (2u64, MemoGroupView {
            schema: q6_lineitem_schema(),
            refs: q6_lineitem_refs(15),
            correlation: None,
        }),
    ]
}

/// The groups of the memo of TPC-H query 6, each with its id, in the order in which
/// they are put into the memo.
fn q6_memo_groups() -> (res: Vec<(u64, MemoGroupInfo)>)
    ensures
        memo_wf(res@),
        memo_view(res@) == q6_memo(),
        group_ids(memo_view(res@)).no_duplicates(),
{
    let mut attribute_refs: Vec<AttrRef> = Vec::new();
    for i in 0..15usize
        invariant
            attribute_refs.len() == i,
            attr_ref_views(attribute_refs@) == q6_lineitem_refs(i as nat),
    {
        let ghost before = attribute_refs@;
        let r = base_ref("lineitem", i);
        attribute_refs.push(r);
        assert forall|j: int| 0 <= j <= i implies #[trigger] attr_ref_views(attribute_refs@)[j]
            == q6_lineitem_refs((i + 1) as nat)[j] by {
            if j < i {
                assert(attribute_refs@[j] == before[j]);
                assert(attr_ref_views(before)[j] == q6_lineitem_refs(i as nat)[j]);
            }
        }
        assert(attr_ref_views(attribute_refs@) =~= q6_lineitem_refs((i + 1) as nat));
    }
    let mut attributes: Vec<Attribute> = Vec::new();
    attributes.push(attribute("l_orderkey", ConstantType::Int32, false));
    attributes.push(attribute("l_partkey", ConstantType::Int32, false));
    attributes.push(attribute("l_suppkey", ConstantType::Int32, false));
    attributes.push(attribute("l_linenumber", ConstantType::Int32, false));
    attributes.push(attribute("l_quantity", ConstantType::Decimal, false));
    attributes.push(attribute("l_extendedprice", ConstantType::Decimal, false));
    attributes.push(attribute("l_discount", ConstantType::Decimal, false));
    attributes.push(attribute("l_tax", ConstantType::Decimal, false));
    attributes.push(attribute("l_returnflag", ConstantType::Utf8String, false));
    attributes.push(attribute("l_linestatus", ConstantType::Utf8String, false));
    attributes.push(attribute("l_shipdate", ConstantType::Date, false));
    attributes.push(attribute("l_commitdate", ConstantType::Date, false));
    attributes.push(attribute("l_receiptdate", ConstantType::Date, false));
    attributes.push(attribute("l_shipinstruct", ConstantType::Utf8String, false));
    attributes.push(attribute("l_shipmode", ConstantType::Utf8String, false));
    attributes.push(attribute("l_comment", ConstantType::Utf8String, false));
    assert(attribute_views(attributes@) =~= q6_lineitem_schema());
    let schema_complete = Schema { attributes };

    let mut memo: Vec<(u64, MemoGroupInfo)> = Vec::new();
    // Aggregation
    let mut unnamed: Vec<Attribute> = Vec::new();
    unnamed.push(attribute("unnamed", ConstantType::Binary, true));
    let mut derived: Vec<AttrRef> = Vec::new();
    derived.push(AttrRef::Derived);
    assert(attribute_views(unnamed@) =~= seq![("unnamed"@, ConstantType::Binary, true)]);
    assert(attr_ref_views(derived@) =~= seq![None]);
    memo.push((15, group_info(Schema { attributes: unnamed }, derived, None)));
    // Filter
    let refs = attribute_refs.clone();
    assert(refs@ =~= attribute_refs@);
    memo.push((18, group_info(schema_complete.clone(), refs, None)));
    // Scan
    let refs = attribute_refs.clone();
    assert(refs@ =~= attribute_refs@);
    memo.push((2, group_info(schema_complete.clone(), refs, None)));
    assert(memo_view(memo@) =~= q6_memo());
    assert(group_ids(q6_memo()).no_duplicates());
    memo
}

/// The filter of the plan of TPC-H query 6, with the group it produces and the scan it
/// reads.
pub open spec fn q6_filter() -> UnaryOpView {
    UnaryOpView { group: 18, child: 2, keeps_output: true }
}

/// The filter of the plan of TPC-H query 6 is recorded in its memo: its group has the
/// schema, the attribute references and the (absent) correlation of the scan it reads.
pub proof fn lemma_q6_filter_recorded()
    ensures
        unary_recorded(memo_map_view(q6_memo()), q6_filter()),
{
    let memo = q6_memo();
    assert(group_ids(memo).no_duplicates());
    lemma_memo_map_view_lookup(memo);
    let m = memo_map_view(memo);
    assert(group_ids(memo)[1] == 18u64);
    assert(group_ids(memo)[2] == 2u64);
    assert(m.contains_key(18u64) && m.contains_key(2u64));
    assert(m[18u64] == memo[1].1 && m[2u64] == memo[2].1);
    assert(recorded(memo[1].1) =~= Seq::<EqKey>::empty());
    assert(recorded(memo[2].1) =~= Seq::<EqKey>::empty());
}

/// The memo of TPC-H query 6: each group under its id.
pub fn create_tpch_q6_memo() -> (res: HashMap<u64, MemoGroupInfo>)
    ensures
        group_map_wf(res@),
        group_map_views(res@) == memo_map_view(q6_memo()),
        res@.dom() == group_ids(q6_memo()).to_set(),
        forall|i: int|
            0 <= i < q6_memo().len() ==> group_map_views(res@)[(#[trigger] q6_memo()[i]).0]
                == q6_memo()[i].1,
        unary_recorded(group_map_views(res@), q6_filter()),
{
    let groups = q6_memo_groups();
    proof {
        lemma_memo_map_view_lookup(q6_memo());
        lemma_q6_filter_recorded();
    }
    memo_map(groups)
}

/// The tables that TPC-H query 6 reads, by name, and the memo of its plan.
pub fn init_tpch_q6() -> (res: (Vec<String>, HashMap<u64, MemoGroupInfo>))
    ensures
        res.0.len() == 1,
        res.0@[0]@ == "lineitem"@,
        group_map_wf(res.1@),
        group_map_views(res.1@) == memo_map_view(q6_memo()),
        res.1@.dom() == group_ids(q6_memo()).to_set(),
{
    let memo = create_tpch_q6_memo();
    let mut tables: Vec<String> = Vec::new();
    tables.push(String::from_str("lineitem"));
    (tables, memo)
}

} // verus!
