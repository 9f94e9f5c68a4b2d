//! The memo groups of the physical plans of a few TPC-H queries: for each group, the
//! schema of its output, the base-table attributes that output refers to, and the
//! equalities known among them.
//!
//! Tables are named by their TPC-H names.

use std::collections::HashMap;

use vstd::prelude::*;

use vstd::string::StringExecFns;

use crate::common::predicates::constant_pred::ConstantType;
use crate::common::properties::attr_ref::{
    add_predicates_spec, attr_ref_views, lemma_replay_preds, EqKey, empty_correlation,
    eq_predicate_views, replay, AttrKey, AttrRef, BaseTableAttrRef, CorrelationView,
    EqPredicate, GroupattributeRefs, SemanticCorrelation,
};
use crate::common::properties::schema::Schema;
use crate::common::properties::{attribute_views, Attribute, AttributeView};

pub mod q6;
pub mod q7;
pub mod q8;
pub mod q9;

verus! {

broadcast use vstd::std_specs::hash::group_hash_axioms;

/// What the memo knows of a group: the schema of its output, and the attribute
/// references of that output with the correlation among them.
pub struct MemoGroupInfo {
    pub schema: Schema,
    pub attr_refs: GroupattributeRefs,
}

/// The model of a [`MemoGroupInfo`]: the models of the attributes of the schema, the
/// models of the attribute references, and the model of the correlation, if any.
pub struct MemoGroupView {
    pub schema: Seq<AttributeView>,
    pub refs: Seq<Option<AttrKey>>,
    pub correlation: Option<CorrelationView>,
}

impl View for MemoGroupInfo {
    type V = MemoGroupView;

    open spec fn view(&self) -> MemoGroupView {
        MemoGroupView {
            schema: attribute_views(self.schema.attributes@),
            refs: attr_ref_views(self.attr_refs.attribute_refs()@),
            correlation: match self.attr_refs.correlation() {
                Some(c) => Some(c@),
                None => None,
            },
        }
    }
}

impl MemoGroupInfo {
    /// The correlation held, if any, is well formed.
    pub open spec fn wf(&self) -> bool {
        self.attr_refs.wf()
    }
}

/// The models of the entries of a memo, keyed by group id.
pub open spec fn memo_view(memo: Seq<(u64, MemoGroupInfo)>) -> Seq<(u64, MemoGroupView)> {
    memo.map_values(|e: (u64, MemoGroupInfo)| (e.0, e.1@))
}

/// Every group of the memo is well formed.
pub open spec fn memo_wf(memo: Seq<(u64, MemoGroupInfo)>) -> bool {
    forall|i: int| 0 <= i < memo.len() ==> (#[trigger] memo[i]).1.wf()
}

/// The group ids of a memo, in order.
pub open spec fn group_ids(memo: Seq<(u64, MemoGroupView)>) -> Seq<u64> {
    memo.map_values(|e: (u64, MemoGroupView)| e.0)
}

/// The attribute `name` of type `typ`.
fn attribute(name: &str, typ: ConstantType, nullable: bool) -> (res: Attribute)
    ensures
        res@ == (name@, typ, nullable),
{
    Attribute::new(String::from_str(name), typ, nullable)
}

/// A reference to attribute `attr_idx` of the table `table`.
fn base_ref(table: &str, attr_idx: usize) -> (res: AttrRef)
    ensures
        res@ == Some((table@, attr_idx)),
{
    AttrRef::base_table_attr_ref(String::from_str(table), attr_idx)
}

/// The predicate that attribute `left_idx` of `left_table` equals attribute
/// `right_idx` of `right_table`.
fn eq_predicate(left_table: &str, left_idx: usize, right_table: &str, right_idx: usize) -> (res:
    EqPredicate)
    ensures
        res@ == ((left_table@, left_idx), (right_table@, right_idx)),
{
    EqPredicate::new(
        BaseTableAttrRef { table: String::from_str(left_table), attr_idx: left_idx },
        BaseTableAttrRef { table: String::from_str(right_table), attr_idx: right_idx },
    )
}

/// A new correlation to which the predicates are added one by one, in order.
fn correlation_of(predicates: Vec<EqPredicate>) -> (res: SemanticCorrelation)
    ensures
        res.wf(),
        res@ == replay(eq_predicate_views(predicates@)),
{
    let ghost ps = eq_predicate_views(predicates@);
    let mut correlation = SemanticCorrelation::new();
    let n = predicates.len();
    let mut i: usize = 0;
    assert(ps.take(0) =~= Seq::<(AttrKey, AttrKey)>::empty());
    while i < n
        invariant
            n == predicates.len(),
            ps == eq_predicate_views(predicates@),
            i <= n,
            correlation.wf(),
            correlation@ == add_predicates_spec(empty_correlation(), ps.take(i as int)),
        decreases n - i,
    {
        correlation.add_predicate(predicates[i].clone());
        assert(ps.take(i + 1).drop_last() =~= ps.take(i as int));
        assert(ps.take(i + 1).last() == ps[i as int]);
        i = i + 1;
    }
    assert(ps.take(n as int) =~= ps);
    correlation
}

/// The group with the schema `schema`, the attribute references `refs` and the
/// correlation `correlation`.
fn group_info(schema: Schema, refs: Vec<AttrRef>, correlation: Option<SemanticCorrelation>) -> (res:
    MemoGroupInfo)
    requires
        correlation matches Some(c) ==> c.wf(),
    ensures
        res.wf(),
        res@ == (MemoGroupView {
            schema: attribute_views(schema.attributes@),
            refs: attr_ref_views(refs@),
            correlation: match correlation {
                Some(c) => Some(c@),
                None => None,
            },
        }),
{
    MemoGroupInfo { schema, attr_refs: GroupattributeRefs::new(refs, correlation) }
}

/// The map from group id to group of a memo given entry by entry: a later entry with an
/// id already there replaces the earlier one, as inserting into a map does.
pub open spec fn memo_map_view(memo: Seq<(u64, MemoGroupView)>) -> Map<u64, MemoGroupView>
    decreases memo.len(),
{
    if memo.len() == 0 {
        Map::empty()
    } else {
        memo_map_view(memo.drop_last()).insert(memo.last().0, memo.last().1)
    }
}

/// The models of the groups of a map from group id to group.
pub open spec fn group_map_views(m: Map<u64, MemoGroupInfo>) -> Map<u64, MemoGroupView> {
    Map::new(|k: u64| m.contains_key(k), |k: u64| m[k]@)
}

/// Every group of the map is well formed.
pub open spec fn group_map_wf(m: Map<u64, MemoGroupInfo>) -> bool {
    forall|k: u64| m.contains_key(k) ==> (#[trigger] m[k]).wf()
}

/// Where no id occurs twice, the map holds each entry under its id, and nothing else.
pub proof fn lemma_memo_map_view_lookup(memo: Seq<(u64, MemoGroupView)>)
    requires
        group_ids(memo).no_duplicates(),
    ensures
        memo_map_view(memo).dom() == group_ids(memo).to_set(),
        forall|i: int| 0 <= i < memo.len() ==> memo_map_view(memo)[(#[trigger] memo[i]).0] == memo[i].1,
    decreases memo.len(),
{
    if memo.len() > 0 {
        let prev = memo.drop_last();
        assert(group_ids(prev) =~= group_ids(memo).drop_last());
        lemma_memo_map_view_lookup(prev);
        assert(memo_map_view(memo).dom() =~= group_ids(memo).to_set()) by {
            assert forall|k: u64| memo_map_view(memo).dom().contains(k) implies group_ids(memo).to_set().contains(k) by {
                if k != memo.last().0 {
                    let j = choose|j: int| 0 <= j < prev.len() && group_ids(prev)[j] == k;
                    assert(group_ids(memo)[j] == k);
                } else {
                    assert(group_ids(memo)[memo.len() - 1] == k);
                }
            }
            assert forall|k: u64| group_ids(memo).to_set().contains(k) implies memo_map_view(memo).dom().contains(k) by {
                let j = choose|j: int| 0 <= j < memo.len() && group_ids(memo)[j] == k;
                if j < memo.len() - 1 {
                    assert(group_ids(prev)[j] == k);
                    assert(group_ids(prev).to_set().contains(k));
                }
            }
        }
        assert forall|i: int| 0 <= i < memo.len() implies memo_map_view(memo)[(#[trigger] memo[i]).0] == memo[i].1 by {
            if i < memo.len() - 1 {
                assert(group_ids(memo)[i] != group_ids(memo)[memo.len() - 1]);
                assert(prev[i] == memo[i]);
            }
        }
    }
}

/// The groups in a map by id; a later group with an id already there replaces the
/// earlier one, as inserting into a map does.
fn memo_map(groups: Vec<(u64, MemoGroupInfo)>) -> (res: HashMap<u64, MemoGroupInfo>)
    requires
        memo_wf(groups@),
    ensures
        group_map_wf(res@),
        group_map_views(res@) == memo_map_view(memo_view(groups@)),
{
    let ghost all = memo_view(groups@);
    let mut rest = groups;
    let mut map: HashMap<u64, MemoGroupInfo> = HashMap::new();
    let ghost mut k: int = 0;
    assert(all.take(0) =~= Seq::<(u64, MemoGroupView)>::empty());
    assert(group_map_views(map@) =~= Map::<u64, MemoGroupView>::empty());
    while rest.len() > 0
        invariant
            0 <= k <= all.len(),
            k + rest.len() == all.len(),
            memo_view(rest@) == all.skip(k),
            memo_wf(rest@),
            group_map_wf(map@),
            group_map_views(map@) == memo_map_view(all.take(k)),
        decreases rest.len(),
    {
        let ghost before = rest@;
        let (id, info) = rest.remove(0);
        assert(memo_view(before)[0] == (id, info@));
        assert(before[0].1.wf());
        let ghost old_map = map@;
        map.insert(id, info);
        proof {
            assert(memo_view(rest@) =~= all.skip(k + 1)) by {
                assert forall|j: int| 0 <= j < rest@.len() implies memo_view(rest@)[j] == all.skip(k + 1)[j] by {
                    assert(rest@[j] == before[j + 1]);
                    assert(memo_view(before)[j + 1] == all.skip(k)[j + 1]);
                }
            }
            assert forall|j: int| 0 <= j < rest@.len() implies (#[trigger] rest@[j]).1.wf() by {
                assert(rest@[j] == before[j + 1]);
            }
            assert(all[k] == (id, info@)) by {
                assert(all.skip(k)[0] == all[k]);
            }
            assert(all.take(k + 1).drop_last() =~= all.take(k));
            assert(group_map_views(map@) =~= memo_map_view(all.take(k + 1)));
            k = k + 1;
        }
    }
    assert(all.take(k) =~= all);
    map
}

/// A hash join of a plan: the group it produces, the groups it joins (left, then right),
/// and, pair by pair, the positions of its key attributes in the output of the left and
/// of the right group.
pub struct HashJoinView {
    pub group: u64,
    pub left: u64,
    pub right: u64,
    pub left_keys: Seq<int>,
    pub right_keys: Seq<int>,
}

/// The equality predicates recorded in the group's correlation; none where it has none.
pub open spec fn recorded(g: MemoGroupView) -> Seq<EqKey> {
    match g.correlation {
        Some(c) => c.preds,
        None => Seq::empty(),
    }
}

/// The same equality with its sides swapped.
pub open spec fn flipped(p: EqKey) -> EqKey {
    (p.1, p.0)
}

/// The equality of the `k`-th key pair of the join `j` of the groups `l` and `r`.
pub open spec fn join_key(l: MemoGroupView, r: MemoGroupView, j: HashJoinView, k: int) -> EqKey {
    (l.refs[j.left_keys[k]]->0, r.refs[j.right_keys[k]]->0)
}

/// `p` is one of the key equalities of the join, either way round.
pub open spec fn is_join_key(l: MemoGroupView, r: MemoGroupView, j: HashJoinView, p: EqKey) -> bool {
    exists|k: int|
        0 <= k < j.left_keys.len() && (p == #[trigger] join_key(l, r, j, k) || p == flipped(
            join_key(l, r, j, k),
        ))
}

/// The memo `m` agrees with the hash join `j`: the joined group outputs the left group's
/// attributes followed by the right group's, its keys are base-table attributes, and its
/// correlation records exactly the equalities of both groups and the join's key
/// equalities (each either way round).
pub open spec fn join_recorded(m: Map<u64, MemoGroupView>, j: HashJoinView) -> bool {
    let g = m[j.group];
    let l = m[j.left];
    let r = m[j.right];
    &&& m.contains_key(j.group)
    &&& m.contains_key(j.left)
    &&& m.contains_key(j.right)
    &&& g.schema == l.schema + r.schema
    &&& g.refs == l.refs + r.refs
    &&& j.left_keys.len() == j.right_keys.len()
    &&& forall|k: int|
        0 <= k < j.left_keys.len() ==> {
            &&& 0 <= #[trigger] j.left_keys[k] < l.refs.len()
            &&& 0 <= j.right_keys[k] < r.refs.len()
            &&& l.refs[j.left_keys[k]] is Some
            &&& r.refs[j.right_keys[k]] is Some
        }
    &&& g.correlation is Some
    &&& forall|p: EqKey| #[trigger] recorded(l).contains(p) ==> recorded(g).contains(p)
    &&& forall|p: EqKey| #[trigger] recorded(r).contains(p) ==> recorded(g).contains(p)
    &&& forall|k: int|
        0 <= k < j.left_keys.len() ==> recorded(g).contains(#[trigger] join_key(l, r, j, k))
            || recorded(g).contains(flipped(join_key(l, r, j, k)))
    &&& forall|p: EqKey| #[trigger]
        recorded(g).contains(p) ==> recorded(l).contains(p) || recorded(r).contains(p)
            || is_join_key(l, r, j, p)
}

/// An operator of a plan with one input: the group it produces, the group it reads, and
/// whether it outputs its input's attributes as they are (a filter or a sort does; a
/// projection computes new ones).
pub struct UnaryOpView {
    pub group: u64,
    pub child: u64,
    pub keeps_output: bool,
}

/// The memo `m` agrees with the operator `u`: its group records the same equalities as
/// the group it reads, and, where it keeps its input's attributes, has the same schema
/// and attribute references.
pub open spec fn unary_recorded(m: Map<u64, MemoGroupView>, u: UnaryOpView) -> bool {
    let g = m[u.group];
    let c = m[u.child];
    &&& m.contains_key(u.group)
    &&& m.contains_key(u.child)
    &&& (g.correlation is Some) == (c.correlation is Some)
    &&& forall|p: EqKey| #[trigger] recorded(g).contains(p) ==> recorded(c).contains(p)
    &&& forall|p: EqKey| #[trigger] recorded(c).contains(p) ==> recorded(g).contains(p)
    &&& u.keeps_output ==> g.schema == c.schema && g.refs == c.refs
}

/// A replay records exactly the predicates replayed.
proof fn lemma_replay_records(ps: Seq<EqKey>)
    ensures
        forall|p: EqKey| #[trigger] replay(ps).preds.contains(p) == ps.contains(p),
{
    lemma_replay_preds(ps);
    assert forall|p: EqKey| #[trigger] replay(ps).preds.contains(p) == ps.contains(p) by {
        assert(replay(ps).preds.to_set().contains(p) == ps.to_set().contains(p));
    }
}

} // verus!
