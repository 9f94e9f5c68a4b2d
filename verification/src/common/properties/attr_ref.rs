use vstd::prelude::*;

use crate::utils::{
    class_or_single, is_partition, lemma_merge_preserves_partition, merge_classes, DisjointSets,
};

verus! {

/// The model of a base-table attribute: the table's name and the attribute's index in it.
pub type AttrKey = (Seq<char>, usize);

/// A reference to an attribute of a base table.
#[derive(Debug, Default, Eq, Hash, PartialEq)]
pub struct BaseTableAttrRef {
    pub table: String,
    pub attr_idx: usize,
}

impl View for BaseTableAttrRef {
    type V = AttrKey;

    open spec fn view(&self) -> AttrKey {
        (self.table@, self.attr_idx)
    }
}

impl Clone for BaseTableAttrRef {
    fn clone(&self) -> (res: Self)
        ensures
            res == *self,
    {
        BaseTableAttrRef { table: self.table.clone(), attr_idx: self.attr_idx }
    }
}

impl BaseTableAttrRef {
    /// Whether `self` and `other` name the same attribute of the same table.
    pub(crate) fn same_as(&self, other: &BaseTableAttrRef) -> (res: bool)
        ensures
            res == (self@ == other@),
    {
        self.attr_idx == other.attr_idx && self.table == other.table
    }
}


/// A list of attribute references, one per output attribute of a group.
pub type BaseTableAttrRefs = Vec<AttrRef>;

/// What an output attribute refers to: an attribute of a base table, or a value
/// derived from several attributes.
#[derive(Debug)]
pub enum AttrRef {
    BaseTableAttrRef(BaseTableAttrRef),
    Derived,
}

/// The model of an [`AttrRef`]: the attribute of a base table, or none for a derived value.
impl View for AttrRef {
    type V = Option<AttrKey>;

    open spec fn view(&self) -> Option<AttrKey> {
        match self {
            AttrRef::BaseTableAttrRef(a) => Some(a@),
            AttrRef::Derived => None,
        }
    }
}

/// The models of the attribute references, in order.
pub open spec fn attr_ref_views(refs: Seq<AttrRef>) -> Seq<Option<AttrKey>> {
    refs.map_values(|r: AttrRef| r@)
}

/// The models of the equality predicates, in order.
pub open spec fn eq_predicate_views(predicates: Seq<EqPredicate>) -> Seq<EqKey> {
    predicates.map_values(|p: EqPredicate| p@)
}

impl AttrRef {
    /// A reference to attribute `attr_idx` of the base table `table`.
    pub fn base_table_attr_ref(table: String, attr_idx: usize) -> (res: Self)
        ensures
            res == AttrRef::BaseTableAttrRef(BaseTableAttrRef { table, attr_idx }),
    {
        AttrRef::BaseTableAttrRef(BaseTableAttrRef { table, attr_idx })
    }
}

impl Clone for AttrRef {
    fn clone(&self) -> (res: Self)
        ensures
            res == *self,
    {
        match self {
            AttrRef::BaseTableAttrRef(a) => AttrRef::BaseTableAttrRef(a.clone()),
            AttrRef::Derived => AttrRef::Derived,
        }
    }
}

impl From<BaseTableAttrRef> for AttrRef {
    fn from(attr: BaseTableAttrRef) -> (res: Self) {
        AttrRef::BaseTableAttrRef(attr)
    }
}

impl vstd::std_specs::convert::FromSpecImpl<BaseTableAttrRef> for AttrRef {
    open spec fn obeys_from_spec() -> bool {
        true
    }

    open spec fn from_spec(attr: BaseTableAttrRef) -> AttrRef {
        AttrRef::BaseTableAttrRef(attr)
    }
}

/// The model of an equality predicate: its left and right attribute.
pub type EqKey = (AttrKey, AttrKey);

/// The predicate `left = right` between two base-table attributes.
#[derive(Debug, Eq, Hash, PartialEq)]
pub struct EqPredicate {
    pub left: BaseTableAttrRef,
    pub right: BaseTableAttrRef,
}

impl View for EqPredicate {
    type V = EqKey;

    open spec fn view(&self) -> EqKey {
        (self.left@, self.right@)
    }
}

impl Clone for EqPredicate {
    fn clone(&self) -> (res: Self)
        ensures
            res == *self,
    {
        EqPredicate { left: self.left.clone(), right: self.right.clone() }
    }
}

impl EqPredicate {
    pub fn new(left: BaseTableAttrRef, right: BaseTableAttrRef) -> (res: Self)
        ensures
            res.left == left,
            res.right == right,
    {
        Self { left, right }
    }

    /// Whether `self` and `other` relate the same two attributes in the same order.
    pub(crate) fn same_as(&self, other: &EqPredicate) -> (res: bool)
        ensures
            res == (self@ == other@),
    {
        self.left.same_as(&other.left) && self.right.same_as(&other.right)
    }
}

/// The model of a [`SemanticCorrelation`]: the partition of the attributes known to be
/// equal into classes (each member mapped to its class), and the equality predicates
/// recorded so far, each once.
pub struct CorrelationView {
    pub classes: Map<AttrKey, Set<AttrKey>>,
    pub preds: Seq<EqKey>,
}

/// The correlation that knows nothing.
pub open spec fn empty_correlation() -> CorrelationView {
    CorrelationView { classes: Map::empty(), preds: Seq::empty() }
}

/// `m` after recording the predicate `p`: both its attributes become members, their
/// classes are joined, and `p` is kept unless it was recorded already.
pub open spec fn add_predicate_spec(m: CorrelationView, p: EqKey) -> CorrelationView {
    CorrelationView {
        classes: merge_classes(m.classes, p.0, p.1),
        preds: if m.preds.contains(p) {
            m.preds
        } else {
            m.preds.push(p)
        },
    }
}

/// `m` after recording the predicates `ps` in order.
pub open spec fn add_predicates_spec(m: CorrelationView, ps: Seq<EqKey>) -> CorrelationView
    decreases ps.len(),
{
    if ps.len() == 0 {
        m
    } else {
        add_predicate_spec(add_predicates_spec(m, ps.drop_last()), ps.last())
    }
}

/// `a` is known to be equal to `b`.
pub open spec fn is_eq_spec(m: CorrelationView, a: AttrKey, b: AttrKey) -> bool {
    m.classes.dom().contains(a) && m.classes[a].contains(b)
}

/// The predicate `p` has an attribute other than `attr` in the class of `attr`.
pub open spec fn touches_class(m: CorrelationView, attr: AttrKey, p: EqKey) -> bool {
    (p.0 != attr && m.classes[attr].contains(p.0)) || (p.1 != attr && m.classes[attr].contains(
        p.1,
    ))
}

/// The attributes that occur in the predicates `ps`.
pub open spec fn endpoints(ps: Seq<EqKey>) -> Set<AttrKey> {
    Set::new(|k: AttrKey| exists|i: int| 0 <= i < ps.len() && (ps[i].0 == k || ps[i].1 == k))
}

/// What holds of every correlation: its classes partition its members; it records no
/// predicate twice; both attributes of each predicate are in one class; and every
/// member occurs in some predicate.
pub open spec fn correlation_ok(m: CorrelationView) -> bool {
    &&& is_partition(m.classes)
    &&& m.preds.no_duplicates()
    &&& forall|i: int|
        0 <= i < m.preds.len() ==> {
            &&& m.classes.dom().contains(#[trigger] m.preds[i].0)
            &&& m.classes[m.preds[i].0].contains(m.preds[i].1)
        }
    &&& m.classes.dom() == endpoints(m.preds)
}

/// Recording a predicate keeps every property of [`correlation_ok`].
pub proof fn lemma_add_predicate_ok(m: CorrelationView, p: EqKey)
    requires
        correlation_ok(m),
    ensures
        correlation_ok(add_predicate_spec(m, p)),
{
    let r = add_predicate_spec(m, p);
    let ca = class_or_single(m.classes, p.0);
    let cb = class_or_single(m.classes, p.1);
    let merged = ca.union(cb);
    lemma_merge_preserves_partition(m.classes, p.0, p.1);
    assert(r.preds.contains(p)) by {
        if !m.preds.contains(p) {
            assert(r.preds[r.preds.len() - 1] == p);
        }
    }
    assert forall|i: int| 0 <= i < r.preds.len() implies {
        &&& r.classes.dom().contains(#[trigger] r.preds[i].0)
        &&& r.classes[r.preds[i].0].contains(r.preds[i].1)
    } by {
        let q = r.preds[i];
        if i < m.preds.len() {
            assert(q == m.preds[i]);
            assert(m.classes.dom().contains(q.0));
            if merged.contains(q.0) {
                if ca.contains(q.0) && m.classes.dom().contains(p.0) {
                    assert(m.classes[q.0] == m.classes[p.0]);
                }
                if cb.contains(q.0) && m.classes.dom().contains(p.1) {
                    assert(m.classes[q.0] == m.classes[p.1]);
                }
            }
        } else {
            assert(q == p);
        }
    }
    assert(r.classes.dom() =~= endpoints(r.preds)) by {
        assert forall|k: AttrKey| #[trigger] r.classes.dom().contains(k) implies endpoints(
            r.preds,
        ).contains(k) by {
            if k == p.0 || k == p.1 {
                let j = choose|j: int| 0 <= j < r.preds.len() && r.preds[j] == p;
            } else {
                assert(endpoints(m.preds).contains(k));
                let j = choose|j: int|
                    0 <= j < m.preds.len() && (m.preds[j].0 == k || m.preds[j].1 == k);
                assert(r.preds[j] == m.preds[j]);
            }
        }
        assert forall|k: AttrKey| #[trigger] endpoints(r.preds).contains(k) implies r.classes.dom().contains(
            k,
        ) by {
            let j = choose|j: int| 0 <= j < r.preds.len() && (r.preds[j].0 == k || r.preds[j].1 == k);
            if j < m.preds.len() {
                assert(r.preds[j] == m.preds[j]);
                assert(endpoints(m.preds).contains(k));
            }
        }
    }
}

/// Recording predicates one after the other keeps every property of [`correlation_ok`].
pub proof fn lemma_add_predicates_ok(m: CorrelationView, ps: Seq<EqKey>)
    requires
        correlation_ok(m),
    ensures
        correlation_ok(add_predicates_spec(m, ps)),
    decreases ps.len(),
{
    if ps.len() > 0 {
        lemma_add_predicates_ok(m, ps.drop_last());
        lemma_add_predicate_ok(add_predicates_spec(m, ps.drop_last()), ps.last());
    }
}

/// Recording `a` and then `b` is recording `a + b`.
pub proof fn lemma_add_predicates_concat(m: CorrelationView, a: Seq<EqKey>, b: Seq<EqKey>)
    ensures
        add_predicates_spec(add_predicates_spec(m, a), b) == add_predicates_spec(m, a + b),
    decreases b.len(),
{
    if b.len() == 0 {
        assert(a + b =~= a);
    } else {
        lemma_add_predicates_concat(m, a, b.drop_last());
        assert((a + b).drop_last() =~= a + b.drop_last());
        assert((a + b).last() == b.last());
    }
}

/// Equality as the correlation knows it is an equivalence relation on its members.
pub proof fn lemma_is_eq_equivalence(m: CorrelationView)
    requires
        correlation_ok(m),
    ensures
        forall|a: AttrKey| m.classes.dom().contains(a) ==> #[trigger] is_eq_spec(m, a, a),
        forall|a: AttrKey, b: AttrKey| #[trigger] is_eq_spec(m, a, b) ==> is_eq_spec(m, b, a),
        forall|a: AttrKey, b: AttrKey, c: AttrKey|
            #[trigger] is_eq_spec(m, a, b) && #[trigger] is_eq_spec(m, b, c) ==> is_eq_spec(
                m,
                a,
                c,
            ),
{
    assert forall|a: AttrKey, b: AttrKey| #[trigger] is_eq_spec(m, a, b) implies is_eq_spec(
        m,
        b,
        a,
    ) by {
        assert(m.classes[b] == m.classes[a]);
    }
    assert forall|a: AttrKey, b: AttrKey, c: AttrKey|
        #[trigger] is_eq_spec(m, a, b) && #[trigger] is_eq_spec(m, b, c) implies is_eq_spec(
        m,
        a,
        c,
    ) by {
        assert(m.classes[b] == m.classes[a]);
    }
}

/// Every recorded predicate is known to hold: its two attributes are equal.
pub proof fn lemma_recorded_predicates_hold(m: CorrelationView, p: EqKey)
    requires
        correlation_ok(m),
        m.preds.contains(p),
    ensures
        is_eq_spec(m, p.0, p.1),
{
    let i = choose|i: int| 0 <= i < m.preds.len() && m.preds[i] == p;
    assert(m.classes.dom().contains(m.preds[i].0));
}

/// The correlation that records the predicates `ps`, in order, starting from nothing.
pub open spec fn replay(ps: Seq<EqKey>) -> CorrelationView {
    add_predicates_spec(empty_correlation(), ps)
}

/// `g` gives both attributes of every predicate in `ps` the same value.
pub open spec fn respects<T>(g: spec_fn(AttrKey) -> T, ps: Seq<EqKey>) -> bool {
    forall|i: int| 0 <= i < ps.len() ==> g(#[trigger] ps[i].0) == g(ps[i].1)
}

/// The correlation that knows nothing has every property of [`correlation_ok`].
pub proof fn lemma_empty_ok()
    ensures
        correlation_ok(empty_correlation()),
{
    let m = empty_correlation();
    assert(m.classes.dom() =~= endpoints(m.preds));
    assert(m.classes.dom() =~= Set::<AttrKey>::empty());
}

/// Joining two members that are already in one class changes nothing.
pub proof fn lemma_merge_same_class(c: Map<AttrKey, Set<AttrKey>>, a: AttrKey, b: AttrKey)
    requires
        is_partition(c),
        c.dom().contains(a),
        c[a].contains(b),
    ensures
        merge_classes(c, a, b) == c,
{
    let mc = merge_classes(c, a, b);
    assert(c[b] == c[a]);
    assert(class_or_single(c, a).union(class_or_single(c, b)) =~= c[a]);
    assert(mc.dom() =~= c.dom());
    assert forall|k: AttrKey| #[trigger] mc.dom().contains(k) implies mc[k] == c[k] by {
        if c[a].contains(k) {
            assert(c[k] == c[a]);
        }
    }
    assert(mc =~= c);
}

/// Recording a predicate a second time changes nothing.
pub proof fn lemma_add_predicate_idempotent(m: CorrelationView, p: EqKey)
    requires
        correlation_ok(m),
    ensures
        add_predicate_spec(add_predicate_spec(m, p), p) == add_predicate_spec(m, p),
{
    let m1 = add_predicate_spec(m, p);
    lemma_add_predicate_ok(m, p);
    assert(m1.preds.contains(p)) by {
        if !m.preds.contains(p) {
            assert(m1.preds[m1.preds.len() - 1] == p);
        }
    }
    lemma_recorded_predicates_hold(m1, p);
    lemma_merge_same_class(m1.classes, p.0, p.1);
}

/// Replaying the predicates that a replay recorded gives the same correlation.
pub proof fn lemma_replay_canonical(ps: Seq<EqKey>)
    ensures
        replay(replay(ps).preds) == replay(ps),
    decreases ps.len(),
{
    lemma_empty_ok();
    if ps.len() == 0 {
        assert(replay(ps).preds =~= Seq::<EqKey>::empty());
    } else {
        let prev = ps.drop_last();
        let p = ps.last();
        let m = replay(prev);
        lemma_replay_canonical(prev);
        lemma_add_predicates_ok(empty_correlation(), prev);
        if m.preds.contains(p) {
            lemma_recorded_predicates_hold(m, p);
            lemma_merge_same_class(m.classes, p.0, p.1);
            assert(replay(ps) == m);
        } else {
            assert(replay(ps).preds.drop_last() =~= m.preds);
        }
    }
}

/// A replay records exactly the distinct predicates it was given.
pub proof fn lemma_replay_preds(ps: Seq<EqKey>)
    ensures
        replay(ps).preds.to_set() == ps.to_set(),
    decreases ps.len(),
{
    if ps.len() == 0 {
        assert(replay(ps).preds.to_set() =~= ps.to_set());
    } else {
        let prev = ps.drop_last();
        let p = ps.last();
        lemma_replay_preds(prev);
        assert(ps =~= prev.push(p));
        prev.lemma_push_to_set_commute(p);
        let m = replay(prev);
        if m.preds.contains(p) {
            assert(m.preds.to_set().contains(p));
            assert(ps.to_set() =~= prev.to_set());
        } else {
            m.preds.lemma_push_to_set_commute(p);
        }
    }
}

/// Every predicate given to a replay is known to hold afterwards.
pub proof fn lemma_replay_sound(ps: Seq<EqKey>, i: int)
    requires
        0 <= i < ps.len(),
    ensures
        is_eq_spec(replay(ps), ps[i].0, ps[i].1),
{
    lemma_empty_ok();
    lemma_add_predicates_ok(empty_correlation(), ps);
    lemma_replay_preds(ps);
    assert(ps.to_set().contains(ps[i]));
    assert(replay(ps).preds.to_set().contains(ps[i]));
    lemma_recorded_predicates_hold(replay(ps), ps[i]);
}

/// The classes of a replay are the finest ones that hold the predicates: any map that
/// gives both attributes of every predicate the same value is constant on each class.
pub proof fn lemma_classes_are_closure<T>(ps: Seq<EqKey>, g: spec_fn(AttrKey) -> T)
    requires
        respects(g, ps),
    ensures
        forall|a: AttrKey, b: AttrKey| #[trigger] is_eq_spec(replay(ps), a, b) ==> g(a) == g(b),
    decreases ps.len(),
{
    if ps.len() > 0 {
        let prev = ps.drop_last();
        let p = ps.last();
        let m = replay(prev);
        assert(respects(g, prev)) by {
            assert forall|i: int| 0 <= i < prev.len() implies g(#[trigger] prev[i].0) == g(
                prev[i].1,
            ) by {
                assert(prev[i] == ps[i]);
            }
        }
        lemma_classes_are_closure(prev, g);
        assert(g(ps[ps.len() - 1].0) == g(ps[ps.len() - 1].1));
        let ca = class_or_single(m.classes, p.0);
        let cb = class_or_single(m.classes, p.1);
        assert(forall|x: AttrKey| #[trigger] ca.contains(x) ==> g(x) == g(p.0)) by {
            assert forall|x: AttrKey| #[trigger] ca.contains(x) implies g(x) == g(p.0) by {
                if m.classes.dom().contains(p.0) {
                    assert(is_eq_spec(m, p.0, x));
                }
            }
        }
        assert(forall|x: AttrKey| #[trigger] cb.contains(x) ==> g(x) == g(p.1)) by {
            assert forall|x: AttrKey| #[trigger] cb.contains(x) implies g(x) == g(p.1) by {
                if m.classes.dom().contains(p.1) {
                    assert(is_eq_spec(m, p.1, x));
                }
            }
        }
        assert forall|a: AttrKey, b: AttrKey| #[trigger] is_eq_spec(replay(ps), a, b) implies g(a)
            == g(b) by {
            let merged = ca.union(cb);
            if !merged.contains(a) {
                assert(is_eq_spec(m, a, b));
            }
        }
    }
}

/// The attributes that occur in predicates depend only on which predicates there are.
proof fn lemma_endpoints_to_set(ps: Seq<EqKey>, qs: Seq<EqKey>)
    requires
        ps.to_set() == qs.to_set(),
    ensures
        endpoints(ps) == endpoints(qs),
{
    assert forall|k: AttrKey| #[trigger] endpoints(ps).contains(k) implies endpoints(qs).contains(
        k,
    ) by {
        let i = choose|i: int| 0 <= i < ps.len() && (ps[i].0 == k || ps[i].1 == k);
        assert(ps.to_set().contains(ps[i]));
        let j = choose|j: int| 0 <= j < qs.len() && qs[j] == ps[i];
    }
    assert forall|k: AttrKey| #[trigger] endpoints(qs).contains(k) implies endpoints(ps).contains(
        k,
    ) by {
        let i = choose|i: int| 0 <= i < qs.len() && (qs[i].0 == k || qs[i].1 == k);
        assert(qs.to_set().contains(qs[i]));
        let j = choose|j: int| 0 <= j < ps.len() && ps[j] == qs[i];
    }
    assert(endpoints(ps) =~= endpoints(qs));
}

/// Equality known from `ps` implies equality known from `qs` where both hold the same
/// predicates.
proof fn lemma_is_eq_same_preds(ps: Seq<EqKey>, qs: Seq<EqKey>, a: AttrKey, b: AttrKey)
    requires
        ps.to_set() == qs.to_set(),
        is_eq_spec(replay(ps), a, b),
    ensures
        is_eq_spec(replay(qs), a, b),
{
    let m1 = replay(ps);
    let m2 = replay(qs);
    lemma_empty_ok();
    lemma_add_predicates_ok(empty_correlation(), ps);
    lemma_add_predicates_ok(empty_correlation(), qs);
    lemma_replay_preds(ps);
    lemma_replay_preds(qs);
    lemma_endpoints_to_set(m1.preds, ps);
    lemma_endpoints_to_set(m2.preds, qs);
    lemma_endpoints_to_set(ps, qs);
    let g = |k: AttrKey| class_or_single(m2.classes, k);
    assert(respects(g, ps)) by {
        assert forall|i: int| 0 <= i < ps.len() implies g(#[trigger] ps[i].0) == g(ps[i].1) by {
            assert(ps.to_set().contains(ps[i]));
            let j = choose|j: int| 0 <= j < qs.len() && qs[j] == ps[i];
            lemma_replay_sound(qs, j);
            assert(m2.classes[ps[i].1] == m2.classes[ps[i].0]);
        }
    }
    lemma_classes_are_closure(ps, g);
    assert(g(a) == g(b));
    assert(m1.classes[a].subset_of(m1.classes.dom()));
    assert(m2.classes.dom().contains(b));
}

/// Correlations that record the same predicates, in whatever order, know the same
/// equalities.
pub proof fn lemma_same_preds_same_classes(ps: Seq<EqKey>, qs: Seq<EqKey>)
    requires
        ps.to_set() == qs.to_set(),
    ensures
        replay(ps).classes == replay(qs).classes,
{
    let m1 = replay(ps);
    let m2 = replay(qs);
    lemma_empty_ok();
    lemma_add_predicates_ok(empty_correlation(), ps);
    lemma_add_predicates_ok(empty_correlation(), qs);
    lemma_replay_preds(ps);
    lemma_replay_preds(qs);
    lemma_endpoints_to_set(m1.preds, ps);
    lemma_endpoints_to_set(m2.preds, qs);
    lemma_endpoints_to_set(ps, qs);
    assert(m1.classes.dom() =~= m2.classes.dom());
    assert forall|a: AttrKey| #[trigger] m1.classes.dom().contains(a) implies m1.classes[a]
        == m2.classes[a] by {
        assert forall|b: AttrKey| m1.classes[a].contains(b) implies #[trigger] m2.classes[a].contains(
            b,
        ) by {
            lemma_is_eq_same_preds(ps, qs, a, b);
        }
        assert forall|b: AttrKey| m2.classes[a].contains(b) implies #[trigger] m1.classes[a].contains(
            b,
        ) by {
            lemma_is_eq_same_preds(qs, ps, a, b);
        }
        assert(m1.classes[a] =~= m2.classes[a]);
    }
    assert(m1.classes =~= m2.classes);
}

/// The union of two correlations knows the same equalities whichever comes first.
pub proof fn lemma_union_commutes(xs: Seq<EqKey>, ys: Seq<EqKey>)
    ensures
        replay(xs + ys).classes == replay(ys + xs).classes,
{
    assert((xs + ys).to_set() =~= (ys + xs).to_set()) by {
        assert forall|p: EqKey| #[trigger] (xs + ys).to_set().contains(p) implies (ys
            + xs).to_set().contains(p) by {
            let i = choose|i: int| 0 <= i < (xs + ys).len() && (xs + ys)[i] == p;
            if i < xs.len() {
                assert((ys + xs)[ys.len() + i] == p);
            } else {
                assert((ys + xs)[i - xs.len()] == p);
            }
        }
        assert forall|p: EqKey| #[trigger] (ys + xs).to_set().contains(p) implies (xs
            + ys).to_set().contains(p) by {
            let i = choose|i: int| 0 <= i < (ys + xs).len() && (ys + xs)[i] == p;
            if i < ys.len() {
                assert((xs + ys)[xs.len() + i] == p);
            } else {
                assert((xs + ys)[i - ys.len()] == p);
            }
        }
    }
    lemma_same_preds_same_classes(xs + ys, ys + xs);
}

/// Recording a predicate forgets no equality: what was known equal stays equal.
pub proof fn lemma_add_predicate_monotone(m: CorrelationView, p: EqKey, a: AttrKey, b: AttrKey)
    requires
        correlation_ok(m),
        is_eq_spec(m, a, b),
    ensures
        is_eq_spec(add_predicate_spec(m, p), a, b),
{
    let ca = class_or_single(m.classes, p.0);
    let cb = class_or_single(m.classes, p.1);
    let merged = ca.union(cb);
    if merged.contains(a) {
        if ca.contains(a) && m.classes.dom().contains(p.0) {
            assert(m.classes[a] == m.classes[p.0]);
        }
        if cb.contains(a) && m.classes.dom().contains(p.1) {
            assert(m.classes[a] == m.classes[p.1]);
        }
    }
}

/// Recording predicates forgets no equality.
pub proof fn lemma_add_predicates_monotone(
    m: CorrelationView,
    ps: Seq<EqKey>,
    a: AttrKey,
    b: AttrKey,
)
    requires
        correlation_ok(m),
        is_eq_spec(m, a, b),
    ensures
        is_eq_spec(add_predicates_spec(m, ps), a, b),
    decreases ps.len(),
{
    if ps.len() > 0 {
        lemma_add_predicates_monotone(m, ps.drop_last(), a, b);
        lemma_add_predicates_ok(m, ps.drop_last());
        lemma_add_predicate_monotone(add_predicates_spec(m, ps.drop_last()), ps.last(), a, b);
    }
}

/// The union of two correlations knows every equality that either of them knows.
pub proof fn lemma_union_keeps_both(xs: Seq<EqKey>, ys: Seq<EqKey>, a: AttrKey, b: AttrKey)
    requires
        is_eq_spec(replay(xs), a, b) || is_eq_spec(replay(ys), a, b),
    ensures
        is_eq_spec(replay(xs + ys), a, b),
{
    lemma_empty_ok();
    if is_eq_spec(replay(xs), a, b) {
        lemma_add_predicates_ok(empty_correlation(), xs);
        lemma_add_predicates_monotone(replay(xs), ys, a, b);
        lemma_add_predicates_concat(empty_correlation(), xs, ys);
    } else {
        lemma_add_predicates_ok(empty_correlation(), ys);
        lemma_add_predicates_monotone(replay(ys), xs, a, b);
        lemma_add_predicates_concat(empty_correlation(), ys, xs);
        lemma_union_commutes(xs, ys);
    }
}

/// The attributes found for the set of `attr` are all equal to `attr`.
pub proof fn lemma_found_attrs_in_class(m: CorrelationView, attr: AttrKey)
    requires
        correlation_ok(m),
        m.classes.dom().contains(attr),
    ensures
        endpoints(m.preds.filter(|p: EqKey| touches_class(m, attr, p))).subset_of(
            m.classes[attr],
        ),
{
    let f = |p: EqKey| touches_class(m, attr, p);
    let found = m.preds.filter(f);
    assert forall|k: AttrKey| endpoints(found).contains(k) implies #[trigger] m.classes[attr].contains(
        k,
    ) by {
        let i = choose|i: int| 0 <= i < found.len() && (found[i].0 == k || found[i].1 == k);
        let p = found[i];
        m.preds.lemma_filter_contains_rev(f, p);
        assert(found.contains(p));
        assert(f(p));
        assert(m.preds.contains(p));
        let j = choose|j: int| 0 <= j < m.preds.len() && m.preds[j] == p;
        assert(m.classes.dom().contains(m.preds[j].0));
        if m.classes[attr].contains(p.0) {
            assert(m.classes[p.0] == m.classes[attr]);
        } else {
            assert(m.classes[attr].contains(p.1));
            assert(m.classes[p.0].contains(p.1));
            assert(m.classes[p.1] == m.classes[p.0]);
            assert(m.classes[p.1] == m.classes[attr]);
        }
    }
}

/// `SemanticCorrelation` represents the semantic correlation between attributes in a
/// query. "Semantic" means that the attributes are correlated based on the semantics
/// of the query, not the statistics.
///
/// It holds equal attributes as disjoint sets of base-table attributes, e.g.
/// {{ t1.c1 = t2.c1 = t3.c1 }, { t1.c2 = t2.c2 }}, and the predicates that define them.
pub struct SemanticCorrelation {
    /// Disjoint sets of base-table attributes with equal values in the same row.
    disjoint_eq_attr_sets: DisjointSets,
    /// The predicates that define the equalities, each once.
    eq_predicates: Vec<EqPredicate>,
}

impl View for SemanticCorrelation {
    type V = CorrelationView;

    closed spec fn view(&self) -> CorrelationView {
        CorrelationView {
            classes: self.disjoint_eq_attr_sets@,
            preds: self.eq_predicates@.map_values(|p: EqPredicate| p@),
        }
    }
}

/// Puts `a` into `v` unless an equal attribute is there already.
fn push_unique(v: &mut Vec<BaseTableAttrRef>, a: &BaseTableAttrRef)
    requires
        old(v)@.map_values(|x: BaseTableAttrRef| x@).no_duplicates(),
    ensures
        final(v)@.map_values(|x: BaseTableAttrRef| x@).no_duplicates(),
        final(v)@.map_values(|x: BaseTableAttrRef| x@).to_set() == old(v)@.map_values(
            |x: BaseTableAttrRef| x@,
        ).to_set().insert(a@),
{
    let ghost keys = v@.map_values(|x: BaseTableAttrRef| x@);
    let n = v.len();
    let mut i: usize = 0;
    while i < n
        invariant
            n == v.len(),
            keys == v@.map_values(|x: BaseTableAttrRef| x@),
            keys.no_duplicates(),
            i <= n,
            forall|j: int| 0 <= j < i ==> keys[j] != a@,
        decreases n - i,
    {
        if v[i].same_as(a) {
            proof {
                assert(keys.to_set().contains(a@)) by {
                    assert(keys[i as int] == a@);
                }
                assert(keys.to_set().insert(a@) =~= keys.to_set());
            }
            return ;
        }
        i = i + 1;
    }
    v.push(a.clone());
    proof {
        let new_keys = v@.map_values(|x: BaseTableAttrRef| x@);
        assert(new_keys =~= keys.push(a@));
        keys.lemma_push_to_set_commute(a@);
        assert(!keys.contains(a@));
    }
}

impl SemanticCorrelation {
    /// The representation invariant.
    pub closed spec fn wf(&self) -> bool {
        &&& self.disjoint_eq_attr_sets.wf()
        &&& correlation_ok(self@)
        &&& self@ == replay(self@.preds)
    }

    /// A well-formed correlation has every property of [`correlation_ok`], and it is
    /// exactly what replaying its recorded predicates gives.
    pub proof fn lemma_wf(&self)
        requires
            self.wf(),
        ensures
            correlation_ok(self@),
            self@ == replay(self@.preds),
    {
    }

    pub fn new() -> (res: Self)
        ensures
            res.wf(),
            res@ == empty_correlation(),
    {
        let res = Self { disjoint_eq_attr_sets: DisjointSets::new(), eq_predicates: Vec::new() };
        assert(res@.preds =~= Seq::<EqKey>::empty());
        assert(res@.classes.dom() =~= endpoints(res@.preds));
        assert(res@.classes =~= Map::<AttrKey, Set<AttrKey>>::empty());
        res
    }

    /// Whether a predicate with the model `p` is recorded.
    fn records(&self, p: &EqPredicate) -> (res: bool)
        ensures
            res == self@.preds.contains(p@),
    {
        let n = self.eq_predicates.len();
        let mut i: usize = 0;
        while i < n
            invariant
                n == self.eq_predicates.len(),
                i <= n,
                forall|j: int| 0 <= j < i ==> self@.preds[j] != p@,
            decreases n - i,
        {
            if self.eq_predicates[i].same_as(p) {
                assert(self@.preds[i as int] == p@);
                return true;
            }
            i = i + 1;
        }
        false
    }

    /// Records the predicate: its two attributes are equal from now on.
    pub fn add_predicate(&mut self, predicate: EqPredicate)
        requires
            old(self).wf(),
        ensures
            final(self).wf(),
            final(self)@ == add_predicate_spec(old(self)@, predicate@),
    {
        let ghost m = self@;
        let ghost p = predicate@;
        self.disjoint_eq_attr_sets.merge(&predicate.left, &predicate.right);
        if !self.records(&predicate) {
            self.eq_predicates.push(predicate);
            proof {
                assert(self@.preds =~= m.preds.push(p));
                assert(self@.preds.drop_last() =~= m.preds);
            }
        } else {
            proof {
                lemma_recorded_predicates_hold(m, p);
                lemma_merge_same_class(m.classes, p.0, p.1);
            }
        }
        proof {
            lemma_add_predicate_ok(m, p);
        }
    }

    /// Whether the two attributes are known to be equal (in the same set).
    pub fn is_eq(&mut self, left: &BaseTableAttrRef, right: &BaseTableAttrRef) -> (res: bool)
        requires
            old(self).wf(),
        ensures
            *final(self) == *old(self),
            res == is_eq_spec(old(self)@, left@, right@),
    {
        proof {
            self.disjoint_eq_attr_sets.lemma_partition();
        }
        match self.disjoint_eq_attr_sets.same_set(left, right) {
            Some(b) => b,
            None => false,
        }
    }

    /// Whether the attribute is a member of some set.
    pub fn contains(&self, base_attr_ref: &BaseTableAttrRef) -> (res: bool)
        requires
            self.wf(),
        ensures
            res == self@.classes.dom().contains(base_attr_ref@),
    {
        self.disjoint_eq_attr_sets.contains(base_attr_ref)
    }

    /// The number of attributes that are equal to `attr`, including `attr` itself.
    pub fn num_eq_attributes(&mut self, attr: &BaseTableAttrRef) -> (res: usize)
        requires
            old(self).wf(),
            old(self)@.classes.dom().contains(attr@),
        ensures
            *final(self) == *old(self),
            res == old(self)@.classes[attr@].len(),
    {
        proof {
            self.disjoint_eq_attr_sets.lemma_partition();
        }
        self.disjoint_eq_attr_sets.set_size(attr).unwrap()
    }

    /// The recorded predicates that define the equality of the set `attr` belongs to:
    /// those with an attribute other than `attr` in the set of `attr`.
    pub fn find_predicates_for_eq_attr_set(&mut self, attr: &BaseTableAttrRef) -> (res: Vec<
        EqPredicate,
    >)
        requires
            old(self).wf(),
            old(self)@.classes.dom().contains(attr@) || old(self)@.preds.len() == 0,
        ensures
            *final(self) == *old(self),
            res@.map_values(|p: EqPredicate| p@) == old(self)@.preds.filter(
                |p: EqKey| touches_class(old(self)@, attr@, p),
            ),
    {
        let ghost m = self@;
        let ghost f = |p: EqKey| touches_class(m, attr@, p);
        let mut predicates: Vec<EqPredicate> = Vec::new();
        let n = self.eq_predicates.len();
        let mut i: usize = 0;
        while i < n
            invariant
                self.wf(),
                m == self@,
                n == self.eq_predicates.len(),
                n == m.preds.len(),
                i <= n,
                n > 0 ==> m.classes.dom().contains(attr@),
                f == (|p: EqKey| touches_class(m, attr@, p)),
                predicates@.map_values(|p: EqPredicate| p@) == m.preds.take(i as int).filter(f),
            decreases n - i,
        {
            let predicate = &self.eq_predicates[i];
            proof {
                assert(m.preds[i as int] == predicate@);
                assert(m.classes.dom().contains(m.preds[i as int].0));
                self.disjoint_eq_attr_sets.lemma_partition();
                assert(m.classes[m.preds[i as int].0].subset_of(m.classes.dom()));
            }
            let left = &predicate.left;
            let right = &predicate.right;
            let touches = (!left.same_as(attr) && self.disjoint_eq_attr_sets.same_set(
                attr,
                left,
            ).unwrap()) || (!right.same_as(attr) && self.disjoint_eq_attr_sets.same_set(
                attr,
                right,
            ).unwrap());
            proof {
                assert(m.preds.take(i + 1) =~= m.preds.take(i as int).push(predicate@));
                m.preds.take(i as int).lemma_filter_push(predicate@, f);
            }
            if touches {
                let ghost before = predicates@;
                predicates.push(predicate.clone());
                proof {
                    assert(predicates@.map_values(|p: EqPredicate| p@) =~= before.map_values(
                        |p: EqPredicate| p@,
                    ).push(predicate@));
                }
            }
            i = i + 1;
        }
        assert(m.preds.take(n as int) =~= m.preds);
        predicates
    }

    /// The attributes of the predicates that define the equality of the set `attr`
    /// belongs to, each once.
    pub fn find_attrs_for_eq_attribute_set(&mut self, attr: &BaseTableAttrRef) -> (res: Vec<
        BaseTableAttrRef,
    >)
        requires
            old(self).wf(),
            old(self)@.classes.dom().contains(attr@) || old(self)@.preds.len() == 0,
        ensures
            *final(self) == *old(self),
            res@.map_values(|x: BaseTableAttrRef| x@).no_duplicates(),
            res@.map_values(|x: BaseTableAttrRef| x@).to_set() == endpoints(
                old(self)@.preds.filter(|p: EqKey| touches_class(old(self)@, attr@, p)),
            ),
    {
        let predicates = self.find_predicates_for_eq_attr_set(attr);
        let ghost ps = predicates@.map_values(|p: EqPredicate| p@);
        let mut attrs: Vec<BaseTableAttrRef> = Vec::new();
        let n = predicates.len();
        let mut i: usize = 0;
        while i < n
            invariant
                n == predicates.len(),
                ps == predicates@.map_values(|p: EqPredicate| p@),
                i <= n,
                attrs@.map_values(|x: BaseTableAttrRef| x@).no_duplicates(),
                attrs@.map_values(|x: BaseTableAttrRef| x@).to_set() == endpoints(
                    ps.take(i as int),
                ),
            decreases n - i,
        {
            let ghost before = endpoints(ps.take(i as int));
            push_unique(&mut attrs, &predicates[i].left);
            push_unique(&mut attrs, &predicates[i].right);
            proof {
                let q = ps[i as int];
                let t0 = ps.take(i as int);
                let t1 = ps.take(i + 1);
                assert(q == predicates@[i as int]@);
                assert(endpoints(t1) =~= before.insert(q.0).insert(q.1)) by {
                    assert forall|k: AttrKey| #[trigger]
                        endpoints(t1).contains(k) implies before.insert(q.0).insert(q.1).contains(
                        k,
                    ) by {
                        let j = choose|j: int| 0 <= j < t1.len() && (t1[j].0 == k || t1[j].1 == k);
                        if j < i {
                            assert(t0[j] == t1[j]);
                        }
                    }
                    assert forall|k: AttrKey| #[trigger]
                        before.insert(q.0).insert(q.1).contains(k) implies endpoints(t1).contains(
                        k,
                    ) by {
                        if before.contains(k) {
                            let j = choose|j: int|
                                0 <= j < t0.len() && (t0[j].0 == k || t0[j].1 == k);
                            assert(t1[j] == t0[j]);
                        } else {
                            assert(t1[i as int] == q);
                        }
                    }
                }
            }
            i = i + 1;
        }
        assert(ps.take(n as int) =~= ps);
        attrs
    }

    /// Records the predicates of `self` and then those of `other` in `self`.
    fn add_predicates_of(&mut self, other: &SemanticCorrelation)
        requires
            old(self).wf(),
        ensures
            final(self).wf(),
            final(self)@ == add_predicates_spec(old(self)@, other@.preds),
    {
        let ghost m = self@;
        let n = other.eq_predicates.len();
        let mut i: usize = 0;
        while i < n
            invariant
                self.wf(),
                n == other.eq_predicates.len(),
                i <= n,
                self@ == add_predicates_spec(m, other@.preds.take(i as int)),
            decreases n - i,
        {
            self.add_predicate(other.eq_predicates[i].clone());
            proof {
                assert(other@.preds.take(i + 1).drop_last() =~= other@.preds.take(i as int));
                assert(other@.preds.take(i + 1).last() == other@.preds[i as int]);
            }
            i = i + 1;
        }
        assert(other@.preds.take(n as int) =~= other@.preds);
    }

    /// The correlation that records the predicates of `x` and then those of `y`.
    pub fn union(x: Self, y: Self) -> (res: Self)
        requires
            x.wf(),
            y.wf(),
        ensures
            res.wf(),
            res@ == add_predicates_spec(empty_correlation(), x@.preds + y@.preds),
    {
        let mut eq_attr_sets = Self::new();
        eq_attr_sets.add_predicates_of(&x);
        eq_attr_sets.add_predicates_of(&y);
        proof {
            lemma_add_predicates_concat(empty_correlation(), x@.preds, y@.preds);
        }
        eq_attr_sets
    }

    /// Combines two optional correlations: their union where both are present, the one
    /// that is present where only one is, and none where neither is.
    pub fn merge(x: Option<Self>, y: Option<Self>) -> (res: Option<Self>)
        requires
            x matches Some(a) ==> a.wf(),
            y matches Some(b) ==> b.wf(),
        ensures
            res matches Some(r) ==> r.wf(),
            match (x, y) {
                (Some(a), Some(b)) => res matches Some(r) && r@ == add_predicates_spec(
                    empty_correlation(),
                    a@.preds + b@.preds,
                ),
                (Some(a), None) => res == Some(a),
                (None, Some(b)) => res == Some(b),
                (None, None) => res is None,
            },
    {
        let eq_attr_sets = match (x, y) {
            (Some(x), Some(y)) => Self::union(x, y),
            (Some(x), None) => x,
            (None, Some(y)) => y,
            _ => return None,
        };
        Some(eq_attr_sets)
    }
}

impl Clone for SemanticCorrelation {
    fn clone(&self) -> (res: Self)
        ensures
            res@ == self@,
            self.wf() ==> res.wf(),
    {
        let eq_predicates = self.eq_predicates.clone();
        assert(eq_predicates@ =~= self.eq_predicates@);
        SemanticCorrelation {
            disjoint_eq_attr_sets: self.disjoint_eq_attr_sets.clone(),
            eq_predicates,
        }
    }
}

impl Default for SemanticCorrelation {
    fn default() -> (res: Self)
        ensures
            res.wf(),
            res@ == empty_correlation(),
    {
        Self::new()
    }
}

/// The attribute references of a group's output, and the correlation among them.
pub struct GroupattributeRefs {
    attribute_refs: BaseTableAttrRefs,
    /// Correlation of the output attributes of the group.
    output_correlation: Option<SemanticCorrelation>,
}

impl GroupattributeRefs {
    pub fn new(
        attribute_refs: BaseTableAttrRefs,
        output_correlation: Option<SemanticCorrelation>,
    ) -> (res: Self)
        requires
            output_correlation matches Some(c) ==> c.wf(),
        ensures
            res.wf(),
            res.attribute_refs() == attribute_refs,
            res.correlation() == output_correlation,
    {
        Self { attribute_refs, output_correlation }
    }

    /// The attribute references held.
    pub closed spec fn attribute_refs(&self) -> BaseTableAttrRefs {
        self.attribute_refs
    }

    /// The correlation held.
    pub closed spec fn correlation(&self) -> Option<SemanticCorrelation> {
        self.output_correlation
    }

    /// The correlation held, where there is one, is well formed.
    pub open spec fn wf(&self) -> bool {
        self.correlation() matches Some(c) ==> c.wf()
    }

    pub fn base_table_attribute_refs(&self) -> (res: &BaseTableAttrRefs)
        ensures
            *res == self.attribute_refs(),
    {
        &self.attribute_refs
    }

    pub fn output_correlation(&self) -> (res: Option<&SemanticCorrelation>)
        ensures
            match self.correlation() {
                Some(c) => res == Some(&c),
                None => res is None,
            },
    {
        self.output_correlation.as_ref()
    }
}

impl Clone for GroupattributeRefs {
    fn clone(&self) -> (res: Self)
        ensures
            res.attribute_refs()@ == self.attribute_refs()@,
            res.correlation() is Some == self.correlation() is Some,
            self.correlation() matches Some(c) ==> res.correlation()->0@ == c@,
            self.wf() ==> res.wf(),
    {
        let attribute_refs = self.attribute_refs.clone();
        assert(attribute_refs@ =~= self.attribute_refs@);
        let output_correlation = match &self.output_correlation {
            Some(c) => Some(c.clone()),
            None => None,
        };
        GroupattributeRefs { attribute_refs, output_correlation }
    }
}

} // verus!
