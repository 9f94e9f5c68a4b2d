use vstd::prelude::*;
use vstd::string::StringExecFns;

use crate::common::properties::attr_ref::{AttrKey, BaseTableAttrRef};

verus! {

/// The class of `k` in `classes`, or the singleton `{k}` where `k` is not a member yet.
pub open spec fn class_or_single(classes: Map<AttrKey, Set<AttrKey>>, k: AttrKey) -> Set<AttrKey> {
    if classes.dom().contains(k) {
        classes[k]
    } else {
        set![k]
    }
}

/// The partition `classes` after declaring `a` and `b` equal: both become members
/// (where they were not) and their two classes are joined into one.
pub open spec fn merge_classes(classes: Map<AttrKey, Set<AttrKey>>, a: AttrKey, b: AttrKey) -> Map<
    AttrKey,
    Set<AttrKey>,
> {
    let merged = class_or_single(classes, a).union(class_or_single(classes, b));
    Map::new(
        |k: AttrKey| classes.dom().contains(k) || k == a || k == b,
        |k: AttrKey|
            if merged.contains(k) {
                merged
            } else {
                classes[k]
            },
    )
}

/// `classes` maps each member to its class, and the classes partition the members:
/// every member is in its own class, and all members of a class share that class.
pub open spec fn is_partition(classes: Map<AttrKey, Set<AttrKey>>) -> bool {
    &&& classes.dom().finite()
    &&& forall|k: AttrKey| #[trigger]
        classes.dom().contains(k) ==> {
            &&& classes[k].contains(k)
            &&& classes[k].finite()
            &&& classes[k].subset_of(classes.dom())
        }
    &&& forall|k: AttrKey, m: AttrKey|
        #![trigger classes[k].contains(m)]
        classes.dom().contains(k) && classes[k].contains(m) ==> classes[m] == classes[k]
}

/// The partition that a labelling induces: members with the same label form a class.
pub open spec fn classes_from_labels(labels: Map<AttrKey, nat>) -> Map<AttrKey, Set<AttrKey>> {
    Map::new(
        |k: AttrKey| labels.dom().contains(k),
        |k: AttrKey| Set::new(|m: AttrKey| labels.dom().contains(m) && labels[m] == labels[k]),
    )
}

/// `labels` with `k` added under the label `fresh`, where `k` is not labelled yet.
pub open spec fn label_if_absent(labels: Map<AttrKey, nat>, k: AttrKey, fresh: nat) -> Map<
    AttrKey,
    nat,
> {
    if labels.dom().contains(k) {
        labels
    } else {
        labels.insert(k, fresh)
    }
}

/// `labels` where every member labelled `from` is labelled `to` instead.
pub open spec fn relabel(labels: Map<AttrKey, nat>, from: nat, to: nat) -> Map<AttrKey, nat> {
    Map::new(
        |k: AttrKey| labels.dom().contains(k),
        |k: AttrKey|
            if labels[k] == from {
                to
            } else {
                labels[k]
            },
    )
}

/// Disjoint sets of base-table attributes. Each member carries a label, and two
/// members are in the same set exactly when their labels agree.
pub struct DisjointSets {
    elems: Vec<BaseTableAttrRef>,
    labels: Vec<usize>,
    label_of: Ghost<Map<AttrKey, nat>>,
}

impl View for DisjointSets {
    type V = Map<AttrKey, Set<AttrKey>>;

    closed spec fn view(&self) -> Map<AttrKey, Set<AttrKey>> {
        classes_from_labels(self.label_of@)
    }
}

proof fn lemma_labels_partition(labels: Map<AttrKey, nat>)
    requires
        labels.dom().finite(),
    ensures
        is_partition(classes_from_labels(labels)),
{
    let c = classes_from_labels(labels);
    assert(c.dom() =~= labels.dom());
    assert forall|k: AttrKey| #[trigger] c.dom().contains(k) implies {
        &&& c[k].contains(k)
        &&& c[k].finite()
        &&& c[k].subset_of(c.dom())
    } by {
        assert(c[k].subset_of(labels.dom()));
        vstd::set_lib::lemma_set_subset_finite(labels.dom(), c[k]);
    }
    assert forall|k: AttrKey, m: AttrKey|
        #![trigger c[k].contains(m)]
        c.dom().contains(k) && c[k].contains(m) implies c[m] == c[k] by {
        assert(c[m] =~= c[k]);
    }
}

/// Labelling the absent members `a` and `b` with fresh labels and then merging their
/// labels gives the partition in which the classes of `a` and `b` are joined.
proof fn lemma_merge_labels(
    lm0: Map<AttrKey, nat>,
    n0: nat,
    n1: nat,
    a: AttrKey,
    b: AttrKey,
)
    requires
        forall|k: AttrKey| #[trigger] lm0.dom().contains(k) ==> lm0[k] < n0,
        n0 <= n1,
        forall|k: AttrKey| #[trigger]
            label_if_absent(lm0, a, n0).dom().contains(k) ==> label_if_absent(lm0, a, n0)[k] < n1,
    ensures
        ({
            let lm2 = label_if_absent(label_if_absent(lm0, a, n0), b, n1);
            classes_from_labels(relabel(lm2, lm2[b], lm2[a])) == merge_classes(
                classes_from_labels(lm0),
                a,
                b,
            )
        }),
{
    let lm1 = label_if_absent(lm0, a, n0);
    let lm2 = label_if_absent(lm1, b, n1);
    let la = lm2[a];
    let lb = lm2[b];
    let lm3 = relabel(lm2, lb, la);
    let c0 = classes_from_labels(lm0);
    let c3 = classes_from_labels(lm3);
    let ca = class_or_single(c0, a);
    let cb = class_or_single(c0, b);
    let merged = ca.union(cb);
    assert(lm2.dom().contains(a) && lm2.dom().contains(b));
    // Keys that were not members receive labels that no old member carries.
    assert(forall|k: AttrKey| #[trigger]
        lm2.dom().contains(k) && !lm0.dom().contains(k) ==> (k == a || k == b));
    assert(forall|k: AttrKey| #[trigger] lm0.dom().contains(k) ==> lm2[k] == lm0[k]);
    assert(ca =~= Set::new(|m: AttrKey| lm2.dom().contains(m) && lm2[m] == la));
    assert(cb =~= Set::new(|m: AttrKey| lm2.dom().contains(m) && lm2[m] == lb));
    let mc = merge_classes(c0, a, b);
    assert(c3.dom() =~= mc.dom());
    assert forall|k: AttrKey| #[trigger] c3.dom().contains(k) implies c3[k] == mc[k] by {
        if merged.contains(k) {
            assert(c3[k] =~= merged);
        } else {
            assert(lm0.dom().contains(k));
            assert(c3[k] =~= c0[k]);
        }
    }
    assert(c3 =~= mc);
}

pub proof fn lemma_merge_preserves_partition(classes: Map<AttrKey, Set<AttrKey>>, a: AttrKey, b: AttrKey)
    requires
        is_partition(classes),
    ensures
        is_partition(merge_classes(classes, a, b)),
{
    let ca = class_or_single(classes, a);
    let cb = class_or_single(classes, b);
    let merged = ca.union(cb);
    let mc = merge_classes(classes, a, b);
    assert(mc.dom() =~= classes.dom().insert(a).insert(b));
    assert(ca.finite() && cb.finite());
    assert forall|k: AttrKey| #[trigger] mc.dom().contains(k) implies {
        &&& mc[k].contains(k)
        &&& mc[k].finite()
        &&& mc[k].subset_of(mc.dom())
    } by {
        if !merged.contains(k) {
            assert(classes.dom().contains(k));
        }
    }
    assert forall|k: AttrKey, m: AttrKey|
        #![trigger mc[k].contains(m)]
        mc.dom().contains(k) && mc[k].contains(m) implies mc[m] == mc[k] by {
        if merged.contains(k) {
        } else {
            assert(classes.dom().contains(k));
            if merged.contains(m) {
                if ca.contains(m) && classes.dom().contains(a) {
                    assert(classes[m] == classes[a]);
                } else if cb.contains(m) && classes.dom().contains(b) {
                    assert(classes[m] == classes[b]);
                }
            }
        }
    }
}

impl Clone for DisjointSets {
    fn clone(&self) -> (res: Self)
        ensures
            res@ == self@,
            self.wf() ==> res.wf(),
    {
        let elems = self.elems.clone();
        let labels = self.labels.clone();
        assert(elems@ =~= self.elems@);
        assert(labels@ =~= self.labels@);
        DisjointSets { elems, labels, label_of: Ghost(self.label_of@) }
    }
}

impl DisjointSets {
    /// The representation invariant: members are distinct, each member carries its
    /// label, and labels are smaller than the number of members.
    pub closed spec fn wf(&self) -> bool {
        let n = self.elems.len();
        &&& self.labels.len() == n
        &&& forall|i: int, j: int|
            0 <= i < n && 0 <= j < n && i != j ==> #[trigger] self.elems@[i]@
                != #[trigger] self.elems@[j]@
        &&& forall|i: int|
            0 <= i < n ==> {
                &&& self.label_of@.dom().contains(#[trigger] self.elems@[i]@)
                &&& self.label_of@[self.elems@[i]@] == self.labels@[i]
                &&& self.labels@[i] < n
            }
        &&& forall|k: AttrKey| #[trigger]
            self.label_of@.dom().contains(k) ==> exists|i: int|
                0 <= i < n && #[trigger] self.elems@[i]@ == k
        &&& self.label_of@.dom().finite()
    }

    /// A well-formed value partitions its members.
    pub proof fn lemma_partition(&self)
        requires
            self.wf(),
        ensures
            is_partition(self@),
    {
        lemma_labels_partition(self.label_of@);
    }

    /// No sets at all.
    pub fn new() -> (res: Self)
        ensures
            res.wf(),
            res@ == Map::<AttrKey, Set<AttrKey>>::empty(),
    {
        let res = DisjointSets { elems: Vec::new(), labels: Vec::new(), label_of: Ghost(Map::empty()) };
        assert(res@ =~= Map::<AttrKey, Set<AttrKey>>::empty());
        res
    }

    /// The position of `a` among the members, if it is one.
    fn position(&self, a: &BaseTableAttrRef) -> (res: Option<usize>)
        requires
            self.wf(),
        ensures
            match res {
                Some(i) => i < self.elems.len() && self.elems@[i as int]@ == a@,
                None => !self.label_of@.dom().contains(a@),
            },
    {
        let n = self.elems.len();
        let mut i: usize = 0;
        while i < n
            invariant
                self.wf(),
                n == self.elems.len(),
                i <= n,
                forall|j: int| 0 <= j < i ==> self.elems@[j]@ != a@,
            decreases n - i,
        {
            if self.elems[i].same_as(a) {
                return Some(i);
            }
            i = i + 1;
        }
        None
    }

    /// Whether `a` is a member of some set.
    pub fn contains(&self, a: &BaseTableAttrRef) -> (res: bool)
        requires
            self.wf(),
        ensures
            res == self@.dom().contains(a@),
    {
        self.position(a).is_some()
    }

    /// Whether `a` and `b` are in the same set; `None` where either is not a member.
    pub fn same_set(&self, a: &BaseTableAttrRef, b: &BaseTableAttrRef) -> (res: Option<bool>)
        requires
            self.wf(),
        ensures
            res == if self@.dom().contains(a@) && self@.dom().contains(b@) {
                Some(self@[a@].contains(b@))
            } else {
                None::<bool>
            },
    {
        match (self.position(a), self.position(b)) {
            (Some(i), Some(j)) => {
                let res = self.labels[i] == self.labels[j];
                assert(res == self@[a@].contains(b@));
                Some(res)
            },
            _ => None,
        }
    }

    /// The number of members in the set of `a`; `None` where `a` is not a member.
    pub fn set_size(&self, a: &BaseTableAttrRef) -> (res: Option<usize>)
        requires
            self.wf(),
        ensures
            self@.dom().contains(a@) ==> res is Some && res.unwrap() == self@[a@].len(),
            !self@.dom().contains(a@) ==> res is None,
    {
        match self.position(a) {
            None => None,
            Some(p) => {
                let target = self.labels[p];
                let n = self.elems.len();
                let mut count: usize = 0;
                let mut i: usize = 0;
                let ghost mut members: Seq<AttrKey> = Seq::empty();
                while i < n
                    invariant
                        self.wf(),
                        n == self.elems.len(),
                        i <= n,
                        count == members.len(),
                        count <= i,
                        members.no_duplicates(),
                        members.to_set() == Set::new(
                            |m: AttrKey|
                                exists|j: int|
                                    0 <= j < i && #[trigger] self.elems@[j]@ == m
                                        && self.labels@[j] == target,
                        ),
                    decreases n - i,
                {
                    if self.labels[i] == target {
                        proof {
                            let m = self.elems@[i as int]@;
                            assert(!members.contains(m)) by {
                                if members.contains(m) {
                                    assert(members.to_set().contains(m));
                                }
                            }
                            members.lemma_push_to_set_commute(m);
                            members = members.push(m);
                        }
                        count = count + 1;
                    }
                    proof {
                        assert(members.to_set() =~= Set::new(
                            |m: AttrKey|
                                exists|j: int|
                                    0 <= j < i + 1 && #[trigger] self.elems@[j]@ == m
                                        && self.labels@[j] == target,
                        ));
                    }
                    i = i + 1;
                }
                proof {
                    members.unique_seq_to_set();
                    assert(members.to_set() =~= self@[a@]);
                }
                Some(count)
            },
        }
    }

    /// Adds `a` with a label of its own where it is not a member; returns its position.
    fn add_if_absent(&mut self, a: &BaseTableAttrRef) -> (res: usize)
        requires
            old(self).wf(),
        ensures
            final(self).wf(),
            res < final(self).elems.len(),
            final(self).elems@[res as int]@ == a@,
            old(self).elems.len() <= final(self).elems.len(),
            forall|i: int|
                0 <= i < old(self).elems.len() ==> final(self).elems@[i] == old(self).elems@[i]
                    && final(self).labels@[i] == old(self).labels@[i],
            final(self).label_of@ == label_if_absent(
                old(self).label_of@,
                a@,
                old(self).elems.len() as nat,
            ),
    {
        match self.position(a) {
            Some(i) => i,
            None => {
                let n = self.elems.len();
                let ghost old_self = *self;
                self.elems.push(a.clone());
                self.labels.push(n);
                self.label_of = Ghost(self.label_of@.insert(a@, n as nat));
                proof {
                    assert forall|k: AttrKey| #[trigger]
                        self.label_of@.dom().contains(k) implies exists|i: int|
                        0 <= i < n + 1 && #[trigger] self.elems@[i]@ == k by {
                        if k != a@ {
                            let i = choose|i: int| 0 <= i < n && #[trigger] old_self.elems@[i]@ == k;
                            assert(self.elems@[i]@ == k);
                        } else {
                            assert(self.elems@[n as int]@ == k);
                        }
                    }
                }
                n
            },
        }
    }

    /// Puts `a` and `b` in one set, adding each of them first where it is not a member.
    pub fn merge(&mut self, a: &BaseTableAttrRef, b: &BaseTableAttrRef)
        requires
            old(self).wf(),
        ensures
            final(self).wf(),
            final(self)@ == merge_classes(old(self)@, a@, b@),
    {
        let ghost lm0 = self.label_of@;
        let ghost n0 = self.elems.len() as nat;
        let ia = self.add_if_absent(a);
        let ghost n1 = self.elems.len() as nat;
        let ib = self.add_if_absent(b);
        let ghost lm2 = self.label_of@;
        let la = self.labels[ia];
        let lb = self.labels[ib];
        assert(la == lm2[a@] && lb == lm2[b@]);
        let n = self.labels.len();
        let ghost elems = self.elems@;
        let ghost before = self.labels@;
        let ghost mid = *self;
        assert(mid.wf());
        let mut i: usize = 0;
        while i < n
            invariant
                n == self.labels.len(),
                n == self.elems.len(),
                self.elems@ == elems,
                before.len() == n,
                i <= n,
                la < n,
                forall|j: int|
                    0 <= j < n ==> #[trigger] self.labels@[j] == if j < i && before[j] == lb {
                        la
                    } else {
                        before[j]
                    },
            decreases n - i,
        {
            if self.labels[i] == lb {
                self.labels.set(i, la);
            }
            i = i + 1;
        }
        self.label_of = Ghost(relabel(lm2, lb as nat, la as nat));
        proof {
            lemma_merge_labels(lm0, n0, n1, a@, b@);
            assert forall|k: AttrKey| #[trigger]
                self.label_of@.dom().contains(k) implies exists|i: int|
                0 <= i < n && #[trigger] self.elems@[i]@ == k by {
                assert(lm2.dom().contains(k));
                let j = choose|j: int| 0 <= j < n && #[trigger] mid.elems@[j]@ == k;
                assert(self.elems@[j]@ == k);
            }
            assert(self.label_of@.dom() =~= lm2.dom());
        }
    }
}

/// The characters of the decimal digit `d`.
pub open spec fn digit_text(d: nat) -> Seq<char> {
    if d == 0 {
        "0"@
    } else if d == 1 {
        "1"@
    } else if d == 2 {
        "2"@
    } else if d == 3 {
        "3"@
    } else if d == 4 {
        "4"@
    } else if d == 5 {
        "5"@
    } else if d == 6 {
        "6"@
    } else if d == 7 {
        "7"@
    } else if d == 8 {
        "8"@
    } else {
        "9"@
    }
}

/// `n` written in decimal, without leading zeros.
pub open spec fn decimal_text(n: nat) -> Seq<char>
    decreases n,
{
    if n < 10 {
        digit_text(n)
    } else {
        decimal_text(n / 10) + digit_text(n % 10)
    }
}

/// `x` written in decimal, with a minus sign in front where it is negative.
pub open spec fn signed_text(x: int) -> Seq<char> {
    if x < 0 {
        "-"@ + decimal_text((-x) as nat)
    } else {
        decimal_text(x as nat)
    }
}

fn digit_str(d: u128) -> (res: &'static str)
    requires
        d < 10,
    ensures
        res@ == digit_text(d as nat),
{
    if d == 0 {
        "0"
    } else if d == 1 {
        "1"
    } else if d == 2 {
        "2"
    } else if d == 3 {
        "3"
    } else if d == 4 {
        "4"
    } else if d == 5 {
        "5"
    } else if d == 6 {
        "6"
    } else if d == 7 {
        "7"
    } else if d == 8 {
        "8"
    } else {
        "9"
    }
}

/// `n` written in decimal, as `{}` formats it.
pub(crate) fn decimal(n: u128) -> (res: String)
    ensures
        res@ == decimal_text(n as nat),
    decreases n,
{
    if n < 10 {
        String::from_str(digit_str(n))
    } else {
        decimal(n / 10).concat(digit_str(n % 10))
    }
}

/// `x` written in decimal, as `{}` formats it.
pub(crate) fn signed_decimal(x: i128) -> (res: String)
    ensures
        res@ == signed_text(x as int),
{
    if x < 0 {
        let magnitude: u128 = ((-(x + 1)) as u128) + 1;
        String::from_str("-").concat(decimal(magnitude).as_str())
    } else {
        decimal(x as u128)
    }
}

/// `prefix` followed by `n` in decimal.
pub(crate) fn prefixed_decimal(prefix: &str, n: u64) -> (res: String)
    ensures
        res@ == prefix@ + decimal_text(n as nat),
{
    String::from_str(prefix).concat(decimal(n as u128).as_str())
}

/// The character is a decimal digit.
pub open spec fn is_digit(c: char) -> bool {
    '0' as int <= c as int <= '9' as int
}

/// The number that a text of decimal digits stands for.
pub open spec fn digits_value(s: Seq<char>) -> int
    decreases s.len(),
{
    if s.len() == 0 {
        0
    } else {
        digits_value(s.drop_last()) * 10 + (s.last() as int - '0' as int)
    }
}

/// The text is a number in decimal without leading zeros: one or more digits, the first
/// of them `0` only where it is the only one.
pub open spec fn canonical_digits(s: Seq<char>) -> bool {
    &&& s.len() > 0
    &&& forall|i: int| 0 <= i < s.len() ==> is_digit(#[trigger] s[i])
    &&& s[0] == '0' ==> s.len() == 1
}

/// The text writes `x` in decimal, as `{}` writes an integer: a minus sign in front of
/// a negative number, then its magnitude without leading zeros.
pub open spec fn denotes_integer(s: Seq<char>, x: int) -> bool {
    if x < 0 {
        s.len() > 1 && s[0] == '-' && canonical_digits(s.skip(1)) && digits_value(s.skip(1)) == -x
    } else {
        canonical_digits(s) && digits_value(s) == x
    }
}

proof fn lemma_digit_text(d: nat)
    requires
        d < 10,
    ensures
        digit_text(d).len() == 1,
        digit_text(d)[0] as int == '0' as int + d,
{
    reveal_strlit("0");
    reveal_strlit("1");
    reveal_strlit("2");
    reveal_strlit("3");
    reveal_strlit("4");
    reveal_strlit("5");
    reveal_strlit("6");
    reveal_strlit("7");
    reveal_strlit("8");
    reveal_strlit("9");
}

/// [`decimal_text`] writes `n` in decimal without leading zeros.
pub proof fn lemma_decimal_text_denotes(n: nat)
    ensures
        denotes_integer(decimal_text(n), n as int),
    decreases n,
{
    let s = decimal_text(n);
    if n < 10 {
        lemma_digit_text(n);
        assert(s == digit_text(n));
        assert(s.drop_last() =~= Seq::<char>::empty());
        assert(digits_value(s.drop_last()) == 0);
        assert(s.last() == s[0]);
        assert(s.last() as int - '0' as int == n);
        assert(digits_value(s) == n);
        assert forall|i: int| 0 <= i < s.len() implies is_digit(#[trigger] s[i]) by {
            assert(i == 0);
        }
    } else {
        let q = n / 10;
        let r = n % 10;
        lemma_decimal_text_denotes(q);
        lemma_digit_text(r);
        let t = decimal_text(q);
        assert(s == t + digit_text(r));
        assert(s.drop_last() =~= t);
        assert(s.last() == digit_text(r)[0]);
        assert(s[0] == t[0]);
        assert forall|i: int| 0 <= i < s.len() implies is_digit(#[trigger] s[i]) by {
            if i < t.len() {
                assert(s[i] == t[i]);
            }
        }
        assert(digits_value(s) == n);
        if t[0] == '0' {
            assert(t.len() == 1);
            assert(t.drop_last() =~= Seq::<char>::empty());
            assert(digits_value(t.drop_last()) == 0);
            assert(t.last() == t[0]);
            assert(digits_value(t) == 0);
        }
        assert(s.len() > 1);
    }
}

/// [`signed_text`] writes `x` as `{}` writes an integer.
pub proof fn lemma_signed_text_denotes(x: int)
    ensures
        denotes_integer(signed_text(x), x),
{
    if x < 0 {
        reveal_strlit("-");
        let m = (-x) as nat;
        lemma_decimal_text_denotes(m);
        let s = signed_text(x);
        assert(s.skip(1) =~= decimal_text(m));
    } else {
        lemma_decimal_text_denotes(x as nat);
    }
}

} // verus!
