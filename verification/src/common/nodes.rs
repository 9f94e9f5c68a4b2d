use std::sync::Arc;

use vstd::prelude::*;
use vstd::string::StringExecFns;

use super::predicates::{
    bin_op_pred::{bin_op_name, BinOpType},
    constant_pred::{constant_type_name, ConstantType},
    log_op_pred::{log_op_name, LogOpType},
    sort_order_pred::{sort_order_name, SortOrderType},
    un_op_pred::{un_op_name, UnOpType},
};
use super::values::{value_text, SerializableOrderedF64, Value, ValueModel};

verus! {

/// The data type of a column, as Arrow defines it. Predicates carry it through as it
/// is; nothing here reads inside it.
#[verifier::external_type_specification]
#[verifier::external_body]
pub struct ExDataType(arrow_schema::DataType);

/// The kinds of join.
#[derive(Debug, Copy, Clone, PartialEq, Eq, Structural, Hash)]
pub enum JoinType {
    Inner,
    FullOuter,
    LeftOuter,
    RightOuter,
    Cross,
    LeftSemi,
    RightSemi,
    LeftAnti,
    RightAnti,
}

/// The physical operators of a plan.
#[derive(Debug, Clone, Copy, PartialEq, Eq, Structural, Hash)]
pub enum PhysicalNodeType {
    PhysicalProjection,
    PhysicalFilter,
    PhysicalScan,
    PhysicalSort,
    PhysicalAgg,
    PhysicalHashJoin(JoinType),
    PhysicalNestedLoopJoin(JoinType),
    PhysicalEmptyRelation,
    PhysicalLimit,
}

/// The kinds of predicate node.
#[derive(Debug, Clone, PartialEq, Eq, Hash)]
pub enum PredicateType {
    List,
    Constant(ConstantType),
    AttrIndex,
    Id,
    AttributeRef,
    UnOp(UnOpType),
    BinOp(BinOpType),
    LogOp(LogOpType),
    SortOrder(SortOrderType),
    Between,
    Cast,
    Like,
    DataType(arrow_schema::DataType),
    InList,
}

/// A shared predicate node.
pub type ArcPredicateNode = Arc<PredicateNode>;

/// A node of a predicate tree.
#[derive(Debug, Clone, PartialEq, Eq, Hash)]
pub struct PredicateNode {
    /// A generic predicate node type
    pub typ: PredicateType,
    /// Child predicate nodes, always materialized
    pub children: Vec<ArcPredicateNode>,
    /// Data associated with the predicate, if any
    pub data: Option<Value>,
}

/// Another handle on the same node.
///
/// Trusted: calls `Arc::clone`, which returns a pointer to the same allocation, so the
/// node it gives is the node it was given.
#[verifier::external_body]
pub(crate) fn share_node(node: &ArcPredicateNode) -> (res: ArcPredicateNode)
    ensures
        res == *node,
{
    node.clone()
}

/// Cloning a column data type.
///
/// Trusted: `arrow_schema::DataType::clone` is written by `derive(Clone)`, field by
/// field, so the copy equals the value it was made from.
pub assume_specification[ <arrow_schema::DataType as Clone>::clone ](
    typ: &arrow_schema::DataType,
) -> (res: arrow_schema::DataType)
    ensures
        res == *typ,
;

impl PredicateNode {
    /// The child at position `idx`.
    pub fn child(&self, idx: usize) -> (res: ArcPredicateNode)
        requires
            idx < self.children.len(),
        ensures
            res == self.children@[idx as int],
    {
        share_node(&self.children[idx])
    }

    /// The data of the node, which must have some.
    pub fn unwrap_data(&self) -> (res: Value)
        requires
            self.data is Some,
        ensures
            res@ == self.data.unwrap()@,
    {
        match &self.data {
            Some(data) => data.clone(),
            None => Value::Bool(false),
        }
    }
}

/// A typed view of a predicate node.
pub trait ReprPredicateNode: 'static + Clone {
    fn into_pred_node(self) -> ArcPredicateNode;

    fn from_pred_node(pred_node: ArcPredicateNode) -> Option<Self>;
}

impl ReprPredicateNode for ArcPredicateNode {
    fn into_pred_node(self) -> (res: ArcPredicateNode)
        ensures
            res == self,
    {
        self
    }

    fn from_pred_node(pred_node: ArcPredicateNode) -> (res: Option<Self>)
        ensures
            res == Some(pred_node),
    {
        Some(pred_node)
    }
}

/// The name of the variant, as `{:?}` writes it.
pub open spec fn join_type_name(v: JoinType) -> Seq<char> {
    match v {
        JoinType::Inner => "Inner"@,
        JoinType::FullOuter => "FullOuter"@,
        JoinType::LeftOuter => "LeftOuter"@,
        JoinType::RightOuter => "RightOuter"@,
        JoinType::Cross => "Cross"@,
        JoinType::LeftSemi => "LeftSemi"@,
        JoinType::RightSemi => "RightSemi"@,
        JoinType::LeftAnti => "LeftAnti"@,
        JoinType::RightAnti => "RightAnti"@,
    }
}

impl JoinType {
    /// The name of the variant.
    pub fn to_string(&self) -> (res: String)
        ensures
            res@ == join_type_name(*self),
    {
        String::from_str(
            match self {
                JoinType::Inner => "Inner",
                JoinType::FullOuter => "FullOuter",
                JoinType::LeftOuter => "LeftOuter",
                JoinType::RightOuter => "RightOuter",
                JoinType::Cross => "Cross",
                JoinType::LeftSemi => "LeftSemi",
                JoinType::RightSemi => "RightSemi",
                JoinType::LeftAnti => "LeftAnti",
                JoinType::RightAnti => "RightAnti",
            },
        )
    }
}

/// The name of the operator, as `{:?}` writes it.
pub open spec fn physical_node_type_name(t: PhysicalNodeType) -> Seq<char> {
    match t {
        PhysicalNodeType::PhysicalProjection => "PhysicalProjection"@,
        PhysicalNodeType::PhysicalFilter => "PhysicalFilter"@,
        PhysicalNodeType::PhysicalScan => "PhysicalScan"@,
        PhysicalNodeType::PhysicalSort => "PhysicalSort"@,
        PhysicalNodeType::PhysicalAgg => "PhysicalAgg"@,
        PhysicalNodeType::PhysicalHashJoin(j) => "PhysicalHashJoin("@ + join_type_name(j) + ")"@,
        PhysicalNodeType::PhysicalNestedLoopJoin(j) => "PhysicalNestedLoopJoin("@ + join_type_name(
            j,
        ) + ")"@,
        PhysicalNodeType::PhysicalEmptyRelation => "PhysicalEmptyRelation"@,
        PhysicalNodeType::PhysicalLimit => "PhysicalLimit"@,
    }
}

impl PhysicalNodeType {
    /// The name of the operator.
    pub fn to_string(&self) -> (res: String)
        ensures
            res@ == physical_node_type_name(*self),
    {
        match self {
            PhysicalNodeType::PhysicalProjection => String::from_str("PhysicalProjection"),
            PhysicalNodeType::PhysicalFilter => String::from_str("PhysicalFilter"),
            PhysicalNodeType::PhysicalScan => String::from_str("PhysicalScan"),
            PhysicalNodeType::PhysicalSort => String::from_str("PhysicalSort"),
            PhysicalNodeType::PhysicalAgg => String::from_str("PhysicalAgg"),
            PhysicalNodeType::PhysicalHashJoin(j) => String::from_str("PhysicalHashJoin(").concat(
                j.to_string().as_str(),
            ).concat(")"),
            PhysicalNodeType::PhysicalNestedLoopJoin(j) => String::from_str(
                "PhysicalNestedLoopJoin(",
            ).concat(j.to_string().as_str()).concat(")"),
            PhysicalNodeType::PhysicalEmptyRelation => String::from_str("PhysicalEmptyRelation"),
            PhysicalNodeType::PhysicalLimit => String::from_str("PhysicalLimit"),
        }
    }
}

/// A piece of the text of a predicate tree: plain text, or a value that the caller
/// writes: a column data type (as Arrow's `Debug` writes it) or a float (as `{}` writes
/// it).
pub enum TextPiece {
    Text(String),
    DataType(arrow_schema::DataType),
    Float(SerializableOrderedF64),
}

/// The model of a [`TextPiece`]: text by its characters.
pub enum TextPieceView {
    Text(Seq<char>),
    DataType(arrow_schema::DataType),
    Float(SerializableOrderedF64),
}

impl View for TextPiece {
    type V = TextPieceView;

    open spec fn view(&self) -> TextPieceView {
        match self {
            TextPiece::Text(s) => TextPieceView::Text(s@),
            TextPiece::DataType(d) => TextPieceView::DataType(*d),
            TextPiece::Float(x) => TextPieceView::Float(*x),
        }
    }
}

/// The models of the pieces, in order.
pub open spec fn text_piece_views(pieces: Seq<TextPiece>) -> Seq<TextPieceView> {
    pieces.map_values(|p: TextPiece| p@)
}

/// The plain text `s` as a piece.
pub open spec fn text(s: Seq<char>) -> TextPieceView {
    TextPieceView::Text(s)
}

/// The kind of a predicate node as `{:?}` writes it: the variant's name, followed by
/// what it holds in brackets.
pub open spec fn predicate_type_pieces(t: PredicateType) -> Seq<TextPieceView> {
    match t {
        PredicateType::List => seq![text("List"@)],
        PredicateType::Constant(c) => seq![text("Constant("@ + constant_type_name(c) + ")"@)],
        PredicateType::AttrIndex => seq![text("AttrIndex"@)],
        PredicateType::Id => seq![text("Id"@)],
        PredicateType::AttributeRef => seq![text("AttributeRef"@)],
        PredicateType::UnOp(o) => seq![text("UnOp("@ + un_op_name(o) + ")"@)],
        PredicateType::BinOp(o) => seq![text("BinOp("@ + bin_op_name(o) + ")"@)],
        PredicateType::LogOp(o) => seq![text("LogOp("@ + log_op_name(o) + ")"@)],
        PredicateType::SortOrder(o) => seq![text("SortOrder("@ + sort_order_name(o) + ")"@)],
        PredicateType::Between => seq![text("Between"@)],
        PredicateType::Cast => seq![text("Cast"@)],
        PredicateType::Like => seq![text("Like"@)],
        PredicateType::DataType(d) => seq![
            text("DataType("@),
            TextPieceView::DataType(d),
            text(")"@),
        ],
        PredicateType::InList => seq![text("InList"@)],
    }
}

/// A value as `{}` writes it: a float followed by `(float)`, any other value as
/// [`value_text`] gives it.
pub open spec fn value_pieces(v: ValueModel) -> Seq<TextPieceView> {
    match v {
        ValueModel::Float(x) => seq![TextPieceView::Float(x), text("(float)"@)],
        _ => seq![text(value_text(v))],
    }
}

/// A predicate tree as `{}` writes it: in brackets, the node's kind, then each child
/// after a space, then the node's data, if any, after a space.
pub open spec fn node_pieces(node: PredicateNode) -> Seq<TextPieceView>
    decreases node,
{
    seq![text("("@)] + predicate_type_pieces(node.typ) + children_pieces(node.children@)
        + match node.data {
        Some(v) => seq![text(" "@)] + value_pieces(v@),
        None => Seq::empty(),
    } + seq![text(")"@)]
}

/// The children of a node, each after a space.
pub open spec fn children_pieces(children: Seq<ArcPredicateNode>) -> Seq<TextPieceView>
    decreases children,
{
    if children.len() == 0 {
        Seq::empty()
    } else {
        children_pieces(children.drop_last()) + seq![text(" "@)] + node_pieces(
            *children.last(),
        )
    }
}

/// The text of a tree opens with a bracket and the node's kind, and closes with a
/// bracket; where the node holds data, the text ends with a space, the data's text and
/// the closing bracket, whatever its children are. So a node with data reads differently
/// from the same node without it.
pub proof fn lemma_node_text_shape(node: PredicateNode)
    ensures
        node_pieces(node).take(1 + predicate_type_pieces(node.typ).len() as int) == seq![text("("@)]
            + predicate_type_pieces(node.typ),
        node_pieces(node).last() == text(")"@),
        node.data matches Some(v) ==> node_pieces(node).skip(
            node_pieces(node).len() - (value_pieces(v@).len() + 2),
        ) == seq![text(" "@)] + value_pieces(v@) + seq![text(")"@)],
        node.data matches Some(v) ==> node_pieces(node) != node_pieces(
            PredicateNode { data: None, ..node },
        ),
{
    let head = seq![text("("@)] + predicate_type_pieces(node.typ);
    let kids = children_pieces(node.children@);
    let all = node_pieces(node);
    assert(all.take(head.len() as int) =~= head);
    match node.data {
        Some(v) => {
            let tail = seq![text(" "@)] + value_pieces(v@) + seq![text(")"@)];
            assert(all =~= head + kids + tail);
            assert(all.skip(all.len() - tail.len()) =~= tail);
            let bare = PredicateNode { data: None, ..node };
            assert(node_pieces(bare) =~= head + kids + seq![text(")"@)]);
            assert(node_pieces(bare).len() < all.len());
        },
        None => {},
    }
}

/// The text of the child at position `i`.
spec fn child_pieces(children: Seq<ArcPredicateNode>, i: int) -> Seq<TextPieceView> {
    node_pieces(*children[i])
}

/// The text of the children holds the text of each child after a space, in the order
/// of the children: the text of child `i` comes after the texts of the children before
/// it.
pub proof fn lemma_children_text(children: Seq<ArcPredicateNode>, i: int)
    requires
        0 <= i < children.len(),
    ensures
        exists|after: Seq<TextPieceView>|
            children_pieces(children) == children_pieces(children.take(i)) + seq![text(" "@)]
                + node_pieces(*children[i]) + after,
    decreases children.len(),
{
    let prev = children.drop_last();
    if i == children.len() - 1 {
        assert(children.take(i) =~= prev);
        let after = Seq::<TextPieceView>::empty();
        assert(children_pieces(children) =~= children_pieces(children.take(i)) + seq![text(" "@)]
            + node_pieces(*children[i]) + after);
    } else {
        lemma_children_text(prev, i);
        let after0 = choose|after: Seq<TextPieceView>|
            children_pieces(prev) == children_pieces(prev.take(i)) + seq![text(" "@)]
                + node_pieces(*prev[i]) + after;
        assert(prev.take(i) =~= children.take(i));
        assert(prev[i] == children[i]);
        let after = after0 + seq![text(" "@)] + child_pieces(children, children.len() - 1);
        assert(children_pieces(children) =~= children_pieces(children.take(i)) + seq![text(" "@)]
            + node_pieces(*children[i]) + after);
    }
}

/// The text of a tree holds the text of each child of its root after a space, in the
/// order of the children, between the root's kind and its data.
pub proof fn lemma_node_text_children(node: PredicateNode, i: int)
    requires
        0 <= i < node.children@.len(),
    ensures
        exists|after: Seq<TextPieceView>|
            node_pieces(node) == seq![text("("@)] + predicate_type_pieces(node.typ)
                + children_pieces(node.children@.take(i)) + seq![text(" "@)] + node_pieces(
                *node.children@[i],
            ) + after,
{
    lemma_children_text(node.children@, i);
    let cs = node.children@;
    let after0 = choose|after: Seq<TextPieceView>|
        children_pieces(cs) == children_pieces(cs.take(i)) + seq![text(" "@)] + node_pieces(
            *cs[i],
        ) + after;
    let tail = match node.data {
        Some(v) => seq![text(" "@)] + value_pieces(v@),
        None => Seq::empty(),
    } + seq![text(")"@)];
    let after = after0 + tail;
    assert(node_pieces(node) =~= seq![text("("@)] + predicate_type_pieces(node.typ)
        + children_pieces(cs.take(i)) + seq![text(" "@)] + node_pieces(*cs[i]) + after);
}

/// Appends the plain text `s`.
fn push_text(out: &mut Vec<TextPiece>, s: &str)
    ensures
        text_piece_views(final(out)@) == text_piece_views(old(out)@) + seq![text(s@)],
{
    out.push(TextPiece::Text(String::from_str(s)));
    assert(text_piece_views(out@) =~= text_piece_views(old(out)@) + seq![text(s@)]);
}

/// Appends the pieces `pieces`.
fn push_pieces(out: &mut Vec<TextPiece>, pieces: Vec<TextPiece>)
    ensures
        text_piece_views(final(out)@) == text_piece_views(old(out)@) + text_piece_views(pieces@),
{
    let mut pieces = pieces;
    let ghost added = text_piece_views(pieces@);
    let ghost before = text_piece_views(out@);
    out.append(&mut pieces);
    assert(text_piece_views(out@) =~= before + added);
}

impl PredicateType {
    /// The kind as `{:?}` writes it; see [`predicate_type_pieces`].
    pub fn text_pieces(&self) -> (res: Vec<TextPiece>)
        ensures
            text_piece_views(res@) == predicate_type_pieces(*self),
    {
        let mut out: Vec<TextPiece> = Vec::new();
        let one = match self {
            PredicateType::List => String::from_str("List"),
            PredicateType::Constant(c) => String::from_str("Constant(").concat(
                c.debug_name().as_str(),
            ).concat(")"),
            PredicateType::AttrIndex => String::from_str("AttrIndex"),
            PredicateType::Id => String::from_str("Id"),
            PredicateType::AttributeRef => String::from_str("AttributeRef"),
            PredicateType::UnOp(o) => String::from_str("UnOp(").concat(o.to_string().as_str()).concat(
                ")",
            ),
            PredicateType::BinOp(o) => String::from_str("BinOp(").concat(
                o.to_string().as_str(),
            ).concat(")"),
            PredicateType::LogOp(o) => String::from_str("LogOp(").concat(
                o.to_string().as_str(),
            ).concat(")"),
            PredicateType::SortOrder(o) => String::from_str("SortOrder(").concat(
                o.to_string().as_str(),
            ).concat(")"),
            PredicateType::Between => String::from_str("Between"),
            PredicateType::Cast => String::from_str("Cast"),
            PredicateType::Like => String::from_str("Like"),
            PredicateType::DataType(d) => {
                out.push(TextPiece::Text(String::from_str("DataType(")));
                out.push(TextPiece::DataType(d.clone()));
                out.push(TextPiece::Text(String::from_str(")")));
                assert(text_piece_views(out@) =~= predicate_type_pieces(*self));
                return out;
            },
            PredicateType::InList => String::from_str("InList"),
        };
        out.push(TextPiece::Text(one));
        assert(text_piece_views(out@) =~= predicate_type_pieces(*self));
        out
    }
}

impl Value {
    /// The value as `{}` writes it; see [`value_pieces`].
    pub fn text_pieces(&self) -> (res: Vec<TextPiece>)
        ensures
            text_piece_views(res@) == value_pieces(self@),
    {
        let mut out: Vec<TextPiece> = Vec::new();
        match self {
            Value::Float(x) => {
                out.push(TextPiece::Float(*x));
                push_text(&mut out, "(float)");
            },
            _ => {
                out.push(TextPiece::Text(self.to_string()));
            },
        }
        assert(text_piece_views(out@) =~= value_pieces(self@));
        out
    }
}

impl PredicateNode {
    /// Appends the pieces of the tree rooted at this node.
    fn push_text_pieces(&self, out: &mut Vec<TextPiece>)
        ensures
            text_piece_views(final(out)@) == text_piece_views(old(out)@) + node_pieces(*self),
        decreases *self,
    {
        let ghost start = text_piece_views(out@);
        push_text(out, "(");
        push_pieces(out, self.typ.text_pieces());
        let ghost head = start + seq![text("("@)] + predicate_type_pieces(self.typ);
        assert(text_piece_views(out@) =~= head);
        let n = self.children.len();
        let mut i: usize = 0;
        assert(self.children@.take(0) =~= Seq::<ArcPredicateNode>::empty());
        while i < n
            invariant
                n == self.children.len(),
                i <= n,
                text_piece_views(out@) == head + children_pieces(self.children@.take(i as int)),
            decreases n - i,
        {
            push_text(out, " ");
            let child: &PredicateNode = &self.children[i];
            assert(decreases_to!(*self => self.children@[i as int]));
            child.push_text_pieces(out);
            let ghost taken = self.children@.take(i + 1);
            assert(taken.drop_last() =~= self.children@.take(i as int));
            assert(taken.last() == self.children@[i as int]);
            assert(text_piece_views(out@) =~= head + children_pieces(taken));
            i = i + 1;
        }
        assert(self.children@.take(n as int) =~= self.children@);
        let ghost mid = text_piece_views(out@);
        match &self.data {
            Some(v) => {
                push_text(out, " ");
                push_pieces(out, v.text_pieces());
            },
            None => {},
        }
        push_text(out, ")");
        assert(text_piece_views(out@) =~= start + node_pieces(*self));
    }

    /// The tree rooted at this node as `{}` writes it; see [`node_pieces`].
    pub fn text_pieces(&self) -> (res: Vec<TextPiece>)
        ensures
            text_piece_views(res@) == node_pieces(*self),
    {
        let mut out: Vec<TextPiece> = Vec::new();
        self.push_text_pieces(&mut out);
        assert(text_piece_views(out@) =~= Seq::<TextPieceView>::empty() + node_pieces(*self));
        out
    }
}

} // verus!
