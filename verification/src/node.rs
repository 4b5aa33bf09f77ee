//! The two shapes of a syntax tree node, a terminal that holds one token and
//! a composite that holds an ordered list of children, and what every node
//! derives from them: its span and the comments around it.

use vstd::prelude::*;
use crate::values::ValueNodeTrait;
use crate::source_pos::{clone_comments, comment_views, Comment, CommentView, PosRange, PosRangeView, SourcePos, SourcePosView};

verus! {

/// Mathematical model of one token: where it stands, what precedes it, its
/// text, and the comments attached in front of it and behind it.
pub struct TerminalView {
    pub range: PosRangeView,
    pub leading_whitespace: Seq<char>,
    pub raw: Seq<char>,
    pub leading_comments: Seq<CommentView>,
    pub trailing_comments: Seq<CommentView>,
}

impl TerminalView {
    /// The source text of the token: the whitespace in front of it, then
    /// its raw text.
    pub open spec fn text(self) -> Seq<char> {
        self.leading_whitespace + self.raw
    }

    /// The token without the leading comment that was queued last.
    pub open spec fn pop_leading(self) -> TerminalView {
        TerminalView { leading_comments: self.leading_comments.drop_last(), ..self }
    }

    /// The token with `c` behind its trailing comments.
    pub open spec fn push_trailing(self, c: CommentView) -> TerminalView {
        TerminalView { trailing_comments: self.trailing_comments.push(c), ..self }
    }
}

/// Mathematical model of a syntax tree: a token, or the trees of a
/// composite's children in source order.
pub enum NodeView {
    Terminal(TerminalView),
    Composite(Seq<NodeView>),
}

impl NodeView {
    /// No composite, at any depth, is without children.
    pub open spec fn well_formed(self) -> bool
        decreases self,
    {
        match self {
            NodeView::Terminal(_) => true,
            NodeView::Composite(children) => children.len() > 0 && forall|i: int|
                0 <= i < children.len() ==> (#[trigger] children[i]).well_formed(),
        }
    }

    /// The token that the tree begins with.
    pub open spec fn first_leaf(self) -> TerminalView
        decreases self,
    {
        match self {
            NodeView::Terminal(t) => t,
            NodeView::Composite(children) => if children.len() > 0 {
                children[0].first_leaf()
            } else {
                arbitrary()
            },
        }
    }

    /// The token that the tree ends with.
    pub open spec fn last_leaf(self) -> TerminalView
        decreases self,
    {
        match self {
            NodeView::Terminal(t) => t,
            NodeView::Composite(children) => if children.len() > 0 {
                children[children.len() - 1].last_leaf()
            } else {
                arbitrary()
            },
        }
    }

    pub open spec fn start(self) -> SourcePosView {
        self.first_leaf().range.start
    }

    pub open spec fn end(self) -> SourcePosView {
        self.last_leaf().range.end
    }

    pub open spec fn leading_comments(self) -> Seq<CommentView> {
        self.first_leaf().leading_comments
    }

    pub open spec fn trailing_comments(self) -> Seq<CommentView> {
        self.last_leaf().trailing_comments
    }

    /// The tokens of the tree, in source order.
    pub open spec fn leaves(self) -> Seq<TerminalView>
        decreases self,
    {
        match self {
            NodeView::Terminal(t) => seq![t],
            NodeView::Composite(children) => leaves_of(children),
        }
    }

    /// The source text that the tree stands for: child after child, down
    /// to the tokens, each with the whitespace in front of it.
    pub open spec fn text(self) -> Seq<char>
        decreases self,
    {
        match self {
            NodeView::Terminal(t) => t.text(),
            NodeView::Composite(children) => text_of(children),
        }
    }
}

/// The tokens of a list of trees, in source order.
pub open spec fn leaves_of(nodes: Seq<NodeView>) -> Seq<TerminalView>
    decreases nodes,
{
    if nodes.len() == 0 {
        Seq::empty()
    } else {
        leaves_of(nodes.drop_last()) + nodes.last().leaves()
    }
}

/// The source text of a list of trees, one after the other.
pub open spec fn text_of(nodes: Seq<NodeView>) -> Seq<char>
    decreases nodes,
{
    if nodes.len() == 0 {
        Seq::empty()
    } else {
        text_of(nodes.drop_last()) + nodes.last().text()
    }
}

/// The source text of a list of tokens: each token's leading whitespace and
/// raw text, one token after the other.
pub open spec fn tokens_text(tokens: Seq<TerminalView>) -> Seq<char>
    decreases tokens.len(),
{
    if tokens.len() == 0 {
        Seq::empty()
    } else {
        tokens_text(tokens.drop_last()) + tokens.last().text()
    }
}

proof fn lemma_tokens_text_concat(a: Seq<TerminalView>, b: Seq<TerminalView>)
    ensures
        tokens_text(a + b) == tokens_text(a) + tokens_text(b),
    decreases b.len(),
{
    if b.len() == 0 {
        assert(a + b =~= a);
    } else {
        lemma_tokens_text_concat(a, b.drop_last());
        assert((a + b).drop_last() =~= a + b.drop_last());
        assert((a + b).last() == b.last());
    }
}

/// The text of a tree is the text of its tokens in source order, and so
/// is the text of a list of trees.
pub proof fn lemma_text_of_leaves(tree: NodeView)
    ensures
        tree.text() == tokens_text(tree.leaves()),
    decreases tree,
{
    match tree {
        NodeView::Terminal(t) => {
            reveal_with_fuel(tokens_text, 2);
            assert(seq![t].drop_last() =~= Seq::<TerminalView>::empty());
            assert(tokens_text(seq![t]) =~= t.text());
        },
        NodeView::Composite(children) => {
            lemma_text_of_leaves_of(children);
        },
    }
}

proof fn lemma_text_of_leaves_of(nodes: Seq<NodeView>)
    ensures
        text_of(nodes) == tokens_text(leaves_of(nodes)),
    decreases nodes,
{
    if nodes.len() > 0 {
        lemma_text_of_leaves_of(nodes.drop_last());
        lemma_text_of_leaves(nodes.last());
        lemma_tokens_text_concat(leaves_of(nodes.drop_last()), nodes.last().leaves());
    }
}

proof fn lemma_span_of_leaves_of(nodes: Seq<NodeView>)
    requires
        nodes.len() > 0,
        all_well_formed(nodes),
    ensures
        leaves_of(nodes).len() > 0,
        leaves_of(nodes).first() == nodes.first().first_leaf(),
        leaves_of(nodes).last() == nodes.last().last_leaf(),
    decreases nodes,
{
    lemma_span_of_leaves(nodes.last());
    if nodes.len() == 1 {
        assert(leaves_of(nodes.drop_last()) =~= Seq::<TerminalView>::empty());
        assert(leaves_of(nodes) =~= nodes.last().leaves());
    } else {
        assert(all_well_formed(nodes.drop_last())) by {
            assert forall|i: int| 0 <= i < nodes.drop_last().len() implies (
            #[trigger] nodes.drop_last()[i]).well_formed() by {
                assert(nodes[i].well_formed());
            }
        }
        lemma_span_of_leaves_of(nodes.drop_last());
    }
}

/// The span of a tree without empty composites is the span of its tokens:
/// it has at least one token, it begins with the first of them and ends
/// with the last.
pub proof fn lemma_span_of_leaves(tree: NodeView)
    requires
        tree.well_formed(),
    ensures
        tree.leaves().len() > 0,
        tree.first_leaf() == tree.leaves().first(),
        tree.last_leaf() == tree.leaves().last(),
        tree.start() == tree.leaves().first().range.start,
        tree.end() == tree.leaves().last().range.end,
    decreases tree,
{
    match tree {
        NodeView::Terminal(t) => {},
        NodeView::Composite(children) => {
            lemma_span_of_leaves_of(children);
        },
    }
}

/// Round trip. A tree whose tokens, in source order, are the tokens that a
/// piece of source was cut into gives that piece back as its text.
pub proof fn lemma_round_trip(tree: NodeView, source: Seq<char>)
    requires
        source == tokens_text(tree.leaves()),
    ensures
        tree.text() == source,
{
    lemma_text_of_leaves(tree);
}

/// A composite with children starts where its first child starts and ends
/// where its last child ends; the comments in front of it are those of its
/// first child, the comments behind it those of its last. This holds of a
/// composite at any depth, so it leads from the root down to the tokens.
pub proof fn lemma_composite_span(children: Seq<NodeView>)
    requires
        children.len() > 0,
    ensures
        NodeView::Composite(children).start() == children.first().start(),
        NodeView::Composite(children).end() == children.last().end(),
        NodeView::Composite(children).leading_comments() == children.first().leading_comments(),
        NodeView::Composite(children).trailing_comments() == children.last().trailing_comments(),
{
}

/// When the leading comment that was queued last on the token `u` is
/// taken back and attached behind the token `t` in front of it, the
/// comments between the two tokens stay the same, each as often as before:
/// none is dropped and none stands on both sides.
pub proof fn lemma_reattach_keeps_comments(t: TerminalView, u: TerminalView)
    requires
        u.leading_comments.len() > 0,
    ensures
        t.push_trailing(u.leading_comments.last()).trailing_comments.to_multiset().add(
            u.pop_leading().leading_comments.to_multiset(),
        ) == t.trailing_comments.to_multiset().add(u.leading_comments.to_multiset()),
        t.push_trailing(u.leading_comments.last()).trailing_comments.len()
            + u.pop_leading().leading_comments.len() == t.trailing_comments.len()
            + u.leading_comments.len(),
        t.push_trailing(u.leading_comments.last()).leading_comments == t.leading_comments,
        u.pop_leading().trailing_comments == u.trailing_comments,
{
    let c = u.leading_comments.last();
    let rest = u.leading_comments.drop_last();
    assert(u.leading_comments =~= rest.push(c));
    t.trailing_comments.to_multiset_ensures();
    rest.to_multiset_ensures();
    assert(t.trailing_comments.push(c).to_multiset() =~= t.trailing_comments.to_multiset().insert(
        c,
    ));
    assert(rest.push(c).to_multiset() =~= rest.to_multiset().insert(c));
    assert(t.trailing_comments.to_multiset().insert(c).add(rest.to_multiset())
        =~= t.trailing_comments.to_multiset().add(rest.to_multiset().insert(c)));
}

/// One source token: its raw text, its span, the whitespace in front of it
/// and the comments attached to it.
#[derive(Debug)]
pub struct TerminalNode {
    pos_range: PosRange,
    leading_comments: Vec<Comment>,
    leading_whitespace: String,
    trailing_comments: Vec<Comment>,
    raw: String,
}

impl View for TerminalNode {
    type V = TerminalView;

    closed spec fn view(&self) -> TerminalView {
        TerminalView {
            range: self.pos_range@,
            leading_whitespace: self.leading_whitespace@,
            raw: self.raw@,
            leading_comments: comment_views(self.leading_comments@),
            trailing_comments: comment_views(self.trailing_comments@),
        }
    }
}

impl Clone for TerminalNode {
    fn clone(&self) -> (res: Self)
        ensures
            res@ == self@,
    {
        TerminalNode {
            pos_range: self.pos_range.clone(),
            leading_comments: clone_comments(&self.leading_comments),
            leading_whitespace: self.leading_whitespace.clone(),
            trailing_comments: clone_comments(&self.trailing_comments),
            raw: self.raw.clone(),
        }
    }
}

/// A node of the tree: a terminal, or a composite with its children.
#[derive(Debug)]
pub enum Node {
    Terminal(TerminalNode),
    Composite(CompositeNode),
}

/// An ordered list of children that stands for one grammar production.
#[derive(Debug)]
pub struct CompositeNode {
    children: Vec<Node>,
}

impl View for Node {
    type V = NodeView;

    open spec fn view(&self) -> NodeView
        decreases self,
    {
        match self {
            Node::Terminal(t) => NodeView::Terminal(t@),
            Node::Composite(c) => NodeView::Composite(c@),
        }
    }
}

impl View for CompositeNode {
    type V = Seq<NodeView>;

    closed spec fn view(&self) -> Seq<NodeView>
        decreases self,
    {
        Seq::new(
            self.children@.len(),
            |i: int|
                if 0 <= i < self.children@.len() {
                    self.children@[i]@
                } else {
                    arbitrary()
                },
        )
    }
}


/// The models of a sequence of nodes, in order.
pub open spec fn node_views(nodes: Seq<Node>) -> Seq<NodeView> {
    nodes.map_values(|n: Node| n@)
}

/// A copy of `nodes`, tree for tree.
pub fn clone_nodes(nodes: &Vec<Node>) -> (res: Vec<Node>)
    ensures
        node_views(res@) == node_views(nodes@),
    decreases nodes,
{
    let mut res: Vec<Node> = Vec::new();
    let mut i: usize = 0;
    while i < nodes.len()
        invariant
            i <= nodes.len(),
            res.len() == i,
            forall|j: int| 0 <= j < i ==> res[j]@ == nodes[j]@,
        decreases nodes.len() - i,
    {
        assert(decreases_to!(nodes => nodes[i as int]));
        res.push(nodes[i].clone());
        i += 1;
    }
    assert(node_views(res@) =~= node_views(nodes@));
    res
}

impl Clone for Node {
    fn clone(&self) -> (res: Self)
        ensures
            res@ == self@,
        decreases self,
    {
        match self {
            Node::Terminal(t) => Node::Terminal(t.clone()),
            Node::Composite(c) => Node::Composite(c.clone()),
        }
    }
}

impl Clone for CompositeNode {
    fn clone(&self) -> (res: Self)
        ensures
            res@ == self@,
        decreases self,
    {
        let res = CompositeNode { children: clone_nodes(&self.children) };
        proof {
            self.lemma_view();
            res.lemma_view();
        }
        res
    }
}

impl CompositeNode {
    /// The model of a composite is the list of its children's models.
    proof fn lemma_view(&self)
        ensures
            self@ == node_views(self.children@),
    {
        assert(self@ =~= node_views(self.children@));
    }
}

impl Node {
    fn first_terminal(&self) -> (res: &TerminalNode)
        requires
            self@.well_formed(),
        ensures
            res@ == self@.first_leaf(),
        decreases self,
    {
        match self {
            Node::Terminal(t) => t,
            Node::Composite(c) => {
                assert(c@[0] == c.children@[0]@);
                c.children[0].first_terminal()
            },
        }
    }

    /// Appends the source text of the tree to `out`.
    fn append_text(&self, out: &mut String)
        ensures
            final(out)@ == old(out)@ + self@.text(),
        decreases self,
    {
        match self {
            Node::Terminal(t) => {
                out.append(t.leading_whitespace.as_str());
                out.append(t.raw.as_str());
                assert(out@ =~= old(out)@ + self@.text());
            },
            Node::Composite(c) => c.append_text(out),
        }
    }

    /// Whether the tree has a span: whether no composite in it, at any
    /// depth, is without children.
    pub fn is_well_formed(&self) -> (res: bool)
        ensures
            res == self@.well_formed(),
        decreases self,
    {
        match self {
            Node::Terminal(_) => true,
            Node::Composite(c) => c.is_well_formed(),
        }
    }

    fn last_terminal(&self) -> (res: &TerminalNode)
        requires
            self@.well_formed(),
        ensures
            res@ == self@.last_leaf(),
        decreases self,
    {
        match self {
            Node::Terminal(t) => t,
            Node::Composite(c) => {
                let last = c.children.len() - 1;
                assert(c@[last as int] == c.children@[last as int]@);
                c.children[last].last_terminal()
            },
        }
    }
}

/// What every node of the tree answers: where it starts and ends, and which
/// comments stand in front of it and behind it.
pub trait NodeTrait {
    /// The tree of tokens that the node stands for.
    spec fn node_view(&self) -> NodeView;

    /// The node has a span: no composite in it, at any depth, is without
    /// children. A node that a constructor has built always has one.
    spec fn has_span(&self) -> bool;

    /// The token that the node begins with.
    fn first_token(&self) -> (res: &TerminalNode)
        requires
            self.has_span(),
        ensures
            res@ == self.node_view().first_leaf(),
    ;

    /// The token that the node ends with.
    fn last_token(&self) -> (res: &TerminalNode)
        requires
            self.has_span(),
        ensures
            res@ == self.node_view().last_leaf(),
    ;

    /// The node as a child of a composite.
    fn as_node_trait(&self) -> (res: Node)
        ensures
            res@ == self.node_view(),
            self.has_span() ==> res@.well_formed(),
    ;

    /// Where the first token of the node starts.
    fn start(&self) -> (res: &SourcePos)
        requires
            self.has_span(),
        ensures
            res@ == self.node_view().start(),
    {
        &self.first_token().pos_range.start
    }

    /// Where the last token of the node ends.
    fn end(&self) -> (res: &SourcePos)
        requires
            self.has_span(),
        ensures
            res@ == self.node_view().end(),
    {
        &self.last_token().pos_range.end
    }

    /// The comments in front of the first token of the node.
    fn leading_comments(&self) -> (res: Vec<Comment>)
        requires
            self.has_span(),
        ensures
            comment_views(res@) == self.node_view().leading_comments(),
    {
        clone_comments(&self.first_token().leading_comments)
    }

    /// The comments behind the last token of the node.
    fn trailing_comments(&self) -> (res: Vec<Comment>)
        requires
            self.has_span(),
        ensures
            comment_views(res@) == self.node_view().trailing_comments(),
    {
        clone_comments(&self.last_token().trailing_comments)
    }

    /// The source text that the node spans, rebuilt from its tokens.
    fn text(&self) -> (res: String)
        ensures
            res@ == self.node_view().text(),
    {
        let mut out = String::new();
        self.as_node_trait().append_text(&mut out);
        out
    }
}

impl NodeTrait for TerminalNode {
    open spec fn node_view(&self) -> NodeView {
        NodeView::Terminal(self@)
    }

    open spec fn has_span(&self) -> bool {
        true
    }

    fn first_token(&self) -> (res: &TerminalNode) {
        self
    }

    fn last_token(&self) -> (res: &TerminalNode) {
        self
    }

    fn as_node_trait(&self) -> (res: Node) {
        Node::Terminal(self.clone())
    }
}

impl NodeTrait for Node {
    open spec fn node_view(&self) -> NodeView {
        self@
    }

    open spec fn has_span(&self) -> bool {
        self@.well_formed()
    }

    fn first_token(&self) -> (res: &TerminalNode) {
        self.first_terminal()
    }

    fn last_token(&self) -> (res: &TerminalNode) {
        self.last_terminal()
    }

    fn as_node_trait(&self) -> (res: Node) {
        self.clone()
    }
}

impl NodeTrait for CompositeNode {
    open spec fn node_view(&self) -> NodeView {
        NodeView::Composite(self@)
    }

    open spec fn has_span(&self) -> bool {
        NodeView::Composite(self@).well_formed()
    }

    fn first_token(&self) -> (res: &TerminalNode) {
        assert(self@[0] == self.children@[0]@);
        self.children[0].first_terminal()
    }

    fn last_token(&self) -> (res: &TerminalNode) {
        let last = self.children.len() - 1;
        assert(self@[last as int] == self.children@[last as int]@);
        self.children[last].last_terminal()
    }

    fn as_node_trait(&self) -> (res: Node) {
        Node::Composite(self.clone())
    }
}


impl TerminalNode {
    /// A token at `pos_range` with no text, no whitespace and no comments
    /// yet.
    pub fn new(pos_range: PosRange) -> (res: Self)
        ensures
            res@ == (TerminalView {
                range: pos_range@,
                leading_whitespace: Seq::empty(),
                raw: Seq::empty(),
                leading_comments: Seq::empty(),
                trailing_comments: Seq::empty(),
            }),
    {
        let res = TerminalNode {
            leading_comments: Vec::new(),
            trailing_comments: Vec::new(),
            leading_whitespace: String::new(),
            raw: String::new(),
            pos_range,
        };
        assert(res@.leading_comments =~= Seq::empty());
        assert(res@.trailing_comments =~= Seq::empty());
        res
    }

    pub fn set_leading_comments(&mut self, c: Vec<Comment>) -> (res: &mut Self)
        ensures
            res@ == (TerminalView { leading_comments: comment_views(c@), ..old(self)@ }),
            *final(self) == *final(res),
    {
        self.leading_comments = c;
        self
    }

    pub fn set_trailing_comments(&mut self, c: Vec<Comment>) -> (res: &mut Self)
        ensures
            res@ == (TerminalView { trailing_comments: comment_views(c@), ..old(self)@ }),
            *final(self) == *final(res),
    {
        self.trailing_comments = c;
        self
    }

    pub fn set_leading_whitespace(&mut self, lw: &str) -> (res: &mut Self)
        ensures
            res@ == (TerminalView { leading_whitespace: lw@, ..old(self)@ }),
            *final(self) == *final(res),
    {
        self.leading_whitespace = lw.to_owned();
        self
    }

    pub fn set_raw(&mut self, raw: &str) -> (res: &mut Self)
        ensures
            res@ == (TerminalView { raw: raw@, ..old(self)@ }),
            *final(self) == *final(res),
    {
        self.raw = raw.to_owned();
        self
    }

    /// The span of the token.
    pub fn pos_range(&self) -> (res: &PosRange)
        ensures
            res@ == self@.range,
    {
        &self.pos_range
    }
}

/// What a terminal answers beyond the span and comments of every node: its
/// text, and the two moves by which comments are attached to it.
pub trait TerminalNodeTrait: NodeTrait {
    /// The token that the terminal holds.
    spec fn terminal_view(&self) -> TerminalView;

    /// Takes back the leading comment that was queued last, if there is
    /// one, and leaves the rest of the token as it was.
    fn pop_leading_comment(&mut self) -> (res: Option<Comment>)
        ensures
            match res {
                Some(c) => {
                    &&& old(self).terminal_view().leading_comments.len() > 0
                    &&& c@ == old(self).terminal_view().leading_comments.last()
                    &&& final(self).terminal_view() == old(self).terminal_view().pop_leading()
                },
                None => {
                    &&& old(self).terminal_view().leading_comments.len() == 0
                    &&& final(self).terminal_view() == old(self).terminal_view()
                },
            },
    ;

    /// Attaches `c` behind the trailing comments that are there.
    fn push_trailing_comment(&mut self, c: Comment)
        ensures
            final(self).terminal_view() == old(self).terminal_view().push_trailing(c@),
    ;

    fn leading_whitespace(&self) -> (res: &str)
        ensures
            res@ == self.terminal_view().leading_whitespace,
    ;

    fn raw_text(&self) -> (res: &str)
        ensures
            res@ == self.terminal_view().raw,
    ;
}

impl TerminalNodeTrait for TerminalNode {
    open spec fn terminal_view(&self) -> TerminalView {
        self@
    }

    fn pop_leading_comment(&mut self) -> (res: Option<Comment>) {
        let res = self.leading_comments.pop();
        if res.is_some() {
            assert(comment_views(self.leading_comments@) =~= comment_views(
                old(self).leading_comments@,
            ).drop_last());
        }
        res
    }

    fn push_trailing_comment(&mut self, c: Comment) {
        self.trailing_comments.push(c);
        assert(comment_views(self.trailing_comments@) =~= comment_views(
            old(self).trailing_comments@,
        ).push(c@));
    }

    fn leading_whitespace(&self) -> (res: &str) {
        self.leading_whitespace.as_str()
    }

    fn raw_text(&self) -> (res: &str) {
        self.raw.as_str()
    }
}

/// What the tokenizer knows of one token, before a node is made of it.
#[derive(Debug)]
pub struct TokenInfo {
    pos_range: PosRange,
    raw_text: String,
    leading_comments: Vec<Comment>,
    leading_whitespace: String,
    trailing_comments: Vec<Comment>,
}

impl View for TokenInfo {
    type V = TerminalView;

    closed spec fn view(&self) -> TerminalView {
        TerminalView {
            range: self.pos_range@,
            leading_whitespace: self.leading_whitespace@,
            raw: self.raw_text@,
            leading_comments: comment_views(self.leading_comments@),
            trailing_comments: comment_views(self.trailing_comments@),
        }
    }
}

impl Clone for TokenInfo {
    fn clone(&self) -> (res: Self)
        ensures
            res@ == self@,
    {
        TokenInfo {
            pos_range: self.pos_range.clone(),
            raw_text: self.raw_text.clone(),
            leading_comments: clone_comments(&self.leading_comments),
            leading_whitespace: self.leading_whitespace.clone(),
            trailing_comments: clone_comments(&self.trailing_comments),
        }
    }
}

impl TokenInfo {
    /// A token at `pos_range` with no text, no whitespace and no comments
    /// yet.
    pub fn new(pos_range: PosRange) -> (res: Self)
        ensures
            res@ == (TerminalView {
                range: pos_range@,
                leading_whitespace: Seq::empty(),
                raw: Seq::empty(),
                leading_comments: Seq::empty(),
                trailing_comments: Seq::empty(),
            }),
    {
        let res = TokenInfo {
            pos_range,
            raw_text: String::new(),
            leading_comments: Vec::new(),
            leading_whitespace: String::new(),
            trailing_comments: Vec::new(),
        };
        assert(res@.leading_comments =~= Seq::empty());
        assert(res@.trailing_comments =~= Seq::empty());
        res
    }

    pub fn set_raw_text(&mut self, raw: &str) -> (res: &mut Self)
        ensures
            res@ == (TerminalView { raw: raw@, ..old(self)@ }),
            *final(self) == *final(res),
    {
        self.raw_text = raw.to_owned();
        self
    }

    pub fn set_leading_comments(&mut self, c: Vec<Comment>) -> (res: &mut Self)
        ensures
            res@ == (TerminalView { leading_comments: comment_views(c@), ..old(self)@ }),
            *final(self) == *final(res),
    {
        self.leading_comments = c;
        self
    }

    pub fn set_leading_whitespace(&mut self, lw: &str) -> (res: &mut Self)
        ensures
            res@ == (TerminalView { leading_whitespace: lw@, ..old(self)@ }),
            *final(self) == *final(res),
    {
        self.leading_whitespace = lw.to_owned();
        self
    }

    pub fn set_trailing_comments(&mut self, c: Vec<Comment>) -> (res: &mut Self)
        ensures
            res@ == (TerminalView { trailing_comments: comment_views(c@), ..old(self)@ }),
            *final(self) == *final(res),
    {
        self.trailing_comments = c;
        self
    }

    /// The terminal node that holds this token.
    pub fn as_terminal_node(&self) -> (res: TerminalNode)
        ensures
            res@ == self@,
    {
        TerminalNode {
            pos_range: self.pos_range.clone(),
            leading_comments: clone_comments(&self.leading_comments),
            leading_whitespace: self.leading_whitespace.clone(),
            trailing_comments: clone_comments(&self.trailing_comments),
            raw: self.raw_text.clone(),
        }
    }
}

/// What a composite answers beyond the span and comments of every node.
pub trait CompositeNodeTrait: NodeTrait {
    /// The children of the node, in source order.
    fn children(&self) -> (res: Vec<Node>)
        ensures
            self.node_view() == NodeView::Composite(node_views(res@)),
    ;
}

impl CompositeNodeTrait for CompositeNode {
    fn children(&self) -> (res: Vec<Node>) {
        proof {
            self.lemma_view();
        }
        clone_nodes(&self.children)
    }
}

impl CompositeNode {
    /// Appends the source text of the children, one after the other, to
    /// `out`.
    fn append_text(&self, out: &mut String)
        ensures
            final(out)@ == old(out)@ + text_of(self@),
        decreases self,
    {
        let mut i: usize = 0;
        assert(text_of(self@.take(0)) =~= Seq::<char>::empty());
        while i < self.children.len()
            invariant
                i <= self.children.len(),
                self@.len() == self.children.len(),
                out@ == old(out)@ + text_of(self@.take(i as int)),
            decreases self.children.len() - i,
        {
            assert(decreases_to!(self.children => self.children[i as int]));
            self.children[i].append_text(out);
            proof {
                let upto = self@.take(i as int + 1);
                assert(upto.drop_last() =~= self@.take(i as int));
                assert(upto.last() == self.children@[i as int]@);
            }
            i += 1;
        }
        assert(self@.take(i as int) =~= self@);
    }

    /// Whether the composite has a span: whether it has a child, and no
    /// composite below it, at any depth, is without children.
    pub fn is_well_formed(&self) -> (res: bool)
        ensures
            res == self.has_span(),
        decreases self,
    {
        if self.children.len() == 0 {
            return false;
        }
        let mut i: usize = 0;
        while i < self.children.len()
            invariant
                i <= self.children.len(),
                self@.len() == self.children.len(),
                forall|j: int| 0 <= j < i ==> (#[trigger] self@[j]).well_formed(),
            decreases self.children.len() - i,
        {
            assert(decreases_to!(self.children => self.children[i as int]));
            assert(self@[i as int] == self.children@[i as int]@);
            if !self.children[i].is_well_formed() {
                return false;
            }
            i += 1;
        }
        true
    }

    /// A composite without children. It has no span until a child is
    /// pushed.
    pub fn new() -> (res: Self)
        ensures
            res@ == Seq::<NodeView>::empty(),
    {
        let res = CompositeNode { children: Vec::new() };
        assert(res@ =~= Seq::<NodeView>::empty());
        res
    }

    /// Puts `c` behind the children that are there.
    pub fn push_child(&mut self, c: Node)
        ensures
            final(self)@ == old(self)@.push(c@),
    {
        self.children.push(c);
        assert(self@ =~= old(self)@.push(c@));
    }

    /// Puts the nodes of `c`, in their order, behind the children that are
    /// there.
    pub fn push_children(&mut self, c: Vec<Node>)
        ensures
            final(self)@ == old(self)@ + node_views(c@),
    {
        let mut rest = c;
        self.children.append(&mut rest);
        assert(self@ =~= old(self)@ + node_views(c@));
    }
}


/// The trees that a list of nodes stands for, in order.
pub open spec fn views_of<N: NodeTrait>(nodes: Seq<N>) -> Seq<NodeView> {
    nodes.map_values(|n: N| n.node_view())
}

/// Each tree of the list is well formed.
pub open spec fn all_well_formed(nodes: Seq<NodeView>) -> bool {
    forall|i: int| 0 <= i < nodes.len() ==> (#[trigger] nodes[i]).well_formed()
}

/// Items and the separators between them, alternating and beginning with
/// an item: `items[0], seps[0], items[1], seps[1], ...`. There are as many
/// separators as items, or one less.
pub open spec fn alternate(items: Seq<NodeView>, seps: Seq<NodeView>) -> Seq<NodeView>
    recommends
        seps.len() <= items.len() <= seps.len() + 1,
{
    Seq::new(
        items.len() + seps.len(),
        |k: int|
            if k % 2 == 0 {
                items[k / 2]
            } else {
                seps[k / 2]
            },
    )
}

/// Puts the nodes of `items`, in their order, behind the children of `out`.
pub(crate) fn push_nodes<N: NodeTrait>(out: &mut CompositeNode, items: &Vec<N>)
    requires
        all_well_formed(old(out)@),
        forall|i: int| 0 <= i < items.len() ==> (#[trigger] items[i]).has_span(),
    ensures
        final(out)@ == old(out)@ + views_of(items@),
        all_well_formed(final(out)@),
{
    let mut i: usize = 0;
    while i < items.len()
        invariant
            i <= items.len(),
            forall|j: int| 0 <= j < items.len() ==> (#[trigger] items[j]).has_span(),
            out@ == old(out)@ + views_of(items@).take(i as int),
            all_well_formed(out@),
        decreases items.len() - i,
    {
        let ghost before = out@;
        out.push_child(items[i].as_node_trait());
        proof {
            assert(out@ =~= old(out)@ + views_of(items@).take(i as int + 1));
            assert forall|j: int| 0 <= j < out@.len() implies (#[trigger] out@[j]).well_formed() by {
                if j < before.len() {
                    assert(out@[j] == before[j]);
                }
            }
        }
        i += 1;
    }
    assert(views_of(items@).take(i as int) =~= views_of(items@));
}

/// Puts `items` and `seps`, alternating and beginning with an item, behind
/// the children of `out`.
pub(crate) fn push_alternating<N: NodeTrait, S: NodeTrait>(
    out: &mut CompositeNode,
    items: &Vec<N>,
    seps: &Vec<S>,
)
    requires
        seps.len() <= items.len() <= seps.len() + 1,
        all_well_formed(old(out)@),
        forall|i: int| 0 <= i < items.len() ==> (#[trigger] items[i]).has_span(),
        forall|i: int| 0 <= i < seps.len() ==> (#[trigger] seps[i]).has_span(),
    ensures
        final(out)@ == old(out)@ + alternate(views_of(items@), views_of(seps@)),
        all_well_formed(final(out)@),
{
    let ghost all = alternate(views_of(items@), views_of(seps@));
    let mut i: usize = 0;
    while i < items.len()
        invariant
            i <= items.len(),
            seps.len() <= items.len() <= seps.len() + 1,
            all == alternate(views_of(items@), views_of(seps@)),
            forall|j: int| 0 <= j < items.len() ==> (#[trigger] items[j]).has_span(),
            forall|j: int| 0 <= j < seps.len() ==> (#[trigger] seps[j]).has_span(),
            out@ == old(out)@ + all.take(
                if i <= seps.len() {
                    2 * i
                } else {
                    2 * i - 1
                },
            ),
            all_well_formed(out@),
        decreases items.len() - i,
    {
        let ghost before = out@;
        out.push_child(items[i].as_node_trait());
        let ghost middle = out@;
        proof {
            assert(out@ =~= old(out)@ + all.take(2 * i + 1));
            assert forall|j: int| 0 <= j < out@.len() implies (#[trigger] out@[j]).well_formed() by {
                if j < before.len() {
                    assert(out@[j] == before[j]);
                }
            }
        }
        if i < seps.len() {
            out.push_child(seps[i].as_node_trait());
            proof {
                assert(out@ =~= old(out)@ + all.take(2 * i + 2));
                assert forall|j: int| 0 <= j < out@.len() implies (#[trigger] out@[j]).well_formed() by {
                    if j < middle.len() {
                        assert(out@[j] == middle[j]);
                    }
                }
            }
        }
        i += 1;
    }
    assert(all.take(all.len() as int) =~= all);
}

/// Mathematical model of a node that is one token together with the value
/// decoded from it.
pub struct TokenValueView<V> {
    pub token: TerminalView,
    pub value: V,
}

/// A token of one character that also serves as a value, such as a sign or
/// a separator.
#[derive(Debug)]
pub struct RuneNode {
    terminal_node: TerminalNode,
    rune: char,
}

impl View for RuneNode {
    type V = TokenValueView<char>;

    closed spec fn view(&self) -> TokenValueView<char> {
        TokenValueView { token: self.terminal_node@, value: self.rune }
    }
}

impl Clone for RuneNode {
    fn clone(&self) -> (res: Self)
        ensures
            res@ == self@,
    {
        RuneNode { terminal_node: self.terminal_node.clone(), rune: self.rune }
    }
}

impl RuneNode {
    /// The node for the token `info`, which reads as the character `c`.
    pub fn new(c: char, info: TokenInfo) -> (res: Self)
        ensures
            res@ == (TokenValueView { token: info@, value: c }),
    {
        RuneNode { terminal_node: info.as_terminal_node(), rune: c }
    }

    pub fn rune(&self) -> (res: char)
        ensures
            res == self@.value,
    {
        self.rune
    }
}

impl NodeTrait for RuneNode {
    open spec fn node_view(&self) -> NodeView {
        NodeView::Terminal(self@.token)
    }

    open spec fn has_span(&self) -> bool {
        true
    }

    fn first_token(&self) -> (res: &TerminalNode) {
        &self.terminal_node
    }

    fn last_token(&self) -> (res: &TerminalNode) {
        &self.terminal_node
    }

    fn as_node_trait(&self) -> (res: Node) {
        Node::Terminal(self.terminal_node.clone())
    }
}

impl ValueNodeTrait<char> for RuneNode {
    open spec fn decodes_to(&self, v: char) -> bool {
        v == self@.value
    }

    fn value(self) -> (res: char) {
        self.rune
    }
}

/// A declaration that is nothing but a semicolon.
#[derive(Debug)]
pub struct EmptyDeclNode {
    composite_node: CompositeNode,
    semicolon: RuneNode,
}

impl EmptyDeclNode {
    #[verifier::type_invariant]
    spec fn inv(self) -> bool {
        &&& self.composite_node@ == seq![self.semicolon.node_view()]
        &&& self.composite_node.has_span()
    }

    /// The semicolon that the declaration consists of.
    pub closed spec fn spec_semicolon(&self) -> RuneNode {
        self.semicolon
    }

    pub fn new(semicolon: RuneNode) -> (res: Self)
        ensures
            res.spec_semicolon() == semicolon,
            res.node_view() == NodeView::Composite(seq![semicolon.node_view()]),
    {
        let mut composite_node = CompositeNode::new();
        composite_node.push_child(semicolon.as_node_trait());
        assert(composite_node@ =~= seq![semicolon.node_view()]);
        EmptyDeclNode { composite_node, semicolon }
    }

    pub fn semicolon(&self) -> (res: &RuneNode)
        ensures
            *res == self.spec_semicolon(),
    {
        &self.semicolon
    }
}

impl NodeTrait for EmptyDeclNode {
    closed spec fn node_view(&self) -> NodeView {
        NodeView::Composite(self.composite_node@)
    }

    open spec fn has_span(&self) -> bool {
        true
    }

    fn first_token(&self) -> (res: &TerminalNode) {
        proof {
            use_type_invariant(self);
        }
        self.composite_node.first_token()
    }

    fn last_token(&self) -> (res: &TerminalNode) {
        proof {
            use_type_invariant(self);
        }
        self.composite_node.last_token()
    }

    fn as_node_trait(&self) -> (res: Node) {
        proof {
            use_type_invariant(self);
        }
        self.composite_node.as_node_trait()
    }
}

impl CompositeNodeTrait for EmptyDeclNode {
    fn children(&self) -> (res: Vec<Node>) {
        self.composite_node.children()
    }
}

} // verus!
