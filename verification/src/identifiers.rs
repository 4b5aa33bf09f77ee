//! Identifiers: a single name, or names joined by dots. A keyword is an
//! identifier whose text happens to be reserved.

use vstd::prelude::*;
use crate::error::ConstructionError;
use crate::node::{
    alternate, push_alternating, views_of, CompositeNode, CompositeNodeTrait,
    Node, NodeTrait, NodeView, RuneNode, TerminalNode, TokenInfo, TokenValueView,
};
use crate::values::ValueNodeTrait;

verus! {

/// The text of a name as it stands in the source.
pub type Identifier = String;

/// A keyword has the shape of an identifier.
pub type KeywordNode = IdentNode;

/// A node that reads as an identifier.
pub trait IdentValueNodeTrait: NodeTrait {
    /// The identifier that the node reads as.
    spec fn identifier_view(&self) -> Seq<char>;

    fn as_identifier(&self) -> (res: Identifier)
        ensures
            res@ == self.identifier_view(),
    ;
}

/// A single name: one token and its text.
#[derive(Debug)]
pub struct IdentNode {
    terminal_node: TerminalNode,
    val: String,
}

impl View for IdentNode {
    type V = TokenValueView<Seq<char>>;

    closed spec fn view(&self) -> TokenValueView<Seq<char>> {
        TokenValueView { token: self.terminal_node@, value: self.val@ }
    }
}

impl Clone for IdentNode {
    fn clone(&self) -> (res: Self)
        ensures
            res@ == self@,
    {
        IdentNode { terminal_node: self.terminal_node.clone(), val: self.val.clone() }
    }
}

impl IdentNode {
    /// The node for the token `info`, which reads as the name `val`.
    pub fn new(val: &str, info: TokenInfo) -> (res: Self)
        ensures
            res@ == (TokenValueView { token: info@, value: val@ }),
    {
        IdentNode { terminal_node: info.as_terminal_node(), val: val.to_owned() }
    }

    pub fn as_identifier(self) -> (res: Identifier)
        ensures
            res@ == self@.value,
    {
        self.val
    }

    /// Whether the name is exactly `text`.
    pub fn is(&self, text: &str) -> (res: bool)
        ensures
            res == (self@.value == text@),
    {
        self.val == text.to_owned()
    }

    /// The same node, read as a keyword.
    pub fn to_keyword(self) -> (res: KeywordNode)
        ensures
            res == self,
    {
        self
    }
}

impl NodeTrait for IdentNode {
    open spec fn node_view(&self) -> NodeView {
        NodeView::Terminal(self@.token)
    }

    open spec fn has_span(&self) -> bool {
        true
    }

    fn first_token(&self) -> (res: &TerminalNode) {
        &self.terminal_node
    }

    fn last_token(&self) -> (res: &TerminalNode) {
        &self.terminal_node
    }

    fn as_node_trait(&self) -> (res: Node) {
        Node::Terminal(self.terminal_node.clone())
    }
}

impl ValueNodeTrait<Identifier> for IdentNode {
    open spec fn decodes_to(&self, v: Identifier) -> bool {
        v@ == self@.value
    }

    fn value(self) -> (res: Identifier) {
        self.as_identifier()
    }
}

/// The names of a list of identifiers, in order.
pub open spec fn names_of(components: Seq<IdentNode>) -> Seq<Seq<char>> {
    components.map_values(|c: IdentNode| c@.value)
}

/// The characters of a list of one-character tokens, in order.
pub open spec fn runes_of(runes: Seq<RuneNode>) -> Seq<char> {
    runes.map_values(|r: RuneNode| r@.value)
}

/// The first `n` names, each but the first with its separator in front of
/// it: `names[0] seps[0] names[1] ... seps[n-2] names[n-1]`.
pub open spec fn joined_upto(names: Seq<Seq<char>>, seps: Seq<char>, n: int) -> Seq<char>
    decreases n,
{
    if n <= 0 {
        Seq::empty()
    } else if n == 1 {
        names[0]
    } else {
        joined_upto(names, seps, n - 1) + seq![seps[n - 2]] + names[n - 1]
    }
}

/// What a leading dot, if there is one, puts in front of the rest.
pub open spec fn leading_text(leading_dot: Option<RuneNode>) -> Seq<char> {
    match leading_dot {
        Some(dot) => seq![dot@.value],
        None => Seq::empty(),
    }
}

/// The text of a compound identifier: the leading dot if there is one, then
/// the names with the interior dots between them, exactly as written.
pub open spec fn compound_text(
    leading_dot: Option<RuneNode>,
    components: Seq<IdentNode>,
    dots: Seq<RuneNode>,
) -> Seq<char> {
    leading_text(leading_dot) + joined_upto(
        names_of(components),
        runes_of(dots),
        components.len() as int,
    )
}

/// The children of a compound identifier in source order: the leading dot
/// if there is one, then names and interior dots alternating.
pub open spec fn compound_children(
    leading_dot: Option<RuneNode>,
    components: Seq<IdentNode>,
    dots: Seq<RuneNode>,
) -> Seq<NodeView> {
    (match leading_dot {
        Some(dot) => seq![dot.node_view()],
        None => Seq::empty(),
    }) + alternate(views_of(components), views_of(dots))
}

/// Names joined by dots, with or without a dot in front.
#[derive(Debug)]
pub struct CompoundIdentNode {
    composite_node: CompositeNode,
    leading_dot: Option<RuneNode>,
    components: Vec<IdentNode>,
    dots: Vec<RuneNode>,
    val: String,
}

impl CompoundIdentNode {
    #[verifier::type_invariant]
    spec fn inv(self) -> bool {
        &&& self.components.len() > 0
        &&& self.dots.len() + 1 == self.components.len()
        &&& self.composite_node@ == compound_children(
            self.leading_dot,
            self.components@,
            self.dots@,
        )
        &&& self.composite_node.has_span()
        &&& self.val@ == compound_text(self.leading_dot, self.components@, self.dots@)
    }

    pub closed spec fn spec_leading_dot(&self) -> Option<RuneNode> {
        self.leading_dot
    }

    pub closed spec fn spec_components(&self) -> Seq<IdentNode> {
        self.components@
    }

    pub closed spec fn spec_dots(&self) -> Seq<RuneNode> {
        self.dots@
    }

    /// Builds the identifier from its parts in source order. There must be
    /// at least one name, and one dot between each two names.
    pub fn new(leading_dot: Option<RuneNode>, components: Vec<IdentNode>, dots: Vec<RuneNode>) -> (res:
        Result<Self, ConstructionError>)
        ensures
            match res {
                Ok(node) => {
                    &&& components.len() > 0
                    &&& dots.len() + 1 == components.len()
                    &&& node.spec_leading_dot() == leading_dot
                    &&& node.spec_components() == components@
                    &&& node.spec_dots() == dots@
                    &&& node.node_view() == NodeView::Composite(
                        compound_children(leading_dot, components@, dots@),
                    )
                    &&& node.identifier_view() == compound_text(leading_dot, components@, dots@)
                },
                Err(e) => if components.len() == 0 {
                    e == ConstructionError::NoComponents
                } else {
                    dots.len() + 1 != components.len() && e == ConstructionError::SeparatorMismatch
                },
            },
    {
        if components.len() == 0 {
            return Err(ConstructionError::NoComponents);
        }
        if dots.len() != components.len() - 1 {
            return Err(ConstructionError::SeparatorMismatch);
        }
        let mut composite_node = CompositeNode::new();
        let mut val = String::new();
        match &leading_dot {
            Some(dot) => {
                composite_node.push_child(dot.as_node_trait());
                val.push(dot.rune());
            },
            None => {},
        }
        assert(val@ =~= leading_text(leading_dot));
        let ghost front = composite_node@;
        push_alternating(&mut composite_node, &components, &dots);
        assert(composite_node@ =~= compound_children(leading_dot, components@, dots@));
        let mut i: usize = 0;
        while i < components.len()
            invariant
                i <= components.len(),
                dots.len() + 1 == components.len(),
                val@ == leading_text(leading_dot) + joined_upto(
                    names_of(components@),
                    runes_of(dots@),
                    i as int,
                ),
            decreases components.len() - i,
        {
            if i > 0 {
                val.push(dots[i - 1].rune());
            }
            val.append(components[i].val.as_str());
            i += 1;
            assert(val@ =~= leading_text(leading_dot) + joined_upto(
                names_of(components@),
                runes_of(dots@),
                i as int,
            ));
        }
        Ok(CompoundIdentNode { composite_node, leading_dot, components, dots, val })
    }

    pub fn leading_dot(&self) -> (res: &Option<RuneNode>)
        ensures
            *res == self.spec_leading_dot(),
    {
        &self.leading_dot
    }

    pub fn components(&self) -> (res: &Vec<IdentNode>)
        ensures
            res@ == self.spec_components(),
            res.len() > 0,
    {
        proof {
            use_type_invariant(self);
        }
        &self.components
    }

    pub fn dots(&self) -> (res: &Vec<RuneNode>)
        ensures
            res@ == self.spec_dots(),
            res.len() + 1 == self.spec_components().len(),
    {
        proof {
            use_type_invariant(self);
        }
        &self.dots
    }
}

impl NodeTrait for CompoundIdentNode {
    closed spec fn node_view(&self) -> NodeView {
        NodeView::Composite(self.composite_node@)
    }

    open spec fn has_span(&self) -> bool {
        true
    }

    fn first_token(&self) -> (res: &TerminalNode) {
        proof {
            use_type_invariant(self);
        }
        self.composite_node.first_token()
    }

    fn last_token(&self) -> (res: &TerminalNode) {
        proof {
            use_type_invariant(self);
        }
        self.composite_node.last_token()
    }

    fn as_node_trait(&self) -> (res: Node) {
        proof {
            use_type_invariant(self);
        }
        self.composite_node.as_node_trait()
    }
}

impl CompositeNodeTrait for CompoundIdentNode {
    fn children(&self) -> (res: Vec<Node>) {
        self.composite_node.children()
    }
}

impl IdentValueNodeTrait for CompoundIdentNode {
    closed spec fn identifier_view(&self) -> Seq<char> {
        self.val@
    }

    fn as_identifier(&self) -> (res: Identifier) {
        self.val.clone()
    }
}

impl ValueNodeTrait<String> for CompoundIdentNode {
    open spec fn decodes_to(&self, v: String) -> bool {
        v@ == self.identifier_view()
    }

    fn value(self) -> (res: String) {
        self.val
    }
}


/// An identifier of either form: a single name, or names joined by dots.
#[derive(Debug)]
pub enum IdentValueNode {
    Ident(IdentNode),
    Compound(CompoundIdentNode),
}

impl NodeTrait for IdentValueNode {
    open spec fn node_view(&self) -> NodeView {
        match self {
            IdentValueNode::Ident(n) => n.node_view(),
            IdentValueNode::Compound(n) => n.node_view(),
        }
    }

    open spec fn has_span(&self) -> bool {
        true
    }

    fn first_token(&self) -> (res: &TerminalNode) {
        match self {
            IdentValueNode::Ident(n) => n.first_token(),
            IdentValueNode::Compound(n) => n.first_token(),
        }
    }

    fn last_token(&self) -> (res: &TerminalNode) {
        match self {
            IdentValueNode::Ident(n) => n.last_token(),
            IdentValueNode::Compound(n) => n.last_token(),
        }
    }

    fn as_node_trait(&self) -> (res: Node) {
        match self {
            IdentValueNode::Ident(n) => n.as_node_trait(),
            IdentValueNode::Compound(n) => n.as_node_trait(),
        }
    }
}

impl IdentValueNodeTrait for IdentValueNode {
    open spec fn identifier_view(&self) -> Seq<char> {
        match self {
            IdentValueNode::Ident(n) => n@.value,
            IdentValueNode::Compound(n) => n.identifier_view(),
        }
    }

    fn as_identifier(&self) -> (res: Identifier) {
        match self {
            IdentValueNode::Ident(n) => n.val.clone(),
            IdentValueNode::Compound(n) => n.as_identifier(),
        }
    }
}

} // verus!
