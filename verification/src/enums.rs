//! Enum declarations and the values declared in them.

use vstd::prelude::*;
use crate::identifiers::{IdentNode, KeywordNode};
use crate::node::{
    push_nodes, views_of, CompositeNode, CompositeNodeTrait, EmptyDeclNode, Node, NodeTrait,
    NodeView, RuneNode, TerminalNode,
};
use crate::options::{CompactOptionsNode, OptionNode};
use crate::values::IntValueNode;

verus! {

/// What the declaration of an enum value answers.
pub trait EnumValueDeclNodeTrait {
    /// The tree of the value's name.
    spec fn name_view(&self) -> NodeView;

    /// The tree of the value's number.
    spec fn number_view(&self) -> NodeView;

    /// The name of the value, as a node.
    fn get_name(&self) -> (res: Node)
        ensures
            res@ == self.name_view(),
            res@.well_formed(),
    ;

    /// The number of the value, as a node and not decoded, so that its
    /// position and comments can be looked at before it is read.
    fn get_number(&self) -> (res: Node)
        ensures
            res@ == self.number_view(),
            res@.well_formed(),
    ;
}

/// The children of the declaration of an enum value in source order: name,
/// equals sign, number, the bracketed options where there are any, and the
/// semicolon. A list without options is left out.
pub open spec fn enum_value_children(
    name: IdentNode,
    equals: RuneNode,
    number: IntValueNode,
    options: CompactOptionsNode,
    semicolon: RuneNode,
) -> Seq<NodeView> {
    seq![name.node_view(), equals.node_view(), number.node_view()] + (if options.spec_elements().len()
        > 0 {
        seq![options.node_view()]
    } else {
        Seq::empty()
    }) + seq![semicolon.node_view()]
}

/// The declaration of one value of an enum.
#[derive(Debug)]
pub struct EnumValueNode {
    composite_node: CompositeNode,
    name: IdentNode,
    equals: RuneNode,
    number: IntValueNode,
    options: CompactOptionsNode,
    semicolon: RuneNode,
}

impl EnumValueNode {
    #[verifier::type_invariant]
    spec fn inv(self) -> bool {
        &&& self.composite_node@ == enum_value_children(
            self.name,
            self.equals,
            self.number,
            self.options,
            self.semicolon,
        )
        &&& self.composite_node.has_span()
    }

    pub closed spec fn spec_name(&self) -> IdentNode {
        self.name
    }

    pub closed spec fn spec_equals(&self) -> RuneNode {
        self.equals
    }

    pub closed spec fn spec_number(&self) -> IntValueNode {
        self.number
    }

    pub closed spec fn spec_options(&self) -> CompactOptionsNode {
        self.options
    }

    pub closed spec fn spec_semicolon(&self) -> RuneNode {
        self.semicolon
    }

    /// Builds the declaration from its parts in source order.
    pub fn new(
        name: IdentNode,
        equals: RuneNode,
        number: IntValueNode,
        opts: CompactOptionsNode,
        semicolon: RuneNode,
    ) -> (res: Self)
        ensures
            res.spec_name() == name,
            res.spec_equals() == equals,
            res.spec_number() == number,
            res.spec_options() == opts,
            res.spec_semicolon() == semicolon,
            res.node_view() == NodeView::Composite(
                enum_value_children(name, equals, number, opts, semicolon),
            ),
    {
        let mut composite_node = CompositeNode::new();
        composite_node.push_child(name.as_node_trait());
        composite_node.push_child(equals.as_node_trait());
        composite_node.push_child(number.as_node_trait());
        if opts.get_elements().len() > 0 {
            composite_node.push_child(opts.as_node_trait());
        }
        composite_node.push_child(semicolon.as_node_trait());
        assert(composite_node@ =~= enum_value_children(name, equals, number, opts, semicolon));
        EnumValueNode { composite_node, name, equals, number, options: opts, semicolon }
    }

    pub fn name(&self) -> (res: &IdentNode)
        ensures
            *res == self.spec_name(),
    {
        &self.name
    }

    /// The number of the value, to be decoded.
    pub fn number(&self) -> (res: &IntValueNode)
        ensures
            *res == self.spec_number(),
    {
        &self.number
    }

    /// The options behind the number. The list may be empty.
    pub fn options(&self) -> (res: &CompactOptionsNode)
        ensures
            *res == self.spec_options(),
    {
        &self.options
    }

    /// The declaration as an element of an enum body.
    pub fn enum_element(self) -> (res: EnumElement)
        ensures
            res == EnumElement::Value(self),
    {
        EnumElement::Value(self)
    }
}

impl NodeTrait for EnumValueNode {
    closed spec fn node_view(&self) -> NodeView {
        NodeView::Composite(self.composite_node@)
    }

    open spec fn has_span(&self) -> bool {
        true
    }

    fn first_token(&self) -> (res: &TerminalNode) {
        proof {
            use_type_invariant(self);
        }
        self.composite_node.first_token()
    }

    fn last_token(&self) -> (res: &TerminalNode) {
        proof {
            use_type_invariant(self);
        }
        self.composite_node.last_token()
    }

    fn as_node_trait(&self) -> (res: Node) {
        proof {
            use_type_invariant(self);
        }
        self.composite_node.as_node_trait()
    }
}

impl CompositeNodeTrait for EnumValueNode {
    fn children(&self) -> (res: Vec<Node>) {
        self.composite_node.children()
    }
}

impl EnumValueDeclNodeTrait for EnumValueNode {
    open spec fn name_view(&self) -> NodeView {
        self.spec_name().node_view()
    }

    open spec fn number_view(&self) -> NodeView {
        self.spec_number().node_view()
    }

    fn get_name(&self) -> (res: Node) {
        self.name.as_node_trait()
    }

    fn get_number(&self) -> (res: Node) {
        self.number.as_node_trait()
    }
}

/// A declaration that may stand in the body of an enum.
pub trait EnumElementTrait: NodeTrait + Sized {
    /// The declaration as an element of an enum body.
    fn as_enum_element_trait(self) -> (res: EnumElement)
        ensures
            res.node_view() == self.node_view(),
    ;
}

/// The declarations that may stand in the body of an enum.
#[derive(Debug)]
pub enum EnumElement {
    Value(EnumValueNode),
    Option(OptionNode),
    Empty(EmptyDeclNode),
}

impl NodeTrait for EnumElement {
    open spec fn node_view(&self) -> NodeView {
        match self {
            EnumElement::Value(n) => n.node_view(),
            EnumElement::Option(n) => n.node_view(),
            EnumElement::Empty(n) => n.node_view(),
        }
    }

    open spec fn has_span(&self) -> bool {
        true
    }

    fn first_token(&self) -> (res: &TerminalNode) {
        match self {
            EnumElement::Value(n) => n.first_token(),
            EnumElement::Option(n) => n.first_token(),
            EnumElement::Empty(n) => n.first_token(),
        }
    }

    fn last_token(&self) -> (res: &TerminalNode) {
        match self {
            EnumElement::Value(n) => n.last_token(),
            EnumElement::Option(n) => n.last_token(),
            EnumElement::Empty(n) => n.last_token(),
        }
    }

    fn as_node_trait(&self) -> (res: Node) {
        match self {
            EnumElement::Value(n) => n.as_node_trait(),
            EnumElement::Option(n) => n.as_node_trait(),
            EnumElement::Empty(n) => n.as_node_trait(),
        }
    }
}

impl OptionNode {
    /// The option as an element of an enum body.
    pub fn enum_element(self) -> (res: EnumElement)
        ensures
            res == EnumElement::Option(self),
    {
        EnumElement::Option(self)
    }
}

impl EmptyDeclNode {
    /// The empty declaration as an element of an enum body.
    pub fn enum_element(self) -> (res: EnumElement)
        ensures
            res == EnumElement::Empty(self),
    {
        EnumElement::Empty(self)
    }
}

impl EnumElementTrait for EnumValueNode {
    fn as_enum_element_trait(self) -> (res: EnumElement)
        ensures
            res == EnumElement::Value(self),
    {
        self.enum_element()
    }
}

impl EnumElementTrait for OptionNode {
    fn as_enum_element_trait(self) -> (res: EnumElement)
        ensures
            res == EnumElement::Option(self),
    {
        self.enum_element()
    }
}

impl EnumElementTrait for EmptyDeclNode {
    fn as_enum_element_trait(self) -> (res: EnumElement)
        ensures
            res == EnumElement::Empty(self),
    {
        self.enum_element()
    }
}

/// The children of a declaration with a body in source order: what stands
/// in front of the body, the opening brace, the declarations of the body,
/// and the closing brace.
pub open spec fn block_children(
    head: Seq<NodeView>,
    open_brace: NodeView,
    decls: Seq<NodeView>,
    close_brace: NodeView,
) -> Seq<NodeView> {
    head + seq![open_brace] + decls + seq![close_brace]
}

/// An enum declaration: keyword, name, and the declarations between its
/// braces.
#[derive(Debug)]
pub struct EnumNode {
    composite_node: CompositeNode,
    keyword: KeywordNode,
    name: IdentNode,
    open_brace: RuneNode,
    decls: Vec<EnumElement>,
    close_brace: RuneNode,
}

impl EnumNode {
    #[verifier::type_invariant]
    spec fn inv(self) -> bool {
        &&& self.composite_node@ == block_children(
            seq![self.keyword.node_view(), self.name.node_view()],
            self.open_brace.node_view(),
            views_of(self.decls@),
            self.close_brace.node_view(),
        )
        &&& self.composite_node.has_span()
    }

    pub closed spec fn spec_keyword(&self) -> KeywordNode {
        self.keyword
    }

    pub closed spec fn spec_name(&self) -> IdentNode {
        self.name
    }

    pub closed spec fn spec_open_brace(&self) -> RuneNode {
        self.open_brace
    }

    pub closed spec fn spec_decls(&self) -> Seq<EnumElement> {
        self.decls@
    }

    pub closed spec fn spec_close_brace(&self) -> RuneNode {
        self.close_brace
    }

    /// Builds the declaration from its parts in source order.
    pub fn new(
        keyword: KeywordNode,
        name: IdentNode,
        open_brace: RuneNode,
        decls: Vec<EnumElement>,
        close_brace: RuneNode,
    ) -> (res: Self)
        ensures
            res.spec_keyword() == keyword,
            res.spec_name() == name,
            res.spec_open_brace() == open_brace,
            res.spec_decls() == decls@,
            res.spec_close_brace() == close_brace,
            res.node_view() == NodeView::Composite(
                block_children(
                    seq![keyword.node_view(), name.node_view()],
                    open_brace.node_view(),
                    views_of(decls@),
                    close_brace.node_view(),
                ),
            ),
    {
        let mut composite_node = CompositeNode::new();
        composite_node.push_child(keyword.as_node_trait());
        composite_node.push_child(name.as_node_trait());
        composite_node.push_child(open_brace.as_node_trait());
        push_nodes(&mut composite_node, &decls);
        composite_node.push_child(close_brace.as_node_trait());
        assert(composite_node@ =~= block_children(
            seq![keyword.node_view(), name.node_view()],
            open_brace.node_view(),
            views_of(decls@),
            close_brace.node_view(),
        ));
        EnumNode { composite_node, keyword, name, open_brace, decls, close_brace }
    }

    pub fn keyword(&self) -> (res: &KeywordNode)
        ensures
            *res == self.spec_keyword(),
    {
        &self.keyword
    }

    pub fn name(&self) -> (res: &IdentNode)
        ensures
            *res == self.spec_name(),
    {
        &self.name
    }

    /// The declarations of the body, in order.
    pub fn decls(&self) -> (res: &Vec<EnumElement>)
        ensures
            res@ == self.spec_decls(),
    {
        &self.decls
    }
}

impl NodeTrait for EnumNode {
    closed spec fn node_view(&self) -> NodeView {
        NodeView::Composite(self.composite_node@)
    }

    open spec fn has_span(&self) -> bool {
        true
    }

    fn first_token(&self) -> (res: &TerminalNode) {
        proof {
            use_type_invariant(self);
        }
        self.composite_node.first_token()
    }

    fn last_token(&self) -> (res: &TerminalNode) {
        proof {
            use_type_invariant(self);
        }
        self.composite_node.last_token()
    }

    fn as_node_trait(&self) -> (res: Node) {
        proof {
            use_type_invariant(self);
        }
        self.composite_node.as_node_trait()
    }
}

impl CompositeNodeTrait for EnumNode {
    fn children(&self) -> (res: Vec<Node>) {
        self.composite_node.children()
    }
}

} // verus!
