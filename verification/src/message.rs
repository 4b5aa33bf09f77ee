//! Message declarations, extend blocks, and the fields and groups that an
//! extend block adds to the message it names.

use vstd::prelude::*;
use crate::enums::{block_children, EnumNode};
use crate::error::ConstructionError;
use crate::identifiers::{IdentNode, IdentValueNode, IdentValueNodeTrait, Identifier, KeywordNode};
use crate::node::{
    push_nodes, views_of, CompositeNode, CompositeNodeTrait, EmptyDeclNode, Node, NodeTrait,
    NodeView, RuneNode, TerminalNode,
};
use crate::options::OptionNode;

verus! {

/// The identifier behind an optional name, as a mathematical value.
pub open spec fn identifier_view(name: Option<Identifier>) -> Option<Seq<char>> {
    match name {
        Some(n) => Some(n@),
        None => None,
    }
}

/// A field declaration. It is kept as the list of its tokens; where it
/// stands in an extend block it records the message that the block names.
#[derive(Debug)]
pub struct FieldNode {
    composite_node: CompositeNode,
    extendee: Option<Identifier>,
}

impl FieldNode {
    #[verifier::type_invariant]
    spec fn inv(self) -> bool {
        self.composite_node.has_span()
    }

    /// The message that the field extends, where it stands in an extend
    /// block.
    pub closed spec fn spec_extendee(&self) -> Option<Seq<char>> {
        identifier_view(self.extendee)
    }

    /// The field made of `tokens`, in source order. There must be at least
    /// one.
    pub fn new(tokens: Vec<TerminalNode>) -> (res: Result<Self, ConstructionError>)
        ensures
            match res {
                Ok(node) => {
                    &&& tokens.len() > 0
                    &&& node.node_view() == NodeView::Composite(views_of(tokens@))
                    &&& node.spec_extendee() is None
                },
                Err(e) => tokens.len() == 0 && e == ConstructionError::NoComponents,
            },
    {
        if tokens.len() == 0 {
            return Err(ConstructionError::NoComponents);
        }
        let mut composite_node = CompositeNode::new();
        push_nodes(&mut composite_node, &tokens);
        assert(composite_node@ =~= views_of(tokens@));
        Ok(FieldNode { composite_node, extendee: None })
    }

    /// The message that the field extends, where it stands in an extend
    /// block.
    pub fn extendee(&self) -> (res: &Option<Identifier>)
        ensures
            identifier_view(*res) == self.spec_extendee(),
    {
        &self.extendee
    }

    /// The same field, recorded as extending the message `extendee`.
    fn linked_to(self, extendee: Identifier) -> (res: Self)
        ensures
            res.node_view() == self.node_view(),
            res.spec_extendee() == Some(extendee@),
    {
        proof {
            use_type_invariant(&self);
        }
        FieldNode { composite_node: self.composite_node, extendee: Some(extendee) }
    }

    /// The field as an element of an extend block.
    pub fn extend_element(self) -> (res: ExtendElement)
        ensures
            res == ExtendElement::Field(self),
    {
        ExtendElement::Field(self)
    }
}

impl NodeTrait for FieldNode {
    closed spec fn node_view(&self) -> NodeView {
        NodeView::Composite(self.composite_node@)
    }

    open spec fn has_span(&self) -> bool {
        true
    }

    fn first_token(&self) -> (res: &TerminalNode) {
        proof {
            use_type_invariant(self);
        }
        self.composite_node.first_token()
    }

    fn last_token(&self) -> (res: &TerminalNode) {
        proof {
            use_type_invariant(self);
        }
        self.composite_node.last_token()
    }

    fn as_node_trait(&self) -> (res: Node) {
        proof {
            use_type_invariant(self);
        }
        self.composite_node.as_node_trait()
    }
}

impl CompositeNodeTrait for FieldNode {
    fn children(&self) -> (res: Vec<Node>) {
        self.composite_node.children()
    }
}

/// A group declaration. It is kept as the list of its tokens; where it
/// stands in an extend block it records the message that the block names.
#[derive(Debug)]
pub struct GroupNode {
    composite_node: CompositeNode,
    extendee: Option<Identifier>,
}

impl GroupNode {
    #[verifier::type_invariant]
    spec fn inv(self) -> bool {
        self.composite_node.has_span()
    }

    /// The message that the group extends, where it stands in an extend
    /// block.
    pub closed spec fn spec_extendee(&self) -> Option<Seq<char>> {
        identifier_view(self.extendee)
    }

    /// The group made of `tokens`, in source order. There must be at least
    /// one.
    pub fn new(tokens: Vec<TerminalNode>) -> (res: Result<Self, ConstructionError>)
        ensures
            match res {
                Ok(node) => {
                    &&& tokens.len() > 0
                    &&& node.node_view() == NodeView::Composite(views_of(tokens@))
                    &&& node.spec_extendee() is None
                },
                Err(e) => tokens.len() == 0 && e == ConstructionError::NoComponents,
            },
    {
        if tokens.len() == 0 {
            return Err(ConstructionError::NoComponents);
        }
        let mut composite_node = CompositeNode::new();
        push_nodes(&mut composite_node, &tokens);
        assert(composite_node@ =~= views_of(tokens@));
        Ok(GroupNode { composite_node, extendee: None })
    }

    /// The message that the group extends, where it stands in an extend
    /// block.
    pub fn extendee(&self) -> (res: &Option<Identifier>)
        ensures
            identifier_view(*res) == self.spec_extendee(),
    {
        &self.extendee
    }

    /// The same group, recorded as extending the message `extendee`.
    fn linked_to(self, extendee: Identifier) -> (res: Self)
        ensures
            res.node_view() == self.node_view(),
            res.spec_extendee() == Some(extendee@),
    {
        proof {
            use_type_invariant(&self);
        }
        GroupNode { composite_node: self.composite_node, extendee: Some(extendee) }
    }

    /// The group as an element of an extend block.
    pub fn extend_element(self) -> (res: ExtendElement)
        ensures
            res == ExtendElement::Group(self),
    {
        ExtendElement::Group(self)
    }
}

impl NodeTrait for GroupNode {
    closed spec fn node_view(&self) -> NodeView {
        NodeView::Composite(self.composite_node@)
    }

    open spec fn has_span(&self) -> bool {
        true
    }

    fn first_token(&self) -> (res: &TerminalNode) {
        proof {
            use_type_invariant(self);
        }
        self.composite_node.first_token()
    }

    fn last_token(&self) -> (res: &TerminalNode) {
        proof {
            use_type_invariant(self);
        }
        self.composite_node.last_token()
    }

    fn as_node_trait(&self) -> (res: Node) {
        proof {
            use_type_invariant(self);
        }
        self.composite_node.as_node_trait()
    }
}

impl CompositeNodeTrait for GroupNode {
    fn children(&self) -> (res: Vec<Node>) {
        self.composite_node.children()
    }
}

/// A declaration that may stand in an extend block.
pub trait ExtendElementTrait: NodeTrait + Sized {
    /// The declaration as an element of an extend block.
    fn as_extend_element_trait(self) -> (res: ExtendElement)
        ensures
            res.node_view() == self.node_view(),
    ;
}

/// The declarations that may stand in an extend block.
#[derive(Debug)]
pub enum ExtendElement {
    Field(FieldNode),
    Group(GroupNode),
    Empty(EmptyDeclNode),
}

impl ExtendElement {
    /// The element, where it is a field or a group, records that it
    /// extends the message `extendee`.
    pub open spec fn extends(&self, extendee: Seq<char>) -> bool {
        match self {
            ExtendElement::Field(f) => f.spec_extendee() == Some(extendee),
            ExtendElement::Group(g) => g.spec_extendee() == Some(extendee),
            ExtendElement::Empty(_) => true,
        }
    }

    /// `self` is the element `before` once it stands in an extend block
    /// that names the message `extendee`: a field or a group with that
    /// message recorded and its tokens unchanged, any other element as it
    /// was.
    pub open spec fn is_linked(&self, before: ExtendElement, extendee: Seq<char>) -> bool {
        &&& self.extends(extendee)
        &&& match (self, before) {
            (ExtendElement::Field(a), ExtendElement::Field(b)) => a.node_view() == b.node_view(),
            (ExtendElement::Group(a), ExtendElement::Group(b)) => a.node_view() == b.node_view(),
            (ExtendElement::Empty(a), ExtendElement::Empty(b)) => a == b,
            _ => false,
        }
    }
}

impl NodeTrait for ExtendElement {
    open spec fn node_view(&self) -> NodeView {
        match self {
            ExtendElement::Field(n) => n.node_view(),
            ExtendElement::Group(n) => n.node_view(),
            ExtendElement::Empty(n) => n.node_view(),
        }
    }

    open spec fn has_span(&self) -> bool {
        true
    }

    fn first_token(&self) -> (res: &TerminalNode) {
        match self {
            ExtendElement::Field(n) => n.first_token(),
            ExtendElement::Group(n) => n.first_token(),
            ExtendElement::Empty(n) => n.first_token(),
        }
    }

    fn last_token(&self) -> (res: &TerminalNode) {
        match self {
            ExtendElement::Field(n) => n.last_token(),
            ExtendElement::Group(n) => n.last_token(),
            ExtendElement::Empty(n) => n.last_token(),
        }
    }

    fn as_node_trait(&self) -> (res: Node) {
        match self {
            ExtendElement::Field(n) => n.as_node_trait(),
            ExtendElement::Group(n) => n.as_node_trait(),
            ExtendElement::Empty(n) => n.as_node_trait(),
        }
    }
}

impl EmptyDeclNode {
    /// The empty declaration as an element of an extend block.
    pub fn extend_element(self) -> (res: ExtendElement)
        ensures
            res == ExtendElement::Empty(self),
    {
        ExtendElement::Empty(self)
    }
}

impl ExtendElementTrait for FieldNode {
    fn as_extend_element_trait(self) -> (res: ExtendElement)
        ensures
            res == ExtendElement::Field(self),
    {
        self.extend_element()
    }
}

impl ExtendElementTrait for GroupNode {
    fn as_extend_element_trait(self) -> (res: ExtendElement)
        ensures
            res == ExtendElement::Group(self),
    {
        self.extend_element()
    }
}

impl ExtendElementTrait for EmptyDeclNode {
    fn as_extend_element_trait(self) -> (res: ExtendElement)
        ensures
            res == ExtendElement::Empty(self),
    {
        self.extend_element()
    }
}

/// An extend block: keyword, the name of the message that is extended, and
/// the fields and groups between its braces.
#[derive(Debug)]
pub struct ExtendNode {
    composite_node: CompositeNode,
    keyword: KeywordNode,
    extendee: IdentValueNode,
    open_brace: RuneNode,
    decls: Vec<ExtendElement>,
    close_brace: RuneNode,
}

impl ExtendNode {
    #[verifier::type_invariant]
    spec fn inv(self) -> bool {
        &&& self.composite_node@ == block_children(
            seq![self.keyword.node_view(), self.extendee.node_view()],
            self.open_brace.node_view(),
            views_of(self.decls@),
            self.close_brace.node_view(),
        )
        &&& self.composite_node.has_span()
        &&& forall|i: int|
            0 <= i < self.decls.len() ==> (#[trigger] self.decls[i]).extends(
                self.extendee.identifier_view(),
            )
    }

    pub closed spec fn spec_keyword(&self) -> KeywordNode {
        self.keyword
    }

    pub closed spec fn spec_extendee(&self) -> IdentValueNode {
        self.extendee
    }

    pub closed spec fn spec_open_brace(&self) -> RuneNode {
        self.open_brace
    }

    pub closed spec fn spec_decls(&self) -> Seq<ExtendElement> {
        self.decls@
    }

    pub closed spec fn spec_close_brace(&self) -> RuneNode {
        self.close_brace
    }

    /// Builds the block from its parts in source order, and records in each
    /// field and group of the body the message that the block names.
    pub fn new(
        keyword: KeywordNode,
        extendee: IdentValueNode,
        open_brace: RuneNode,
        decls: Vec<ExtendElement>,
        close_brace: RuneNode,
    ) -> (res: Self)
        ensures
            res.spec_keyword() == keyword,
            res.spec_extendee() == extendee,
            res.spec_open_brace() == open_brace,
            res.spec_close_brace() == close_brace,
            res.spec_decls().len() == decls.len(),
            forall|i: int|
                0 <= i < decls.len() ==> (#[trigger] res.spec_decls()[i]).is_linked(
                    decls[i],
                    extendee.identifier_view(),
                ),
            res.node_view() == NodeView::Composite(
                block_children(
                    seq![keyword.node_view(), extendee.node_view()],
                    open_brace.node_view(),
                    views_of(decls@),
                    close_brace.node_view(),
                ),
            ),
    {
        let mut composite_node = CompositeNode::new();
        composite_node.push_child(keyword.as_node_trait());
        composite_node.push_child(extendee.as_node_trait());
        composite_node.push_child(open_brace.as_node_trait());
        push_nodes(&mut composite_node, &decls);
        composite_node.push_child(close_brace.as_node_trait());
        assert(composite_node@ =~= block_children(
            seq![keyword.node_view(), extendee.node_view()],
            open_brace.node_view(),
            views_of(decls@),
            close_brace.node_view(),
        ));
        let mut linked: Vec<ExtendElement> = Vec::new();
        for decl in it: decls
            invariant
                linked.len() == it.index(),
                forall|i: int|
                    0 <= i < linked.len() ==> (#[trigger] linked[i]).is_linked(
                        it.seq()[i],
                        extendee.identifier_view(),
                    ),
        {
            let after = match decl {
                ExtendElement::Field(f) => ExtendElement::Field(f.linked_to(extendee.as_identifier())),
                ExtendElement::Group(g) => ExtendElement::Group(g.linked_to(extendee.as_identifier())),
                ExtendElement::Empty(e) => ExtendElement::Empty(e),
            };
            linked.push(after);
        }
        proof {
            assert(views_of(linked@) =~= views_of(decls@)) by {
                assert forall|i: int| 0 <= i < decls.len() implies linked[i].node_view()
                    == decls[i].node_view() by {
                    assert(linked[i].is_linked(decls[i], extendee.identifier_view()));
                }
            }
            assert forall|i: int| 0 <= i < linked.len() implies (#[trigger] linked[i]).extends(
                extendee.identifier_view(),
            ) by {
                assert(linked[i].is_linked(decls[i], extendee.identifier_view()));
            }
        }
        let decls = linked;
        ExtendNode { composite_node, keyword, extendee, open_brace, decls, close_brace }
    }

    pub fn keyword(&self) -> (res: &KeywordNode)
        ensures
            *res == self.spec_keyword(),
    {
        &self.keyword
    }

    /// The name of the message that the block extends.
    pub fn extendee(&self) -> (res: &IdentValueNode)
        ensures
            *res == self.spec_extendee(),
    {
        &self.extendee
    }

    /// The declarations of the body, in order. Each field and group among
    /// them records the message that the block names.
    pub fn decls(&self) -> (res: &Vec<ExtendElement>)
        ensures
            res@ == self.spec_decls(),
            forall|i: int|
                0 <= i < res.len() ==> (#[trigger] res[i]).extends(
                    self.spec_extendee().identifier_view(),
                ),
    {
        proof {
            use_type_invariant(self);
        }
        &self.decls
    }
}

impl NodeTrait for ExtendNode {
    closed spec fn node_view(&self) -> NodeView {
        NodeView::Composite(self.composite_node@)
    }

    open spec fn has_span(&self) -> bool {
        true
    }

    fn first_token(&self) -> (res: &TerminalNode) {
        proof {
            use_type_invariant(self);
        }
        self.composite_node.first_token()
    }

    fn last_token(&self) -> (res: &TerminalNode) {
        proof {
            use_type_invariant(self);
        }
        self.composite_node.last_token()
    }

    fn as_node_trait(&self) -> (res: Node) {
        proof {
            use_type_invariant(self);
        }
        self.composite_node.as_node_trait()
    }
}

impl CompositeNodeTrait for ExtendNode {
    fn children(&self) -> (res: Vec<Node>) {
        self.composite_node.children()
    }
}


/// What a message declaration answers.
pub trait MessageDeclNodeTrait {
    /// The tree of the message's name.
    spec fn name_view(&self) -> NodeView;

    /// The name of the message, as a node.
    fn message_name(&self) -> (res: Node)
        ensures
            res@ == self.name_view(),
            res@.well_formed(),
    ;
}

/// A declaration that may stand in the body of a message.
pub trait MessageElementTrait: NodeTrait + Sized {
    /// The declaration as an element of a message body.
    fn as_message_element_trait(self) -> (res: MessageElement)
        ensures
            res.node_view() == self.node_view(),
    ;
}

/// The declarations that may stand in the body of a message.
#[derive(Debug)]
pub enum MessageElement {
    Option(OptionNode),
    Enum(EnumNode),
    Message(MessageNode),
    Extend(ExtendNode),
    Empty(EmptyDeclNode),
}

impl MessageElement {
    /// The tree of tokens that the declaration stands for.
    pub open spec fn tree(&self) -> NodeView {
        match self {
            MessageElement::Option(n) => n.node_view(),
            MessageElement::Enum(n) => n.node_view(),
            MessageElement::Message(n) => n.tree(),
            MessageElement::Extend(n) => n.node_view(),
            MessageElement::Empty(n) => n.node_view(),
        }
    }
}

/// The trees that a list of declarations of a message body stands for, in
/// order.
pub open spec fn element_trees(decls: Seq<MessageElement>) -> Seq<NodeView> {
    decls.map_values(|d: MessageElement| d.tree())
}

impl NodeTrait for MessageElement {
    open spec fn node_view(&self) -> NodeView {
        self.tree()
    }

    open spec fn has_span(&self) -> bool {
        true
    }

    fn first_token(&self) -> (res: &TerminalNode) {
        match self {
            MessageElement::Option(n) => n.first_token(),
            MessageElement::Enum(n) => n.first_token(),
            MessageElement::Message(n) => n.first_token(),
            MessageElement::Extend(n) => n.first_token(),
            MessageElement::Empty(n) => n.first_token(),
        }
    }

    fn last_token(&self) -> (res: &TerminalNode) {
        match self {
            MessageElement::Option(n) => n.last_token(),
            MessageElement::Enum(n) => n.last_token(),
            MessageElement::Message(n) => n.last_token(),
            MessageElement::Extend(n) => n.last_token(),
            MessageElement::Empty(n) => n.last_token(),
        }
    }

    fn as_node_trait(&self) -> (res: Node) {
        match self {
            MessageElement::Option(n) => n.as_node_trait(),
            MessageElement::Enum(n) => n.as_node_trait(),
            MessageElement::Message(n) => n.as_node_trait(),
            MessageElement::Extend(n) => n.as_node_trait(),
            MessageElement::Empty(n) => n.as_node_trait(),
        }
    }
}

impl OptionNode {
    /// The option as an element of a message body.
    pub fn msg_element(self) -> (res: MessageElement)
        ensures
            res == MessageElement::Option(self),
    {
        MessageElement::Option(self)
    }
}

impl EnumNode {
    /// The enum as an element of a message body.
    pub fn msg_element(self) -> (res: MessageElement)
        ensures
            res == MessageElement::Enum(self),
    {
        MessageElement::Enum(self)
    }
}

impl ExtendNode {
    /// The extend block as an element of a message body.
    pub fn msg_element(self) -> (res: MessageElement)
        ensures
            res == MessageElement::Extend(self),
    {
        MessageElement::Extend(self)
    }
}

impl EmptyDeclNode {
    /// The empty declaration as an element of a message body.
    pub fn msg_element(self) -> (res: MessageElement)
        ensures
            res == MessageElement::Empty(self),
    {
        MessageElement::Empty(self)
    }
}

impl MessageElementTrait for OptionNode {
    fn as_message_element_trait(self) -> (res: MessageElement)
        ensures
            res == MessageElement::Option(self),
    {
        self.msg_element()
    }
}

impl MessageElementTrait for EnumNode {
    fn as_message_element_trait(self) -> (res: MessageElement)
        ensures
            res == MessageElement::Enum(self),
    {
        self.msg_element()
    }
}

impl MessageElementTrait for MessageNode {
    fn as_message_element_trait(self) -> (res: MessageElement)
        ensures
            res == MessageElement::Message(self),
    {
        self.msg_element()
    }
}

impl MessageElementTrait for ExtendNode {
    fn as_message_element_trait(self) -> (res: MessageElement)
        ensures
            res == MessageElement::Extend(self),
    {
        self.msg_element()
    }
}

impl MessageElementTrait for EmptyDeclNode {
    fn as_message_element_trait(self) -> (res: MessageElement)
        ensures
            res == MessageElement::Empty(self),
    {
        self.msg_element()
    }
}

/// The body of a message: the declarations between its braces. A body is
/// empty until it is populated.
#[derive(Debug)]
pub struct MessageBody {
    open_brace: Option<RuneNode>,
    decls: Vec<MessageElement>,
    close_brace: Option<RuneNode>,
}

impl MessageBody {
    pub closed spec fn spec_open_brace(&self) -> Option<RuneNode> {
        self.open_brace
    }

    pub closed spec fn spec_decls(&self) -> Seq<MessageElement> {
        self.decls@
    }

    pub closed spec fn spec_close_brace(&self) -> Option<RuneNode> {
        self.close_brace
    }

    /// A body without braces and without declarations.
    pub fn new() -> (res: Self)
        ensures
            res.spec_open_brace() is None,
            res.spec_decls() == Seq::<MessageElement>::empty(),
            res.spec_close_brace() is None,
    {
        MessageBody { open_brace: None, decls: Vec::new(), close_brace: None }
    }

    /// Gives the body its braces and its declarations, in source order,
    /// in place of what it held.
    pub fn populate_body(
        &mut self,
        open_brace: RuneNode,
        decls: Vec<MessageElement>,
        close_brace: RuneNode,
    ) -> (res: &mut Self)
        ensures
            res.spec_open_brace() == Some(open_brace),
            res.spec_decls() == decls@,
            res.spec_close_brace() == Some(close_brace),
            *final(self) == *final(res),
    {
        self.open_brace = Some(open_brace);
        self.close_brace = Some(close_brace);
        self.decls = decls;
        self
    }

    pub fn open_brace(&self) -> (res: &Option<RuneNode>)
        ensures
            *res == self.spec_open_brace(),
    {
        &self.open_brace
    }

    /// The declarations of the body, in order.
    pub fn decls(&self) -> (res: &Vec<MessageElement>)
        ensures
            res@ == self.spec_decls(),
    {
        &self.decls
    }

    pub fn close_brace(&self) -> (res: &Option<RuneNode>)
        ensures
            *res == self.spec_close_brace(),
    {
        &self.close_brace
    }
}

/// A message declaration: keyword, name, and its body.
#[derive(Debug)]
pub struct MessageNode {
    composite_node: CompositeNode,
    keyword: KeywordNode,
    name: IdentNode,
    message_body: MessageBody,
}

impl MessageNode {
    #[verifier::type_invariant]
    spec fn inv(self) -> bool {
        &&& self.message_body.open_brace is Some
        &&& self.message_body.close_brace is Some
        &&& self.composite_node@ == block_children(
            seq![self.keyword.node_view(), self.name.node_view()],
            self.message_body.open_brace->0.node_view(),
            element_trees(self.message_body.decls@),
            self.message_body.close_brace->0.node_view(),
        )
        &&& self.composite_node.has_span()
    }

    /// The tree of tokens that the declaration stands for.
    pub closed spec fn tree(&self) -> NodeView {
        NodeView::Composite(self.composite_node@)
    }

    pub closed spec fn spec_keyword(&self) -> KeywordNode {
        self.keyword
    }

    pub closed spec fn spec_name(&self) -> IdentNode {
        self.name
    }

    pub closed spec fn spec_body(&self) -> MessageBody {
        self.message_body
    }

    /// Builds the declaration from its parts in source order. The braces
    /// and the declarations between them become its body, in the same
    /// order as they stand among its children.
    pub fn new(
        keyword: KeywordNode,
        name: IdentNode,
        open_brace: RuneNode,
        decls: Vec<MessageElement>,
        close_brace: RuneNode,
    ) -> (res: Self)
        ensures
            res.spec_keyword() == keyword,
            res.spec_name() == name,
            res.spec_body().spec_open_brace() == Some(open_brace),
            res.spec_body().spec_decls() == decls@,
            res.spec_body().spec_close_brace() == Some(close_brace),
            res.node_view() == NodeView::Composite(
                block_children(
                    seq![keyword.node_view(), name.node_view()],
                    open_brace.node_view(),
                    views_of(decls@),
                    close_brace.node_view(),
                ),
            ),
    {
        let mut composite_node = CompositeNode::new();
        composite_node.push_child(keyword.as_node_trait());
        composite_node.push_child(name.as_node_trait());
        composite_node.push_child(open_brace.as_node_trait());
        push_nodes(&mut composite_node, &decls);
        composite_node.push_child(close_brace.as_node_trait());
        assert(views_of(decls@) =~= element_trees(decls@));
        assert(composite_node@ =~= block_children(
            seq![keyword.node_view(), name.node_view()],
            open_brace.node_view(),
            views_of(decls@),
            close_brace.node_view(),
        ));
        let mut message_body = MessageBody::new();
        message_body.populate_body(open_brace, decls, close_brace);
        MessageNode { composite_node, keyword, name, message_body }
    }

    pub fn keyword(&self) -> (res: &KeywordNode)
        ensures
            *res == self.spec_keyword(),
    {
        &self.keyword
    }

    pub fn name(&self) -> (res: &IdentNode)
        ensures
            *res == self.spec_name(),
    {
        &self.name
    }

    /// The body of the message. It has both its braces.
    pub fn body(&self) -> (res: &MessageBody)
        ensures
            *res == self.spec_body(),
            res.spec_open_brace() is Some,
            res.spec_close_brace() is Some,
    {
        proof {
            use_type_invariant(self);
        }
        &self.message_body
    }

    /// The message as an element of the body of another message.
    pub fn msg_element(self) -> (res: MessageElement)
        ensures
            res == MessageElement::Message(self),
    {
        MessageElement::Message(self)
    }
}

impl NodeTrait for MessageNode {
    open spec fn node_view(&self) -> NodeView {
        self.tree()
    }

    open spec fn has_span(&self) -> bool {
        true
    }

    fn first_token(&self) -> (res: &TerminalNode) {
        proof {
            use_type_invariant(self);
        }
        assert(self.node_view() == self.composite_node.node_view());
        self.composite_node.first_token()
    }

    fn last_token(&self) -> (res: &TerminalNode) {
        proof {
            use_type_invariant(self);
        }
        self.composite_node.last_token()
    }

    fn as_node_trait(&self) -> (res: Node) {
        proof {
            use_type_invariant(self);
        }
        self.composite_node.as_node_trait()
    }
}

impl CompositeNodeTrait for MessageNode {
    fn children(&self) -> (res: Vec<Node>) {
        self.composite_node.children()
    }
}

impl MessageDeclNodeTrait for MessageNode {
    open spec fn name_view(&self) -> NodeView {
        self.spec_name().node_view()
    }

    fn message_name(&self) -> (res: Node) {
        self.name.as_node_trait()
    }
}

} // verus!
