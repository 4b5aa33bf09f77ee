//! Options: the dotted name of an option, the declaration that gives it a
//! value, and the bracketed list of options behind another declaration.

use vstd::prelude::*;
use crate::error::ConstructionError;
use crate::identifiers::{IdentNode, KeywordNode};
use crate::node::{
    alternate, push_alternating, views_of, CompositeNode, CompositeNodeTrait, Node, NodeTrait,
    NodeView, RuneNode, TerminalNode,
};
use crate::values::{delimited, separators_fit, ValueNode, ValueNodeTrait};

verus! {

/// The children of one component of an option name in source order: the
/// name, between its brackets where it names an extension.
pub open spec fn reference_children(
    open: Option<RuneNode>,
    name: IdentNode,
    close: Option<RuneNode>,
) -> Seq<NodeView> {
    match (open, close) {
        (Some(o), Some(c)) => seq![o.node_view(), name.node_view(), c.node_view()],
        _ => seq![name.node_view()],
    }
}

/// The text of one component of an option name: the name, with its
/// brackets around it where it names an extension and without any
/// otherwise.
pub open spec fn reference_text(
    open: Option<RuneNode>,
    name: IdentNode,
    close: Option<RuneNode>,
) -> Seq<char> {
    match (open, close) {
        (Some(o), Some(c)) => seq![o@.value] + name@.value + seq![c@.value],
        _ => name@.value,
    }
}

/// One component of an option name: a plain name, or the name of an
/// extension between brackets.
#[derive(Debug)]
pub struct FieldReferenceNode {
    composite_node: CompositeNode,
    open: Option<RuneNode>,
    name: IdentNode,
    close: Option<RuneNode>,
}

impl FieldReferenceNode {
    #[verifier::type_invariant]
    spec fn inv(self) -> bool {
        &&& self.open is Some <==> self.close is Some
        &&& self.composite_node@ == reference_children(self.open, self.name, self.close)
        &&& self.composite_node.has_span()
    }

    pub closed spec fn spec_open(&self) -> Option<RuneNode> {
        self.open
    }

    pub closed spec fn spec_name(&self) -> IdentNode {
        self.name
    }

    pub closed spec fn spec_close(&self) -> Option<RuneNode> {
        self.close
    }

    /// A component that is a plain name.
    pub fn new(name: IdentNode) -> (res: Self)
        ensures
            res.spec_open() is None,
            res.spec_name() == name,
            res.spec_close() is None,
            res.node_view() == NodeView::Composite(seq![name.node_view()]),
    {
        let mut composite_node = CompositeNode::new();
        composite_node.push_child(name.as_node_trait());
        assert(composite_node@ =~= seq![name.node_view()]);
        FieldReferenceNode { composite_node, open: None, name, close: None }
    }

    /// A component that names an extension: the name between its brackets.
    pub fn new_extrension(open_sym: RuneNode, name: IdentNode, close_sym: RuneNode) -> (res: Self)
        ensures
            res.spec_open() == Some(open_sym),
            res.spec_name() == name,
            res.spec_close() == Some(close_sym),
            res.node_view() == NodeView::Composite(
                seq![open_sym.node_view(), name.node_view(), close_sym.node_view()],
            ),
    {
        let mut composite_node = CompositeNode::new();
        composite_node.push_child(open_sym.as_node_trait());
        composite_node.push_child(name.as_node_trait());
        composite_node.push_child(close_sym.as_node_trait());
        assert(composite_node@ =~= seq![
            open_sym.node_view(),
            name.node_view(),
            close_sym.node_view(),
        ]);
        FieldReferenceNode { composite_node, open: Some(open_sym), name, close: Some(close_sym) }
    }

    /// Whether the component names an extension.
    pub fn is_extension(&self) -> (res: bool)
        ensures
            res == self.spec_open() is Some,
            res == self.spec_close() is Some,
    {
        proof {
            use_type_invariant(self);
        }
        self.open.is_some()
    }

    pub fn name(&self) -> (res: &IdentNode)
        ensures
            *res == self.spec_name(),
    {
        &self.name
    }
}

impl NodeTrait for FieldReferenceNode {
    closed spec fn node_view(&self) -> NodeView {
        NodeView::Composite(self.composite_node@)
    }

    open spec fn has_span(&self) -> bool {
        true
    }

    fn first_token(&self) -> (res: &TerminalNode) {
        proof {
            use_type_invariant(self);
        }
        self.composite_node.first_token()
    }

    fn last_token(&self) -> (res: &TerminalNode) {
        proof {
            use_type_invariant(self);
        }
        self.composite_node.last_token()
    }

    fn as_node_trait(&self) -> (res: Node) {
        proof {
            use_type_invariant(self);
        }
        self.composite_node.as_node_trait()
    }
}

impl CompositeNodeTrait for FieldReferenceNode {
    fn children(&self) -> (res: Vec<Node>) {
        self.composite_node.children()
    }
}

impl ValueNodeTrait<String> for FieldReferenceNode {
    open spec fn decodes_to(&self, v: String) -> bool {
        v@ == reference_text(self.spec_open(), self.spec_name(), self.spec_close())
    }

    fn value(self) -> (res: String) {
        proof {
            use_type_invariant(&self);
        }
        let ghost text = reference_text(self.open, self.name, self.close);
        match (self.open, self.close) {
            (Some(o), Some(c)) => {
                let mut res = String::new();
                res.push(o.rune());
                res.append(self.name.as_identifier().as_str());
                res.push(c.rune());
                assert(res@ =~= text);
                res
            },
            _ => self.name.as_identifier(),
        }
    }
}

/// The dotted name of an option: components joined by dots.
#[derive(Debug)]
pub struct OptionNameNode {
    composite_node: CompositeNode,
    parts: Vec<FieldReferenceNode>,
    dots: Vec<RuneNode>,
}

impl OptionNameNode {
    #[verifier::type_invariant]
    spec fn inv(self) -> bool {
        &&& self.parts.len() > 0
        &&& self.dots.len() + 1 == self.parts.len()
        &&& self.composite_node@ == alternate(views_of(self.parts@), views_of(self.dots@))
        &&& self.composite_node.has_span()
    }

    pub closed spec fn spec_parts(&self) -> Seq<FieldReferenceNode> {
        self.parts@
    }

    pub closed spec fn spec_dots(&self) -> Seq<RuneNode> {
        self.dots@
    }

    /// Builds the name from its parts in source order. There must be at
    /// least one component, and one dot between each two components.
    pub fn new(parts: Vec<FieldReferenceNode>, dots: Vec<RuneNode>) -> (res: Result<
        Self,
        ConstructionError,
    >)
        ensures
            match res {
                Ok(node) => {
                    &&& parts.len() > 0
                    &&& dots.len() + 1 == parts.len()
                    &&& node.spec_parts() == parts@
                    &&& node.spec_dots() == dots@
                    &&& node.node_view() == NodeView::Composite(
                        alternate(views_of(parts@), views_of(dots@)),
                    )
                },
                Err(e) => if parts.len() == 0 {
                    e == ConstructionError::NoComponents
                } else {
                    dots.len() + 1 != parts.len() && e == ConstructionError::SeparatorMismatch
                },
            },
    {
        if parts.len() == 0 {
            return Err(ConstructionError::NoComponents);
        }
        if dots.len() != parts.len() - 1 {
            return Err(ConstructionError::SeparatorMismatch);
        }
        let mut composite_node = CompositeNode::new();
        push_alternating(&mut composite_node, &parts, &dots);
        assert(composite_node@ =~= alternate(views_of(parts@), views_of(dots@)));
        Ok(OptionNameNode { composite_node, parts, dots })
    }

    /// The components of the name, in order.
    pub fn parts(&self) -> (res: &Vec<FieldReferenceNode>)
        ensures
            res@ == self.spec_parts(),
            res.len() > 0,
    {
        proof {
            use_type_invariant(self);
        }
        &self.parts
    }

    pub fn dots(&self) -> (res: &Vec<RuneNode>)
        ensures
            res@ == self.spec_dots(),
            res.len() + 1 == self.spec_parts().len(),
    {
        proof {
            use_type_invariant(self);
        }
        &self.dots
    }
}

impl NodeTrait for OptionNameNode {
    closed spec fn node_view(&self) -> NodeView {
        NodeView::Composite(self.composite_node@)
    }

    open spec fn has_span(&self) -> bool {
        true
    }

    fn first_token(&self) -> (res: &TerminalNode) {
        proof {
            use_type_invariant(self);
        }
        self.composite_node.first_token()
    }

    fn last_token(&self) -> (res: &TerminalNode) {
        proof {
            use_type_invariant(self);
        }
        self.composite_node.last_token()
    }

    fn as_node_trait(&self) -> (res: Node) {
        proof {
            use_type_invariant(self);
        }
        self.composite_node.as_node_trait()
    }
}

impl CompositeNodeTrait for OptionNameNode {
    fn children(&self) -> (res: Vec<Node>) {
        self.composite_node.children()
    }
}

/// What an option declaration of either form answers.
pub trait OptionDeclNode {
    /// The tree of the option's name.
    spec fn name_view(&self) -> NodeView;

    /// The value that the option is given.
    spec fn spec_value(&self) -> ValueNode;

    /// The name of the option, as a node.
    fn get_name(&self) -> (res: Node)
        ensures
            res@ == self.name_view(),
            res@.well_formed(),
    ;

    /// The value that the option is given.
    fn get_value(&self) -> (res: &ValueNode)
        ensures
            *res == self.spec_value(),
    ;
}

/// The children of an option declaration in source order. The statement
/// form begins with a keyword and ends with a semicolon; the compact form
/// has neither.
pub open spec fn option_children(
    keyword: Option<KeywordNode>,
    name: OptionNameNode,
    equals: RuneNode,
    val: ValueNode,
    semicolon: Option<RuneNode>,
) -> Seq<NodeView> {
    (match keyword {
        Some(k) => seq![k.node_view()],
        None => Seq::empty(),
    }) + seq![name.node_view(), equals.node_view(), val.node_view()] + (match semicolon {
        Some(s) => seq![s.node_view()],
        None => Seq::empty(),
    })
}

/// An option declaration: a name, an equals sign and a value. It stands
/// as a statement of its own, or in compact form in a bracketed list.
#[derive(Debug)]
pub struct OptionNode {
    composite_node: CompositeNode,
    keyword: Option<KeywordNode>,
    name: OptionNameNode,
    equals: RuneNode,
    val: ValueNode,
    semicolon: Option<RuneNode>,
}

impl OptionNode {
    #[verifier::type_invariant]
    spec fn inv(self) -> bool {
        &&& self.keyword is Some <==> self.semicolon is Some
        &&& self.composite_node@ == option_children(
            self.keyword,
            self.name,
            self.equals,
            self.val,
            self.semicolon,
        )
        &&& self.composite_node.has_span()
    }

    pub closed spec fn spec_keyword(&self) -> Option<KeywordNode> {
        self.keyword
    }

    pub closed spec fn spec_name(&self) -> OptionNameNode {
        self.name
    }

    pub closed spec fn spec_equals(&self) -> RuneNode {
        self.equals
    }

    pub closed spec fn spec_semicolon(&self) -> Option<RuneNode> {
        self.semicolon
    }

    /// Whether the declaration is of the compact form.
    pub open spec fn spec_is_compact(&self) -> bool {
        self.spec_keyword() is None
    }

    /// An option in statement form: keyword, name, equals sign, value and
    /// semicolon.
    pub fn new(
        keyword: KeywordNode,
        name: OptionNameNode,
        equals: RuneNode,
        val: ValueNode,
        semicolon: RuneNode,
    ) -> (res: Self)
        ensures
            res.spec_keyword() == Some(keyword),
            res.spec_name() == name,
            res.spec_equals() == equals,
            res.spec_value() == val,
            res.spec_semicolon() == Some(semicolon),
            res.node_view() == NodeView::Composite(
                seq![
                    keyword.node_view(),
                    name.node_view(),
                    equals.node_view(),
                    val.node_view(),
                    semicolon.node_view(),
                ],
            ),
    {
        let mut composite_node = CompositeNode::new();
        composite_node.push_child(keyword.as_node_trait());
        composite_node.push_child(name.as_node_trait());
        composite_node.push_child(equals.as_node_trait());
        composite_node.push_child(val.as_node_trait());
        composite_node.push_child(semicolon.as_node_trait());
        assert(composite_node@ =~= seq![
            keyword.node_view(),
            name.node_view(),
            equals.node_view(),
            val.node_view(),
            semicolon.node_view(),
        ]);
        assert(composite_node@ =~= option_children(
            Some(keyword),
            name,
            equals,
            val,
            Some(semicolon),
        ));
        OptionNode {
            composite_node,
            keyword: Some(keyword),
            name,
            equals,
            val,
            semicolon: Some(semicolon),
        }
    }

    /// An option in compact form: name, equals sign and value.
    pub fn new_compact(name: OptionNameNode, equals: RuneNode, val: ValueNode) -> (res: Self)
        ensures
            res.spec_keyword() is None,
            res.spec_name() == name,
            res.spec_equals() == equals,
            res.spec_value() == val,
            res.spec_semicolon() is None,
            res.node_view() == NodeView::Composite(
                seq![name.node_view(), equals.node_view(), val.node_view()],
            ),
    {
        let mut composite_node = CompositeNode::new();
        composite_node.push_child(name.as_node_trait());
        composite_node.push_child(equals.as_node_trait());
        composite_node.push_child(val.as_node_trait());
        assert(composite_node@ =~= seq![name.node_view(), equals.node_view(), val.node_view()]);
        assert(composite_node@ =~= option_children(None, name, equals, val, None));
        OptionNode { composite_node, keyword: None, name, equals, val, semicolon: None }
    }

    /// Whether the declaration is of the compact form.
    pub fn is_compact(&self) -> (res: bool)
        ensures
            res == self.spec_is_compact(),
            res == self.spec_semicolon() is None,
    {
        proof {
            use_type_invariant(self);
        }
        self.keyword.is_none()
    }

    pub fn name(&self) -> (res: &OptionNameNode)
        ensures
            *res == self.spec_name(),
    {
        &self.name
    }
}

impl NodeTrait for OptionNode {
    closed spec fn node_view(&self) -> NodeView {
        NodeView::Composite(self.composite_node@)
    }

    open spec fn has_span(&self) -> bool {
        true
    }

    fn first_token(&self) -> (res: &TerminalNode) {
        proof {
            use_type_invariant(self);
        }
        self.composite_node.first_token()
    }

    fn last_token(&self) -> (res: &TerminalNode) {
        proof {
            use_type_invariant(self);
        }
        self.composite_node.last_token()
    }

    fn as_node_trait(&self) -> (res: Node) {
        proof {
            use_type_invariant(self);
        }
        self.composite_node.as_node_trait()
    }
}

impl CompositeNodeTrait for OptionNode {
    fn children(&self) -> (res: Vec<Node>) {
        self.composite_node.children()
    }
}

impl OptionDeclNode for OptionNode {
    open spec fn name_view(&self) -> NodeView {
        self.spec_name().node_view()
    }

    closed spec fn spec_value(&self) -> ValueNode {
        self.val
    }

    fn get_name(&self) -> (res: Node) {
        self.name.as_node_trait()
    }

    fn get_value(&self) -> (res: &ValueNode) {
        &self.val
    }
}

/// Each option of the list is of the compact form.
pub open spec fn all_compact(options: Seq<OptionNode>) -> bool {
    forall|i: int| 0 <= i < options.len() ==> (#[trigger] options[i]).spec_is_compact()
}

/// Options in compact form between brackets, separated by commas.
#[derive(Debug)]
pub struct CompactOptionsNode {
    composite_node: CompositeNode,
    open_bracket: RuneNode,
    options: Vec<OptionNode>,
    commas: Vec<RuneNode>,
    close_bracket: RuneNode,
}

impl CompactOptionsNode {
    #[verifier::type_invariant]
    spec fn inv(self) -> bool {
        &&& self.composite_node@ == delimited(
            self.open_bracket.node_view(),
            views_of(self.options@),
            views_of(self.commas@),
            self.close_bracket.node_view(),
        )
        &&& self.composite_node.has_span()
        &&& separators_fit(self.options.len() as int, self.commas.len() as int)
        &&& all_compact(self.options@)
    }

    pub closed spec fn spec_open_bracket(&self) -> RuneNode {
        self.open_bracket
    }

    pub closed spec fn spec_elements(&self) -> Seq<OptionNode> {
        self.options@
    }

    pub closed spec fn spec_commas(&self) -> Seq<RuneNode> {
        self.commas@
    }

    pub closed spec fn spec_close_bracket(&self) -> RuneNode {
        self.close_bracket
    }

    /// Builds the list from its parts in source order. There must be one
    /// comma between each two options, and each option must be of the
    /// compact form.
    pub fn new(
        open_bracket: RuneNode,
        opts: Vec<OptionNode>,
        commas: Vec<RuneNode>,
        close_bracket: RuneNode,
    ) -> (res: Result<Self, ConstructionError>)
        ensures
            match res {
                Ok(node) => {
                    &&& separators_fit(opts.len() as int, commas.len() as int)
                    &&& all_compact(opts@)
                    &&& node.spec_open_bracket() == open_bracket
                    &&& node.spec_elements() == opts@
                    &&& node.spec_commas() == commas@
                    &&& node.spec_close_bracket() == close_bracket
                    &&& node.node_view() == NodeView::Composite(
                        delimited(
                            open_bracket.node_view(),
                            views_of(opts@),
                            views_of(commas@),
                            close_bracket.node_view(),
                        ),
                    )
                },
                Err(e) => if !separators_fit(opts.len() as int, commas.len() as int) {
                    e == ConstructionError::SeparatorMismatch
                } else {
                    !all_compact(opts@) && e == ConstructionError::NotCompact
                },
            },
    {
        if !(opts.len() == 0 && commas.len() == 0 || opts.len() > 0 && commas.len() == opts.len()
            - 1) {
            return Err(ConstructionError::SeparatorMismatch);
        }
        let mut i: usize = 0;
        while i < opts.len()
            invariant
                i <= opts.len(),
                separators_fit(opts.len() as int, commas.len() as int),
                forall|j: int| 0 <= j < i ==> (#[trigger] opts[j]).spec_is_compact(),
            decreases opts.len() - i,
        {
            if !opts[i].is_compact() {
                assert(!opts@[i as int].spec_is_compact());
                return Err(ConstructionError::NotCompact);
            }
            i += 1;
        }
        let mut composite_node = CompositeNode::new();
        composite_node.push_child(open_bracket.as_node_trait());
        push_alternating(&mut composite_node, &opts, &commas);
        composite_node.push_child(close_bracket.as_node_trait());
        assert(composite_node@ =~= delimited(
            open_bracket.node_view(),
            views_of(opts@),
            views_of(commas@),
            close_bracket.node_view(),
        ));
        Ok(CompactOptionsNode { composite_node, open_bracket, options: opts, commas, close_bracket })
    }

    /// The options of the list, in order.
    pub fn get_elements(&self) -> (res: &Vec<OptionNode>)
        ensures
            res@ == self.spec_elements(),
            all_compact(res@),
    {
        proof {
            use_type_invariant(self);
        }
        &self.options
    }

    pub fn open_bracket(&self) -> (res: &RuneNode)
        ensures
            *res == self.spec_open_bracket(),
    {
        &self.open_bracket
    }

    pub fn commas(&self) -> (res: &Vec<RuneNode>)
        ensures
            res@ == self.spec_commas(),
            separators_fit(self.spec_elements().len() as int, res.len() as int),
    {
        proof {
            use_type_invariant(self);
        }
        &self.commas
    }

    pub fn close_bracket(&self) -> (res: &RuneNode)
        ensures
            *res == self.spec_close_bracket(),
    {
        &self.close_bracket
    }
}

impl NodeTrait for CompactOptionsNode {
    closed spec fn node_view(&self) -> NodeView {
        NodeView::Composite(self.composite_node@)
    }

    open spec fn has_span(&self) -> bool {
        true
    }

    fn first_token(&self) -> (res: &TerminalNode) {
        proof {
            use_type_invariant(self);
        }
        self.composite_node.first_token()
    }

    fn last_token(&self) -> (res: &TerminalNode) {
        proof {
            use_type_invariant(self);
        }
        self.composite_node.last_token()
    }

    fn as_node_trait(&self) -> (res: Node) {
        proof {
            use_type_invariant(self);
        }
        self.composite_node.as_node_trait()
    }
}

impl CompositeNodeTrait for CompactOptionsNode {
    fn children(&self) -> (res: Vec<Node>) {
        self.composite_node.children()
    }
}

} // verus!
