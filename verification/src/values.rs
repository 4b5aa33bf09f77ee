//! Literals, and what a node that carries a value answers.

use vstd::prelude::*;
use crate::error::ConstructionError;
use crate::identifiers::{CompoundIdentNode, IdentNode, KeywordNode};
use crate::node::{
    alternate, push_alternating, push_nodes, views_of, CompositeNode, CompositeNodeTrait, Node, NodeTrait,
    NodeView, RuneNode, TerminalNode, TokenInfo, TokenValueView,
};

verus! {

/// A node that, consumed, gives the value that its source text stands for.
pub trait ValueNodeTrait<T>: NodeTrait + Sized {
    /// `v` is the value that the node decodes to.
    spec fn decodes_to(&self, v: T) -> bool;

    /// Consumes the node and gives its value.
    fn value(self) -> (res: T)
        ensures
            self.decodes_to(res),
    ;
}

/// A node that reads as a string.
pub trait StringValueNode: Sized {
    /// The string that the node reads as.
    spec fn string_view(&self) -> Seq<char>;

    fn as_string(self) -> (res: String)
        ensures
            res@ == self.string_view(),
    ;
}

/// One quoted string: its token and the string that it decodes to.
#[derive(Debug)]
pub struct StringLiteralNode {
    terminal_node: TerminalNode,
    val: String,
}

impl View for StringLiteralNode {
    type V = TokenValueView<Seq<char>>;

    closed spec fn view(&self) -> TokenValueView<Seq<char>> {
        TokenValueView { token: self.terminal_node@, value: self.val@ }
    }
}

impl Clone for StringLiteralNode {
    fn clone(&self) -> (res: Self)
        ensures
            res@ == self@,
    {
        StringLiteralNode { terminal_node: self.terminal_node.clone(), val: self.val.clone() }
    }
}

impl StringLiteralNode {
    /// The node for the token `info`, which decodes to `val`.
    pub fn new(val: &str, info: TokenInfo) -> (res: Self)
        ensures
            res@ == (TokenValueView { token: info@, value: val@ }),
    {
        StringLiteralNode { terminal_node: info.as_terminal_node(), val: val.to_owned() }
    }
}

impl NodeTrait for StringLiteralNode {
    open spec fn node_view(&self) -> NodeView {
        NodeView::Terminal(self@.token)
    }

    open spec fn has_span(&self) -> bool {
        true
    }

    fn first_token(&self) -> (res: &TerminalNode) {
        &self.terminal_node
    }

    fn last_token(&self) -> (res: &TerminalNode) {
        &self.terminal_node
    }

    fn as_node_trait(&self) -> (res: Node) {
        Node::Terminal(self.terminal_node.clone())
    }
}

impl StringValueNode for StringLiteralNode {
    open spec fn string_view(&self) -> Seq<char> {
        self@.value
    }

    fn as_string(self) -> (res: String) {
        self.val
    }
}

impl ValueNodeTrait<String> for StringLiteralNode {
    open spec fn decodes_to(&self, v: String) -> bool {
        v@ == self@.value
    }

    fn value(self) -> (res: String) {
        self.as_string()
    }
}

/// The strings that a list of string literals decode to, in order.
pub open spec fn strings_of(components: Seq<StringLiteralNode>) -> Seq<Seq<char>> {
    components.map_values(|c: StringLiteralNode| c@.value)
}

/// The first `n` strings of the list, one after the other.
pub open spec fn concat_upto(strings: Seq<Seq<char>>, n: int) -> Seq<char>
    decreases n,
{
    if n <= 0 {
        Seq::empty()
    } else {
        concat_upto(strings, n - 1) + strings[n - 1]
    }
}

/// Adjacent string literals that read as one string.
#[derive(Debug)]
pub struct CompoundStringLiteralNode {
    composite_node: CompositeNode,
    val: String,
}

impl CompoundStringLiteralNode {
    #[verifier::type_invariant]
    spec fn inv(self) -> bool {
        self.composite_node.has_span()
    }

    /// Joins the string literals `components`, which follow each other in
    /// the source. There must be at least one.
    pub fn new(components: Vec<StringLiteralNode>) -> (res: Result<Self, ConstructionError>)
        ensures
            match res {
                Ok(node) => {
                    &&& components.len() > 0
                    &&& node.node_view() == NodeView::Composite(views_of(components@))
                    &&& node.string_view() == concat_upto(
                        strings_of(components@),
                        components.len() as int,
                    )
                },
                Err(e) => components.len() == 0 && e == ConstructionError::NoComponents,
            },
    {
        if components.len() == 0 {
            return Err(ConstructionError::NoComponents);
        }
        let mut composite_node = CompositeNode::new();
        push_nodes(&mut composite_node, &components);
        assert(composite_node@ =~= views_of(components@));
        let mut val = String::new();
        let mut i: usize = 0;
        while i < components.len()
            invariant
                i <= components.len(),
                val@ == concat_upto(strings_of(components@), i as int),
            decreases components.len() - i,
        {
            val.append(components[i].val.as_str());
            i += 1;
        }
        Ok(CompoundStringLiteralNode { composite_node, val })
    }
}

impl NodeTrait for CompoundStringLiteralNode {
    closed spec fn node_view(&self) -> NodeView {
        NodeView::Composite(self.composite_node@)
    }

    open spec fn has_span(&self) -> bool {
        true
    }

    fn first_token(&self) -> (res: &TerminalNode) {
        proof {
            use_type_invariant(self);
        }
        self.composite_node.first_token()
    }

    fn last_token(&self) -> (res: &TerminalNode) {
        proof {
            use_type_invariant(self);
        }
        self.composite_node.last_token()
    }

    fn as_node_trait(&self) -> (res: Node) {
        proof {
            use_type_invariant(self);
        }
        self.composite_node.as_node_trait()
    }
}

impl CompositeNodeTrait for CompoundStringLiteralNode {
    fn children(&self) -> (res: Vec<Node>) {
        self.composite_node.children()
    }
}

impl StringValueNode for CompoundStringLiteralNode {
    closed spec fn string_view(&self) -> Seq<char> {
        self.val@
    }

    fn as_string(self) -> (res: String) {
        self.val
    }
}

impl ValueNodeTrait<String> for CompoundStringLiteralNode {
    open spec fn decodes_to(&self, v: String) -> bool {
        v@ == self.string_view()
    }

    fn value(self) -> (res: String) {
        self.as_string()
    }
}

/// The signed 64-bit reading of the integer `v`, with a flag that says
/// whether `v` has one. Without one the reading is 0.
pub open spec fn signed_view(v: int) -> (i64, bool) {
    if i64::MIN <= v <= i64::MAX {
        (v as i64, true)
    } else {
        (0i64, false)
    }
}

/// The unsigned 64-bit reading of the integer `v`, with a flag that says
/// whether `v` has one. Without one the reading is 0.
pub open spec fn unsigned_view(v: int) -> (u64, bool) {
    if 0 <= v <= u64::MAX {
        (v as u64, true)
    } else {
        (0u64, false)
    }
}

/// An integer literal. Whether it will be used as a signed or as an
/// unsigned number is not known where it is parsed, so it offers both
/// readings, each with a flag that says whether the reading is valid.
pub trait IntValueNodeTrait: NodeTrait {
    /// The integer that the literal stands for.
    spec fn int_value(&self) -> int;

    fn as_int64(&self) -> (res: (i64, bool))
        ensures
            res == signed_view(self.int_value()),
    ;

    fn as_uint64(&self) -> (res: (u64, bool))
        ensures
            res == unsigned_view(self.int_value()),
    ;
}

/// An integer literal without a sign.
#[derive(Debug)]
pub struct UintLiteralNode {
    terminal_node: TerminalNode,
    val: u64,
}

impl View for UintLiteralNode {
    type V = TokenValueView<u64>;

    closed spec fn view(&self) -> TokenValueView<u64> {
        TokenValueView { token: self.terminal_node@, value: self.val }
    }
}

impl Clone for UintLiteralNode {
    fn clone(&self) -> (res: Self)
        ensures
            res@ == self@,
    {
        UintLiteralNode { terminal_node: self.terminal_node.clone(), val: self.val }
    }
}

impl UintLiteralNode {
    /// The node for the token `info`, which decodes to `val`.
    pub fn new(val: u64, info: TokenInfo) -> (res: Self)
        ensures
            res@ == (TokenValueView { token: info@, value: val }),
    {
        UintLiteralNode { terminal_node: info.as_terminal_node(), val }
    }
}

impl NodeTrait for UintLiteralNode {
    open spec fn node_view(&self) -> NodeView {
        NodeView::Terminal(self@.token)
    }

    open spec fn has_span(&self) -> bool {
        true
    }

    fn first_token(&self) -> (res: &TerminalNode) {
        &self.terminal_node
    }

    fn last_token(&self) -> (res: &TerminalNode) {
        &self.terminal_node
    }

    fn as_node_trait(&self) -> (res: Node) {
        Node::Terminal(self.terminal_node.clone())
    }
}

impl ValueNodeTrait<u64> for UintLiteralNode {
    open spec fn decodes_to(&self, v: u64) -> bool {
        v == self@.value
    }

    fn value(self) -> (res: u64) {
        self.val
    }
}

impl IntValueNodeTrait for UintLiteralNode {
    open spec fn int_value(&self) -> int {
        self@.value as int
    }

    fn as_int64(&self) -> (res: (i64, bool))
        ensures
            res == if self@.value <= i64::MAX {
                (self@.value as i64, true)
            } else {
                (0i64, false)
            },
    {
        if self.val > i64::MAX as u64 {
            (0, false)
        } else {
            (self.val as i64, true)
        }
    }

    fn as_uint64(&self) -> (res: (u64, bool))
        ensures
            res == (self@.value, true),
    {
        (self.val, true)
    }
}

/// An integer literal with a plus sign in front of it.
#[derive(Debug)]
pub struct PositiveUintLiteralNode {
    composite_node: CompositeNode,
    plus: RuneNode,
    uint: UintLiteralNode,
    val: u64,
}

impl PositiveUintLiteralNode {
    #[verifier::type_invariant]
    spec fn inv(self) -> bool {
        &&& self.composite_node@ == seq![self.plus.node_view(), self.uint.node_view()]
        &&& self.composite_node.has_span()
        &&& self.val == self.uint@.value
    }

    pub closed spec fn spec_sign(&self) -> RuneNode {
        self.plus
    }

    pub closed spec fn spec_uint(&self) -> UintLiteralNode {
        self.uint
    }

    /// The literal made of the sign `sign` and the digits `i` behind it.
    pub fn new(sign: RuneNode, i: UintLiteralNode) -> (res: Self)
        ensures
            res.spec_sign() == sign,
            res.spec_uint() == i,
            res.node_view() == NodeView::Composite(seq![sign.node_view(), i.node_view()]),
            res.int_value() == i@.value,
    {
        let mut composite_node = CompositeNode::new();
        composite_node.push_child(sign.as_node_trait());
        composite_node.push_child(i.as_node_trait());
        assert(composite_node@ =~= seq![sign.node_view(), i.node_view()]);
        let val = i.val;
        PositiveUintLiteralNode { composite_node, plus: sign, uint: i, val }
    }

    pub fn sign(&self) -> (res: &RuneNode)
        ensures
            *res == self.spec_sign(),
    {
        &self.plus
    }

    pub fn uint(&self) -> (res: &UintLiteralNode)
        ensures
            *res == self.spec_uint(),
    {
        &self.uint
    }
}

impl NodeTrait for PositiveUintLiteralNode {
    closed spec fn node_view(&self) -> NodeView {
        NodeView::Composite(self.composite_node@)
    }

    open spec fn has_span(&self) -> bool {
        true
    }

    fn first_token(&self) -> (res: &TerminalNode) {
        proof {
            use_type_invariant(self);
        }
        self.composite_node.first_token()
    }

    fn last_token(&self) -> (res: &TerminalNode) {
        proof {
            use_type_invariant(self);
        }
        self.composite_node.last_token()
    }

    fn as_node_trait(&self) -> (res: Node) {
        proof {
            use_type_invariant(self);
        }
        self.composite_node.as_node_trait()
    }
}

impl CompositeNodeTrait for PositiveUintLiteralNode {
    fn children(&self) -> (res: Vec<Node>) {
        self.composite_node.children()
    }
}

impl ValueNodeTrait<u64> for PositiveUintLiteralNode {
    open spec fn decodes_to(&self, v: u64) -> bool {
        v == self.int_value()
    }

    fn value(self) -> (res: u64) {
        self.val
    }
}

impl IntValueNodeTrait for PositiveUintLiteralNode {
    closed spec fn int_value(&self) -> int {
        self.val as int
    }

    fn as_int64(&self) -> (res: (i64, bool)) {
        if self.val > i64::MAX as u64 {
            (0, false)
        } else {
            (self.val as i64, true)
        }
    }

    fn as_uint64(&self) -> (res: (u64, bool)) {
        (self.val, true)
    }
}

/// The largest magnitude that a negative literal can have: 2^63.
pub const MAX_NEGATIVE_MAGNITUDE: u64 = 0x8000_0000_0000_0000;

/// An integer literal with a minus sign in front of it.
#[derive(Debug)]
pub struct NegativeIntLiteralNode {
    composite_node: CompositeNode,
    minus: RuneNode,
    uint: UintLiteralNode,
    val: i64,
}

impl NegativeIntLiteralNode {
    #[verifier::type_invariant]
    spec fn inv(self) -> bool {
        &&& self.composite_node@ == seq![self.minus.node_view(), self.uint.node_view()]
        &&& self.composite_node.has_span()
        &&& self.val == -self.uint@.value
    }

    pub closed spec fn spec_sign(&self) -> RuneNode {
        self.minus
    }

    pub closed spec fn spec_uint(&self) -> UintLiteralNode {
        self.uint
    }

    /// The literal made of the sign `sign` and the digits `i` behind it,
    /// which give its magnitude. A magnitude above 2^63 has no negative in
    /// 64 bits and is refused.
    pub fn new(sign: RuneNode, i: UintLiteralNode) -> (res: Result<Self, ConstructionError>)
        ensures
            match res {
                Ok(node) => {
                    &&& i@.value <= MAX_NEGATIVE_MAGNITUDE
                    &&& node.spec_sign() == sign
                    &&& node.spec_uint() == i
                    &&& node.node_view() == NodeView::Composite(
                        seq![sign.node_view(), i.node_view()],
                    )
                    &&& node.int_value() == -i@.value
                },
                Err(e) => i@.value > MAX_NEGATIVE_MAGNITUDE && e == ConstructionError::OutOfRange,
            },
    {
        if i.val > MAX_NEGATIVE_MAGNITUDE {
            return Err(ConstructionError::OutOfRange);
        }
        let val: i64 = if i.val == MAX_NEGATIVE_MAGNITUDE {
            i64::MIN
        } else {
            -(i.val as i64)
        };
        let mut composite_node = CompositeNode::new();
        composite_node.push_child(sign.as_node_trait());
        composite_node.push_child(i.as_node_trait());
        assert(composite_node@ =~= seq![sign.node_view(), i.node_view()]);
        Ok(NegativeIntLiteralNode { composite_node, minus: sign, uint: i, val })
    }

    pub fn sign(&self) -> (res: &RuneNode)
        ensures
            *res == self.spec_sign(),
    {
        &self.minus
    }

    pub fn uint(&self) -> (res: &UintLiteralNode)
        ensures
            *res == self.spec_uint(),
    {
        &self.uint
    }
}

impl NodeTrait for NegativeIntLiteralNode {
    closed spec fn node_view(&self) -> NodeView {
        NodeView::Composite(self.composite_node@)
    }

    open spec fn has_span(&self) -> bool {
        true
    }

    fn first_token(&self) -> (res: &TerminalNode) {
        proof {
            use_type_invariant(self);
        }
        self.composite_node.first_token()
    }

    fn last_token(&self) -> (res: &TerminalNode) {
        proof {
            use_type_invariant(self);
        }
        self.composite_node.last_token()
    }

    fn as_node_trait(&self) -> (res: Node) {
        proof {
            use_type_invariant(self);
        }
        self.composite_node.as_node_trait()
    }
}

impl CompositeNodeTrait for NegativeIntLiteralNode {
    fn children(&self) -> (res: Vec<Node>) {
        self.composite_node.children()
    }
}

impl ValueNodeTrait<i64> for NegativeIntLiteralNode {
    open spec fn decodes_to(&self, v: i64) -> bool {
        v == self.int_value()
    }

    fn value(self) -> (res: i64) {
        self.val
    }
}

impl IntValueNodeTrait for NegativeIntLiteralNode {
    closed spec fn int_value(&self) -> int {
        self.val as int
    }

    fn as_int64(&self) -> (res: (i64, bool))
        ensures
            res == ((-self.spec_uint()@.value) as i64, true),
    {
        proof {
            use_type_invariant(self);
        }
        (self.val, true)
    }

    fn as_uint64(&self) -> (res: (u64, bool))
        ensures
            res == (0u64, self.spec_uint()@.value == 0),
    {
        proof {
            use_type_invariant(self);
        }
        if self.val < 0 {
            (0, false)
        } else {
            (self.val as u64, true)
        }
    }
}

/// What an unsigned literal of value `v` answers: its unsigned reading is
/// always valid, its signed reading as long as `v` is no larger than the
/// largest signed number.
pub proof fn lemma_unsigned_literal_views(v: u64)
    ensures
        signed_view(v as int) == if v <= i64::MAX {
            (v as i64, true)
        } else {
            (0i64, false)
        },
        unsigned_view(v as int) == (v, true),
{
}

/// What a negative literal of magnitude `m` answers: its signed reading is
/// always valid and is `-m`; its unsigned reading is invalid unless `m` is
/// zero.
pub proof fn lemma_negative_literal_views(m: u64)
    requires
        m <= MAX_NEGATIVE_MAGNITUDE,
    ensures
        signed_view(-(m as int)) == ((-(m as int)) as i64, true),
        unsigned_view(-(m as int)) == if m > 0 {
            (0u64, false)
        } else {
            (0u64, true)
        },
{
}

/// A keyword that reads as a truth value.
#[derive(Debug)]
pub struct BoolLiteralNode {
    keyword_node: KeywordNode,
    val: bool,
}

impl View for BoolLiteralNode {
    type V = TokenValueView<bool>;

    closed spec fn view(&self) -> TokenValueView<bool> {
        TokenValueView { token: self.keyword_node@.token, value: self.val }
    }
}

impl BoolLiteralNode {
    /// The literal for the keyword `name`. It is true exactly when the
    /// keyword is `true`.
    pub fn new(name: KeywordNode) -> (res: Self)
        ensures
            res@ == (TokenValueView { token: name@.token, value: name@.value == "true"@ }),
    {
        let val = name.is("true");
        BoolLiteralNode { keyword_node: name, val }
    }
}

impl NodeTrait for BoolLiteralNode {
    open spec fn node_view(&self) -> NodeView {
        NodeView::Terminal(self@.token)
    }

    open spec fn has_span(&self) -> bool {
        true
    }

    fn first_token(&self) -> (res: &TerminalNode) {
        self.keyword_node.first_token()
    }

    fn last_token(&self) -> (res: &TerminalNode) {
        self.keyword_node.last_token()
    }

    fn as_node_trait(&self) -> (res: Node) {
        self.keyword_node.as_node_trait()
    }
}

impl ValueNodeTrait<bool> for BoolLiteralNode {
    open spec fn decodes_to(&self, v: bool) -> bool {
        v == self@.value
    }

    fn value(self) -> (res: bool) {
        self.val
    }
}


/// A float literal in digits. Its value is kept as the bit pattern of the
/// IEEE 754 double that the token decodes to.
#[derive(Debug)]
pub struct FloatLiteralNode {
    terminal_node: TerminalNode,
    bits: u64,
}

impl View for FloatLiteralNode {
    type V = TokenValueView<u64>;

    closed spec fn view(&self) -> TokenValueView<u64> {
        TokenValueView { token: self.terminal_node@, value: self.bits }
    }
}

impl Clone for FloatLiteralNode {
    fn clone(&self) -> (res: Self)
        ensures
            res@ == self@,
    {
        FloatLiteralNode { terminal_node: self.terminal_node.clone(), bits: self.bits }
    }
}

impl FloatLiteralNode {
    /// The node for the token `info`, which decodes to the double with the
    /// bit pattern `bits`.
    pub fn new(bits: u64, info: TokenInfo) -> (res: Self)
        ensures
            res@ == (TokenValueView { token: info@, value: bits }),
    {
        FloatLiteralNode { terminal_node: info.as_terminal_node(), bits }
    }

    /// The bit pattern of the double that the literal decodes to.
    pub fn bits(&self) -> (res: u64)
        ensures
            res == self@.value,
    {
        self.bits
    }
}

impl NodeTrait for FloatLiteralNode {
    open spec fn node_view(&self) -> NodeView {
        NodeView::Terminal(self@.token)
    }

    open spec fn has_span(&self) -> bool {
        true
    }

    fn first_token(&self) -> (res: &TerminalNode) {
        &self.terminal_node
    }

    fn last_token(&self) -> (res: &TerminalNode) {
        &self.terminal_node
    }

    fn as_node_trait(&self) -> (res: Node) {
        Node::Terminal(self.terminal_node.clone())
    }
}

/// The two values that a float keyword can stand for.
#[derive(Debug, Clone, Copy, PartialEq, Eq, Structural)]
pub enum SpecialFloat {
    /// Positive infinity.
    Infinity,
    /// Not a number.
    NotANumber,
}

/// A keyword that reads as a float which is not finite.
#[derive(Debug)]
pub struct SpecialFloatLiteralNode {
    keyword_node: KeywordNode,
    val: SpecialFloat,
}

impl View for SpecialFloatLiteralNode {
    type V = TokenValueView<SpecialFloat>;

    closed spec fn view(&self) -> TokenValueView<SpecialFloat> {
        TokenValueView { token: self.keyword_node@.token, value: self.val }
    }
}

impl SpecialFloatLiteralNode {
    /// The literal for the keyword `name`: positive infinity when the
    /// keyword is `inf`, not a number for any other keyword.
    pub fn new(name: KeywordNode) -> (res: Self)
        ensures
            res@ == (TokenValueView {
                token: name@.token,
                value: if name@.value == "inf"@ {
                    SpecialFloat::Infinity
                } else {
                    SpecialFloat::NotANumber
                },
            }),
    {
        let val = if name.is("inf") {
            SpecialFloat::Infinity
        } else {
            SpecialFloat::NotANumber
        };
        SpecialFloatLiteralNode { keyword_node: name, val }
    }

    /// Which of the two values the keyword stands for.
    pub fn kind(&self) -> (res: SpecialFloat)
        ensures
            res == self@.value,
    {
        self.val
    }
}

impl NodeTrait for SpecialFloatLiteralNode {
    open spec fn node_view(&self) -> NodeView {
        NodeView::Terminal(self@.token)
    }

    open spec fn has_span(&self) -> bool {
        true
    }

    fn first_token(&self) -> (res: &TerminalNode) {
        self.keyword_node.first_token()
    }

    fn last_token(&self) -> (res: &TerminalNode) {
        self.keyword_node.last_token()
    }

    fn as_node_trait(&self) -> (res: Node) {
        self.keyword_node.as_node_trait()
    }
}

impl ValueNodeTrait<SpecialFloat> for SpecialFloatLiteralNode {
    open spec fn decodes_to(&self, v: SpecialFloat) -> bool {
        v == self@.value
    }

    fn value(self) -> (res: SpecialFloat) {
        self.val
    }
}

/// A float without a sign: digits, or a keyword.
#[derive(Debug)]
pub enum FloatValueNode {
    Float(FloatLiteralNode),
    Special(SpecialFloatLiteralNode),
}

impl NodeTrait for FloatValueNode {
    open spec fn node_view(&self) -> NodeView {
        match self {
            FloatValueNode::Float(n) => n.node_view(),
            FloatValueNode::Special(n) => n.node_view(),
        }
    }

    open spec fn has_span(&self) -> bool {
        true
    }

    fn first_token(&self) -> (res: &TerminalNode) {
        match self {
            FloatValueNode::Float(n) => n.first_token(),
            FloatValueNode::Special(n) => n.first_token(),
        }
    }

    fn last_token(&self) -> (res: &TerminalNode) {
        match self {
            FloatValueNode::Float(n) => n.last_token(),
            FloatValueNode::Special(n) => n.last_token(),
        }
    }

    fn as_node_trait(&self) -> (res: Node) {
        match self {
            FloatValueNode::Float(n) => n.as_node_trait(),
            FloatValueNode::Special(n) => n.as_node_trait(),
        }
    }
}

/// A float with a sign in front of it.
#[derive(Debug)]
pub struct SignedFloatLiteralNode {
    composite_node: CompositeNode,
    sign: RuneNode,
    float: FloatValueNode,
    negated: bool,
}

impl SignedFloatLiteralNode {
    #[verifier::type_invariant]
    spec fn inv(self) -> bool {
        &&& self.composite_node@ == seq![self.sign.node_view(), self.float.node_view()]
        &&& self.composite_node.has_span()
        &&& self.negated == (self.sign@.value == '-')
    }

    pub closed spec fn spec_sign(&self) -> RuneNode {
        self.sign
    }

    pub closed spec fn spec_float(&self) -> FloatValueNode {
        self.float
    }

    /// The literal made of the sign `sign` and the float `f` behind it.
    pub fn new(sign: RuneNode, f: FloatValueNode) -> (res: Self)
        ensures
            res.spec_sign() == sign,
            res.spec_float() == f,
            res.node_view() == NodeView::Composite(seq![sign.node_view(), f.node_view()]),
    {
        let mut composite_node = CompositeNode::new();
        composite_node.push_child(sign.as_node_trait());
        composite_node.push_child(f.as_node_trait());
        assert(composite_node@ =~= seq![sign.node_view(), f.node_view()]);
        let negated = sign.rune() == '-';
        SignedFloatLiteralNode { composite_node, sign, float: f, negated }
    }

    pub fn sign(&self) -> (res: &RuneNode)
        ensures
            *res == self.spec_sign(),
    {
        &self.sign
    }

    /// The float behind the sign.
    pub fn float(&self) -> (res: &FloatValueNode)
        ensures
            *res == self.spec_float(),
    {
        &self.float
    }

    /// Whether the sign turns the float behind it into its negative: it
    /// does exactly when it is a minus.
    pub fn is_negated(&self) -> (res: bool)
        ensures
            res == (self.spec_sign()@.value == '-'),
    {
        proof {
            use_type_invariant(self);
        }
        self.negated
    }
}

impl NodeTrait for SignedFloatLiteralNode {
    closed spec fn node_view(&self) -> NodeView {
        NodeView::Composite(self.composite_node@)
    }

    open spec fn has_span(&self) -> bool {
        true
    }

    fn first_token(&self) -> (res: &TerminalNode) {
        proof {
            use_type_invariant(self);
        }
        self.composite_node.first_token()
    }

    fn last_token(&self) -> (res: &TerminalNode) {
        proof {
            use_type_invariant(self);
        }
        self.composite_node.last_token()
    }

    fn as_node_trait(&self) -> (res: Node) {
        proof {
            use_type_invariant(self);
        }
        self.composite_node.as_node_trait()
    }
}

impl CompositeNodeTrait for SignedFloatLiteralNode {
    fn children(&self) -> (res: Vec<Node>) {
        self.composite_node.children()
    }
}

/// An integer literal of any of its three forms.
#[derive(Debug)]
pub enum IntValueNode {
    Uint(UintLiteralNode),
    PositiveUint(PositiveUintLiteralNode),
    NegativeInt(NegativeIntLiteralNode),
}

impl NodeTrait for IntValueNode {
    open spec fn node_view(&self) -> NodeView {
        match self {
            IntValueNode::Uint(n) => n.node_view(),
            IntValueNode::PositiveUint(n) => n.node_view(),
            IntValueNode::NegativeInt(n) => n.node_view(),
        }
    }

    open spec fn has_span(&self) -> bool {
        true
    }

    fn first_token(&self) -> (res: &TerminalNode) {
        match self {
            IntValueNode::Uint(n) => n.first_token(),
            IntValueNode::PositiveUint(n) => n.first_token(),
            IntValueNode::NegativeInt(n) => n.first_token(),
        }
    }

    fn last_token(&self) -> (res: &TerminalNode) {
        match self {
            IntValueNode::Uint(n) => n.last_token(),
            IntValueNode::PositiveUint(n) => n.last_token(),
            IntValueNode::NegativeInt(n) => n.last_token(),
        }
    }

    fn as_node_trait(&self) -> (res: Node) {
        match self {
            IntValueNode::Uint(n) => n.as_node_trait(),
            IntValueNode::PositiveUint(n) => n.as_node_trait(),
            IntValueNode::NegativeInt(n) => n.as_node_trait(),
        }
    }
}

impl IntValueNodeTrait for IntValueNode {
    open spec fn int_value(&self) -> int {
        match self {
            IntValueNode::Uint(n) => n.int_value(),
            IntValueNode::PositiveUint(n) => n.int_value(),
            IntValueNode::NegativeInt(n) => n.int_value(),
        }
    }

    fn as_int64(&self) -> (res: (i64, bool)) {
        match self {
            IntValueNode::Uint(n) => n.as_int64(),
            IntValueNode::PositiveUint(n) => n.as_int64(),
            IntValueNode::NegativeInt(n) => n.as_int64(),
        }
    }

    fn as_uint64(&self) -> (res: (u64, bool)) {
        match self {
            IntValueNode::Uint(n) => n.as_uint64(),
            IntValueNode::PositiveUint(n) => n.as_uint64(),
            IntValueNode::NegativeInt(n) => n.as_uint64(),
        }
    }
}

/// The kinds of value that a literal can decode to.
#[derive(Debug, Clone, Copy, PartialEq, Eq, Structural)]
pub enum ValueKind {
    Text,
    Unsigned,
    Signed,
    Float,
    Bool,
    Array,
    Message,
}

/// A value as it stands behind an option name, in an array or in a field
/// of a message literal: one of the kinds of literal, or an identifier.
#[derive(Debug)]
pub enum ValueNode {
    Ident(IdentNode),
    CompoundIdent(CompoundIdentNode),
    StringLiteral(StringLiteralNode),
    CompoundString(CompoundStringLiteralNode),
    Uint(UintLiteralNode),
    PositiveUint(PositiveUintLiteralNode),
    NegativeInt(NegativeIntLiteralNode),
    Float(FloatLiteralNode),
    SpecialFloat(SpecialFloatLiteralNode),
    SignedFloat(SignedFloatLiteralNode),
    Bool(BoolLiteralNode),
    Array(ArrayLiteralNode),
    Message(MessageLiteralNode),
}

impl ValueNode {
    /// The kind of value that the node decodes to.
    pub open spec fn spec_kind(&self) -> ValueKind {
        match self {
            ValueNode::Ident(_) => ValueKind::Text,
            ValueNode::CompoundIdent(_) => ValueKind::Text,
            ValueNode::StringLiteral(_) => ValueKind::Text,
            ValueNode::CompoundString(_) => ValueKind::Text,
            ValueNode::Uint(_) => ValueKind::Unsigned,
            ValueNode::PositiveUint(_) => ValueKind::Unsigned,
            ValueNode::NegativeInt(_) => ValueKind::Signed,
            ValueNode::Float(_) => ValueKind::Float,
            ValueNode::SpecialFloat(_) => ValueKind::Float,
            ValueNode::SignedFloat(_) => ValueKind::Float,
            ValueNode::Bool(_) => ValueKind::Bool,
            ValueNode::Array(_) => ValueKind::Array,
            ValueNode::Message(_) => ValueKind::Message,
        }
    }

    pub fn kind(&self) -> (res: ValueKind)
        ensures
            res == self.spec_kind(),
    {
        match self {
            ValueNode::Ident(_) => ValueKind::Text,
            ValueNode::CompoundIdent(_) => ValueKind::Text,
            ValueNode::StringLiteral(_) => ValueKind::Text,
            ValueNode::CompoundString(_) => ValueKind::Text,
            ValueNode::Uint(_) => ValueKind::Unsigned,
            ValueNode::PositiveUint(_) => ValueKind::Unsigned,
            ValueNode::NegativeInt(_) => ValueKind::Signed,
            ValueNode::Float(_) => ValueKind::Float,
            ValueNode::SpecialFloat(_) => ValueKind::Float,
            ValueNode::SignedFloat(_) => ValueKind::Float,
            ValueNode::Bool(_) => ValueKind::Bool,
            ValueNode::Array(_) => ValueKind::Array,
            ValueNode::Message(_) => ValueKind::Message,
        }
    }
}

impl ValueNode {
    /// The tree of tokens that the value stands for.
    pub open spec fn tree(&self) -> NodeView {
        match self {
            ValueNode::Ident(n) => n.node_view(),
            ValueNode::CompoundIdent(n) => n.node_view(),
            ValueNode::StringLiteral(n) => n.node_view(),
            ValueNode::CompoundString(n) => n.node_view(),
            ValueNode::Uint(n) => n.node_view(),
            ValueNode::PositiveUint(n) => n.node_view(),
            ValueNode::NegativeInt(n) => n.node_view(),
            ValueNode::Float(n) => n.node_view(),
            ValueNode::SpecialFloat(n) => n.node_view(),
            ValueNode::SignedFloat(n) => n.node_view(),
            ValueNode::Bool(n) => n.node_view(),
            ValueNode::Array(n) => n.tree(),
            ValueNode::Message(n) => n.tree(),
        }
    }
}

/// The trees that a list of values stands for, in order.
pub open spec fn value_trees(values: Seq<ValueNode>) -> Seq<NodeView> {
    values.map_values(|v: ValueNode| v.tree())
}

/// The trees that a list of fields stands for, in order.
pub open spec fn field_trees(fields: Seq<MessageFieldNode>) -> Seq<NodeView> {
    fields.map_values(|f: MessageFieldNode| f.tree())
}

impl NodeTrait for ValueNode {
    open spec fn node_view(&self) -> NodeView {
        self.tree()
    }

    open spec fn has_span(&self) -> bool {
        true
    }

    fn first_token(&self) -> (res: &TerminalNode) {
        match self {
            ValueNode::Ident(n) => n.first_token(),
            ValueNode::CompoundIdent(n) => n.first_token(),
            ValueNode::StringLiteral(n) => n.first_token(),
            ValueNode::CompoundString(n) => n.first_token(),
            ValueNode::Uint(n) => n.first_token(),
            ValueNode::PositiveUint(n) => n.first_token(),
            ValueNode::NegativeInt(n) => n.first_token(),
            ValueNode::Float(n) => n.first_token(),
            ValueNode::SpecialFloat(n) => n.first_token(),
            ValueNode::SignedFloat(n) => n.first_token(),
            ValueNode::Bool(n) => n.first_token(),
            ValueNode::Array(n) => n.first_token(),
            ValueNode::Message(n) => n.first_token(),
        }
    }

    fn last_token(&self) -> (res: &TerminalNode) {
        match self {
            ValueNode::Ident(n) => n.last_token(),
            ValueNode::CompoundIdent(n) => n.last_token(),
            ValueNode::StringLiteral(n) => n.last_token(),
            ValueNode::CompoundString(n) => n.last_token(),
            ValueNode::Uint(n) => n.last_token(),
            ValueNode::PositiveUint(n) => n.last_token(),
            ValueNode::NegativeInt(n) => n.last_token(),
            ValueNode::Float(n) => n.last_token(),
            ValueNode::SpecialFloat(n) => n.last_token(),
            ValueNode::SignedFloat(n) => n.last_token(),
            ValueNode::Bool(n) => n.last_token(),
            ValueNode::Array(n) => n.last_token(),
            ValueNode::Message(n) => n.last_token(),
        }
    }

    fn as_node_trait(&self) -> (res: Node) {
        match self {
            ValueNode::Ident(n) => n.as_node_trait(),
            ValueNode::CompoundIdent(n) => n.as_node_trait(),
            ValueNode::StringLiteral(n) => n.as_node_trait(),
            ValueNode::CompoundString(n) => n.as_node_trait(),
            ValueNode::Uint(n) => n.as_node_trait(),
            ValueNode::PositiveUint(n) => n.as_node_trait(),
            ValueNode::NegativeInt(n) => n.as_node_trait(),
            ValueNode::Float(n) => n.as_node_trait(),
            ValueNode::SpecialFloat(n) => n.as_node_trait(),
            ValueNode::SignedFloat(n) => n.as_node_trait(),
            ValueNode::Bool(n) => n.as_node_trait(),
            ValueNode::Array(n) => n.as_node_trait(),
            ValueNode::Message(n) => n.as_node_trait(),
        }
    }
}

/// The items of a list in source order, between its delimiters: the
/// opening delimiter, then items and separators alternating, then the
/// closing delimiter.
pub open spec fn delimited(
    open: NodeView,
    items: Seq<NodeView>,
    seps: Seq<NodeView>,
    close: NodeView,
) -> Seq<NodeView> {
    seq![open] + alternate(items, seps) + seq![close]
}

/// The elements are all of the kind of the first.
pub open spec fn one_kind(elements: Seq<ValueNode>) -> bool {
    forall|i: int| 0 <= i < elements.len() ==> (#[trigger] elements[i]).spec_kind()
        == elements[0].spec_kind()
}

/// Values of one kind between brackets, separated by commas.
#[derive(Debug)]
pub struct ArrayLiteralNode {
    composite_node: CompositeNode,
    open_bracket: RuneNode,
    elements: Vec<ValueNode>,
    commas: Vec<RuneNode>,
    close_bracket: RuneNode,
}

impl ArrayLiteralNode {
    #[verifier::type_invariant]
    spec fn inv(self) -> bool {
        &&& self.composite_node@ == delimited(
            self.open_bracket.node_view(),
            value_trees(self.elements@),
            views_of(self.commas@),
            self.close_bracket.node_view(),
        )
        &&& self.composite_node.has_span()
        &&& separators_fit(self.elements.len() as int, self.commas.len() as int)
        &&& one_kind(self.elements@)
    }

    /// The tree of tokens that the array stands for.
    pub closed spec fn tree(&self) -> NodeView {
        NodeView::Composite(self.composite_node@)
    }

    pub closed spec fn spec_open_bracket(&self) -> RuneNode {
        self.open_bracket
    }

    pub closed spec fn spec_elements(&self) -> Seq<ValueNode> {
        self.elements@
    }

    pub closed spec fn spec_commas(&self) -> Seq<RuneNode> {
        self.commas@
    }

    pub closed spec fn spec_close_bracket(&self) -> RuneNode {
        self.close_bracket
    }

    /// Builds the array from its parts in source order. There must be one
    /// comma between each two values, and the values must be of one kind.
    pub fn new(
        open_bracket: RuneNode,
        vals: Vec<ValueNode>,
        commas: Vec<RuneNode>,
        close_bracket: RuneNode,
    ) -> (res: Result<Self, ConstructionError>)
        ensures
            match res {
                Ok(node) => {
                    &&& separators_fit(vals.len() as int, commas.len() as int)
                    &&& one_kind(vals@)
                    &&& node.spec_open_bracket() == open_bracket
                    &&& node.spec_elements() == vals@
                    &&& node.spec_commas() == commas@
                    &&& node.spec_close_bracket() == close_bracket
                    &&& node.node_view() == NodeView::Composite(
                        delimited(
                            open_bracket.node_view(),
                            views_of(vals@),
                            views_of(commas@),
                            close_bracket.node_view(),
                        ),
                    )
                },
                Err(e) => if !separators_fit(vals.len() as int, commas.len() as int) {
                    e == ConstructionError::SeparatorMismatch
                } else {
                    !one_kind(vals@) && e == ConstructionError::MixedKinds
                },
            },
    {
        if !(vals.len() == 0 && commas.len() == 0 || vals.len() > 0 && commas.len() == vals.len()
            - 1) {
            return Err(ConstructionError::SeparatorMismatch);
        }
        let mut i: usize = 1;
        while i < vals.len()
            invariant
                1 <= i,
                separators_fit(vals.len() as int, commas.len() as int),
                forall|j: int| 0 <= j < i && j < vals.len() ==> (#[trigger] vals[j]).spec_kind()
                    == vals[0].spec_kind(),
            decreases vals.len() - i,
        {
            if vals[i].kind() != vals[0].kind() {
                assert(vals@[i as int].spec_kind() != vals@[0].spec_kind());
                return Err(ConstructionError::MixedKinds);
            }
            i += 1;
        }
        let mut composite_node = CompositeNode::new();
        composite_node.push_child(open_bracket.as_node_trait());
        push_alternating(&mut composite_node, &vals, &commas);
        composite_node.push_child(close_bracket.as_node_trait());
        assert(views_of(vals@) =~= value_trees(vals@));
        assert(composite_node@ =~= delimited(
            open_bracket.node_view(),
            views_of(vals@),
            views_of(commas@),
            close_bracket.node_view(),
        ));
        Ok(ArrayLiteralNode { composite_node, open_bracket, elements: vals, commas, close_bracket })
    }

    pub fn open_bracket(&self) -> (res: &RuneNode)
        ensures
            *res == self.spec_open_bracket(),
    {
        &self.open_bracket
    }

    /// The values of the array, in order.
    pub fn elements(&self) -> (res: &Vec<ValueNode>)
        ensures
            res@ == self.spec_elements(),
            one_kind(res@),
    {
        proof {
            use_type_invariant(self);
        }
        &self.elements
    }

    pub fn commas(&self) -> (res: &Vec<RuneNode>)
        ensures
            res@ == self.spec_commas(),
            separators_fit(self.spec_elements().len() as int, res.len() as int),
    {
        proof {
            use_type_invariant(self);
        }
        &self.commas
    }

    pub fn close_bracket(&self) -> (res: &RuneNode)
        ensures
            *res == self.spec_close_bracket(),
    {
        &self.close_bracket
    }
}

/// One separator stands between each two of the items: there is one less
/// than items, and none where there is no item.
pub open spec fn separators_fit(items: int, seps: int) -> bool {
    items == 0 && seps == 0 || items > 0 && seps == items - 1
}


impl NodeTrait for ArrayLiteralNode {
    open spec fn node_view(&self) -> NodeView {
        self.tree()
    }

    open spec fn has_span(&self) -> bool {
        true
    }

    fn first_token(&self) -> (res: &TerminalNode) {
        proof {
            use_type_invariant(self);
        }
        assert(self.node_view() == self.composite_node.node_view());
        self.composite_node.first_token()
    }

    fn last_token(&self) -> (res: &TerminalNode) {
        proof {
            use_type_invariant(self);
        }
        self.composite_node.last_token()
    }

    fn as_node_trait(&self) -> (res: Node) {
        proof {
            use_type_invariant(self);
        }
        self.composite_node.as_node_trait()
    }
}

impl CompositeNodeTrait for ArrayLiteralNode {
    fn children(&self) -> (res: Vec<Node>) {
        self.composite_node.children()
    }
}

impl ValueNodeTrait<Vec<ValueNode>> for ArrayLiteralNode {
    open spec fn decodes_to(&self, v: Vec<ValueNode>) -> bool {
        v@ == self.spec_elements()
    }

    fn value(self) -> (res: Vec<ValueNode>) {
        self.elements
    }
}

/// The children of a field of a message literal in source order: the
/// separator if there is one, then the value.
pub open spec fn field_children(sep: Option<RuneNode>, val: ValueNode) -> Seq<NodeView> {
    match sep {
        Some(s) => seq![s.node_view(), val.tree()],
        None => seq![val.tree()],
    }
}

/// One field of a message literal: a separator, where one is written, and
/// the value behind it.
#[derive(Debug)]
pub struct MessageFieldNode {
    composite_node: CompositeNode,
    sep: Option<RuneNode>,
    val: ValueNode,
}

impl MessageFieldNode {
    #[verifier::type_invariant]
    spec fn inv(self) -> bool {
        &&& self.composite_node@ == field_children(self.sep, self.val)
        &&& self.composite_node.has_span()
    }

    /// The tree of tokens that the field stands for.
    pub closed spec fn tree(&self) -> NodeView {
        NodeView::Composite(self.composite_node@)
    }

    pub closed spec fn spec_sep(&self) -> Option<RuneNode> {
        self.sep
    }

    pub closed spec fn spec_val(&self) -> ValueNode {
        self.val
    }

    /// The field made of the separator `sep`, where one is written, and the
    /// value `val` behind it.
    pub fn new(sep: Option<RuneNode>, val: ValueNode) -> (res: Self)
        ensures
            res.spec_sep() == sep,
            res.spec_val() == val,
            res.node_view() == NodeView::Composite(field_children(sep, val)),
    {
        let mut composite_node = CompositeNode::new();
        match &sep {
            Some(s) => {
                composite_node.push_child(s.as_node_trait());
            },
            None => {},
        }
        composite_node.push_child(val.as_node_trait());
        assert(composite_node@ =~= field_children(sep, val));
        MessageFieldNode { composite_node, sep, val }
    }

    pub fn sep(&self) -> (res: &Option<RuneNode>)
        ensures
            *res == self.spec_sep(),
    {
        &self.sep
    }

    pub fn val(&self) -> (res: &ValueNode)
        ensures
            *res == self.spec_val(),
    {
        &self.val
    }
}

impl NodeTrait for MessageFieldNode {
    open spec fn node_view(&self) -> NodeView {
        self.tree()
    }

    open spec fn has_span(&self) -> bool {
        true
    }

    fn first_token(&self) -> (res: &TerminalNode) {
        proof {
            use_type_invariant(self);
        }
        self.composite_node.first_token()
    }

    fn last_token(&self) -> (res: &TerminalNode) {
        proof {
            use_type_invariant(self);
        }
        self.composite_node.last_token()
    }

    fn as_node_trait(&self) -> (res: Node) {
        proof {
            use_type_invariant(self);
        }
        self.composite_node.as_node_trait()
    }
}

impl CompositeNodeTrait for MessageFieldNode {
    fn children(&self) -> (res: Vec<Node>) {
        self.composite_node.children()
    }
}

impl ValueNodeTrait<ValueNode> for MessageFieldNode {
    open spec fn decodes_to(&self, v: ValueNode) -> bool {
        v == self.spec_val()
    }

    fn value(self) -> (res: ValueNode) {
        self.val
    }
}

/// Fields between braces, each followed by its separator.
#[derive(Debug)]
pub struct MessageLiteralNode {
    composite_node: CompositeNode,
    open: RuneNode,
    elements: Vec<MessageFieldNode>,
    seps: Vec<RuneNode>,
    close: RuneNode,
}

impl MessageLiteralNode {
    #[verifier::type_invariant]
    spec fn inv(self) -> bool {
        &&& self.composite_node@ == delimited(
            self.open.node_view(),
            field_trees(self.elements@),
            views_of(self.seps@),
            self.close.node_view(),
        )
        &&& self.composite_node.has_span()
        &&& self.seps.len() == self.elements.len()
    }

    /// The tree of tokens that the literal stands for.
    pub closed spec fn tree(&self) -> NodeView {
        NodeView::Composite(self.composite_node@)
    }

    pub closed spec fn spec_open(&self) -> RuneNode {
        self.open
    }

    pub closed spec fn spec_elements(&self) -> Seq<MessageFieldNode> {
        self.elements@
    }

    pub closed spec fn spec_seps(&self) -> Seq<RuneNode> {
        self.seps@
    }

    pub closed spec fn spec_close(&self) -> RuneNode {
        self.close
    }

    /// Builds the message literal from its parts in source order. Each
    /// field must have its separator behind it.
    pub fn new(
        open_sym: RuneNode,
        vals: Vec<MessageFieldNode>,
        seps: Vec<RuneNode>,
        close_sym: RuneNode,
    ) -> (res: Result<Self, ConstructionError>)
        ensures
            match res {
                Ok(node) => {
                    &&& seps.len() == vals.len()
                    &&& node.spec_open() == open_sym
                    &&& node.spec_elements() == vals@
                    &&& node.spec_seps() == seps@
                    &&& node.spec_close() == close_sym
                    &&& node.node_view() == NodeView::Composite(
                        delimited(
                            open_sym.node_view(),
                            views_of(vals@),
                            views_of(seps@),
                            close_sym.node_view(),
                        ),
                    )
                },
                Err(e) => seps.len() != vals.len() && e == ConstructionError::SeparatorMismatch,
            },
    {
        if seps.len() != vals.len() {
            return Err(ConstructionError::SeparatorMismatch);
        }
        let mut composite_node = CompositeNode::new();
        composite_node.push_child(open_sym.as_node_trait());
        push_alternating(&mut composite_node, &vals, &seps);
        composite_node.push_child(close_sym.as_node_trait());
        assert(views_of(vals@) =~= field_trees(vals@));
        assert(composite_node@ =~= delimited(
            open_sym.node_view(),
            views_of(vals@),
            views_of(seps@),
            close_sym.node_view(),
        ));
        Ok(MessageLiteralNode { composite_node, open: open_sym, elements: vals, seps, close: close_sym })
    }

    pub fn open(&self) -> (res: &RuneNode)
        ensures
            *res == self.spec_open(),
    {
        &self.open
    }

    /// The fields of the literal, in order.
    pub fn elements(&self) -> (res: &Vec<MessageFieldNode>)
        ensures
            res@ == self.spec_elements(),
    {
        &self.elements
    }

    pub fn seps(&self) -> (res: &Vec<RuneNode>)
        ensures
            res@ == self.spec_seps(),
            res.len() == self.spec_elements().len(),
    {
        proof {
            use_type_invariant(self);
        }
        &self.seps
    }

    pub fn close(&self) -> (res: &RuneNode)
        ensures
            *res == self.spec_close(),
    {
        &self.close
    }
}

impl NodeTrait for MessageLiteralNode {
    open spec fn node_view(&self) -> NodeView {
        self.tree()
    }

    open spec fn has_span(&self) -> bool {
        true
    }

    fn first_token(&self) -> (res: &TerminalNode) {
        proof {
            use_type_invariant(self);
        }
        assert(self.node_view() == self.composite_node.node_view());
        self.composite_node.first_token()
    }

    fn last_token(&self) -> (res: &TerminalNode) {
        proof {
            use_type_invariant(self);
        }
        self.composite_node.last_token()
    }

    fn as_node_trait(&self) -> (res: Node) {
        proof {
            use_type_invariant(self);
        }
        self.composite_node.as_node_trait()
    }
}

impl CompositeNodeTrait for MessageLiteralNode {
    fn children(&self) -> (res: Vec<Node>) {
        self.composite_node.children()
    }
}

impl ValueNodeTrait<Vec<MessageFieldNode>> for MessageLiteralNode {
    open spec fn decodes_to(&self, v: Vec<MessageFieldNode>) -> bool {
        v@ == self.spec_elements()
    }

    fn value(self) -> (res: Vec<MessageFieldNode>) {
        self.elements
    }
}

} // verus!
