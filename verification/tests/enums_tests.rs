use proto_cst::enums::{
    EnumElement, EnumElementTrait, EnumNode, EnumValueDeclNodeTrait, EnumValueNode,
};
use proto_cst::identifiers::IdentNode;
use proto_cst::node::{CompositeNodeTrait, EmptyDeclNode, Node, NodeTrait, RuneNode, TerminalNodeTrait, TokenInfo};
use proto_cst::options::{CompactOptionsNode, FieldReferenceNode, OptionNameNode, OptionNode};
use proto_cst::source_pos::{Comment, PosRange, SourcePos};
use proto_cst::values::{
    IntValueNode, IntValueNodeTrait, NegativeIntLiteralNode, UintLiteralNode, ValueNode,
};

fn enum_pos(offset: i32) -> SourcePos {
    let mut p = SourcePos::new("e.proto");
    p.set_line(1).set_col(offset + 1).set_offset(offset);
    p
}

fn enum_info(start: i32, ws: &str, raw: &str) -> TokenInfo {
    let begin = start + ws.len() as i32;
    let mut t = TokenInfo::new(PosRange { start: enum_pos(begin), end: enum_pos(begin + raw.len() as i32) });
    t.set_leading_whitespace(ws).set_raw_text(raw);
    t
}

fn enum_rune(start: i32, ws: &str, c: char) -> RuneNode {
    RuneNode::new(c, enum_info(start, ws, &c.to_string()))
}

fn enum_ident(start: i32, ws: &str, name: &str) -> IdentNode {
    IdentNode::new(name, enum_info(start, ws, name))
}

fn no_options(at: i32) -> CompactOptionsNode {
    CompactOptionsNode::new(enum_rune(at, "", '['), vec![], vec![], enum_rune(at, "", ']')).unwrap()
}

/// `<ws>NAME = N;` starting at `start`; the name and the number are one character each.
fn enum_value(start: i32, ws: &str, name: &str, number: u64) -> EnumValueNode {
    let at = start + ws.len() as i32;
    EnumValueNode::new(
        enum_ident(start, ws, name),
        enum_rune(at + 1, " ", '='),
        IntValueNode::Uint(UintLiteralNode::new(number, enum_info(at + 3, " ", &number.to_string()))),
        no_options(at + 5),
        enum_rune(at + 5, "", ';'),
    )
}

fn child_count(node: &Node) -> usize {
    match node {
        Node::Terminal(_) => 0,
        Node::Composite(c) => c.children().len(),
    }
}

fn raw_of(node: &Node) -> String {
    match node {
        Node::Terminal(t) => t.raw_text().to_string(),
        Node::Composite(_) => panic!("a single token was expected"),
    }
}

#[test]
fn enum_value_without_options_has_four_children() {
    let v = enum_value(0, "", "A", 1);
    let raws: Vec<String> = v.children().iter().map(|c| c.text()).collect();
    assert_eq!(raws, vec!["A", " =", " 1", ";"]);
    assert_eq!(v.text(), "A = 1;");
    assert_eq!(v.start().offset(), 0);
    assert_eq!(v.end().offset(), 6);
    assert_eq!(v.options().get_elements().len(), 0);
}

#[test]
fn enum_value_with_options_has_five_children() {
    let option = OptionNode::new_compact(
        OptionNameNode::new(vec![FieldReferenceNode::new(enum_ident(7, "", "x"))], vec![]).unwrap(),
        enum_rune(8, "", '='),
        ValueNode::Uint(UintLiteralNode::new(2, enum_info(9, "", "2"))),
    );
    let options = CompactOptionsNode::new(enum_rune(5, " ", '['), vec![option], vec![], enum_rune(10, "", ']')).unwrap();
    let v = EnumValueNode::new(
        enum_ident(0, "", "A"),
        enum_rune(1, " ", '='),
        IntValueNode::Uint(UintLiteralNode::new(1, enum_info(3, " ", "1"))),
        options,
        enum_rune(11, "", ';'),
    );
    let raws: Vec<String> = v.children().iter().map(|c| c.text()).collect();
    assert_eq!(raws, vec!["A", " =", " 1", " [x=2]", ";"]);
    assert_eq!(v.text(), "A = 1 [x=2];");
    assert_eq!(v.end().offset(), 12);
    assert_eq!(v.options().get_elements().len(), 1);
}

#[test]
fn enum_value_answers_name_and_number() {
    let mut number = enum_info(3, " ", "5");
    let mut note = Comment::new(PosRange { start: enum_pos(2), end: enum_pos(3) });
    note.set_text("/*n*/");
    number.set_leading_comments(vec![note]);
    let v = EnumValueNode::new(
        enum_ident(0, "", "A"),
        enum_rune(1, " ", '='),
        IntValueNode::NegativeInt(
            NegativeIntLiteralNode::new(enum_rune(3, " ", '-'), UintLiteralNode::new(5, number)).unwrap(),
        ),
        no_options(6),
        enum_rune(6, "", ';'),
    );
    assert_eq!(raw_of(&v.get_name()), "A");
    assert_eq!(v.get_name().start().offset(), 0);
    let number_node = v.get_number();
    assert_eq!(number_node.text(), " - 5");
    assert_eq!(number_node.start().offset(), 4);
    assert_eq!(child_count(&number_node), 2);
    assert_eq!(v.number().as_int64(), (-5, true));
    assert_eq!(v.number().as_uint64(), (0, false));
    assert!(v.name().is("A"));
}

#[test]
fn enum_children_are_keyword_name_brace_values_brace() {
    let e = EnumNode::new(
        enum_ident(0, "", "enum"),
        enum_ident(4, " ", "Foo"),
        enum_rune(8, " ", '{'),
        vec![enum_value(10, " ", "A", 0).enum_element(), enum_value(17, " ", "B", 1).enum_element()],
        enum_rune(24, " ", '}'),
    );
    let kids = e.children();
    assert_eq!(kids.len(), 6);
    assert_eq!(raw_of(&kids[0]), "enum");
    assert_eq!(raw_of(&kids[1]), "Foo");
    assert_eq!(raw_of(&kids[2]), "{");
    assert_eq!(kids[3].text(), " A = 0;");
    assert_eq!(child_count(&kids[3]), 4);
    assert_eq!(kids[4].text(), " B = 1;");
    assert_eq!(child_count(&kids[4]), 4);
    assert_eq!(raw_of(&kids[5]), "}");
    assert_eq!(e.text(), "enum Foo { A = 0; B = 1; }");
    assert_eq!(e.start().offset(), 0);
    assert_eq!(e.end().offset(), 26);
    assert!(e.keyword().is("enum"));
    assert!(e.name().is("Foo"));
    assert_eq!(e.decls().len(), 2);
}

#[test]
fn enum_without_declarations() {
    let e = EnumNode::new(
        enum_ident(0, "", "enum"),
        enum_ident(4, " ", "E"),
        enum_rune(6, "", '{'),
        vec![],
        enum_rune(7, "", '}'),
    );
    assert_eq!(e.children().len(), 4);
    assert_eq!(e.text(), "enum E{}");
}

#[test]
fn enum_body_takes_values_options_and_empty_declarations() {
    let option = OptionNode::new(
        enum_ident(10, "", "option"),
        OptionNameNode::new(vec![FieldReferenceNode::new(enum_ident(16, " ", "o"))], vec![]).unwrap(),
        enum_rune(18, "", '='),
        ValueNode::Uint(UintLiteralNode::new(1, enum_info(19, "", "1"))),
        enum_rune(20, "", ';'),
    );
    let empty = EmptyDeclNode::new(enum_rune(21, "", ';'));
    let e = EnumNode::new(
        enum_ident(0, "", "enum"),
        enum_ident(4, " ", "E"),
        enum_rune(6, "", '{'),
        vec![
            option.as_enum_element_trait(),
            empty.as_enum_element_trait(),
            enum_value(22, "", "A", 0).as_enum_element_trait(),
        ],
        enum_rune(28, "", '}'),
    );
    let raws: Vec<String> = e.children().iter().map(|c| c.text()).collect();
    assert_eq!(raws, vec!["enum", " E", "{", "option o=1;", ";", "A = 0;", "}"]);
    assert!(matches!(e.decls()[0], EnumElement::Option(_)));
    assert!(matches!(e.decls()[1], EnumElement::Empty(_)));
    assert!(matches!(e.decls()[2], EnumElement::Value(_)));
    assert_eq!(e.decls()[2].start().offset(), 22);
    assert_eq!(e.decls()[1].text(), ";");
}
