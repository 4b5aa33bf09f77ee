use proto_cst::error::ConstructionError;
use proto_cst::identifiers::{
    CompoundIdentNode, IdentNode, IdentValueNode, IdentValueNodeTrait, KeywordNode,
};
use proto_cst::node::{CompositeNodeTrait, NodeTrait, RuneNode, TokenInfo};
use proto_cst::source_pos::{PosRange, SourcePos};
use proto_cst::values::ValueNodeTrait;

fn ident_pos(offset: i32) -> SourcePos {
    let mut p = SourcePos::new("i.proto");
    p.set_line(1).set_col(offset + 1).set_offset(offset);
    p
}

fn ident_info(start: i32, ws: &str, raw: &str) -> TokenInfo {
    let begin = start + ws.len() as i32;
    let mut t = TokenInfo::new(PosRange { start: ident_pos(begin), end: ident_pos(begin + raw.len() as i32) });
    t.set_leading_whitespace(ws).set_raw_text(raw);
    t
}

fn ident_at(start: i32, name: &str) -> IdentNode {
    IdentNode::new(name, ident_info(start, "", name))
}

fn dot_at(start: i32) -> RuneNode {
    RuneNode::new('.', ident_info(start, "", "."))
}

#[test]
fn ident_reads_as_its_name() {
    let n = IdentNode::new("foo", ident_info(3, " ", "foo"));
    assert!(n.is("foo"));
    assert!(!n.is("fo"));
    assert!(!n.is("Foo"));
    assert_eq!(n.text(), " foo");
    assert_eq!(n.start().offset(), 4);
    assert_eq!(n.end().offset(), 7);
    assert_eq!(n.clone().as_identifier(), "foo");
    assert_eq!(n.value(), "foo");
}

#[test]
fn keyword_is_the_same_node() {
    let n = IdentNode::new("message", ident_info(0, "", "message"));
    let k: KeywordNode = n.to_keyword();
    assert!(k.is("message"));
    assert_eq!(k.start().offset(), 0);
    assert_eq!(k.end().offset(), 7);
    assert_eq!(k.as_identifier(), "message");
}

#[test]
fn compound_ident_with_leading_dot_decodes_to_exact_text() {
    let node = CompoundIdentNode::new(
        Some(dot_at(0)),
        vec![ident_at(1, "foo"), ident_at(5, "bar"), ident_at(9, "baz")],
        vec![dot_at(4), dot_at(8)],
    )
    .unwrap();
    assert_eq!(node.as_identifier(), ".foo.bar.baz");
    assert_eq!(node.text(), ".foo.bar.baz");
    assert_eq!(node.value(), ".foo.bar.baz");
}

#[test]
fn compound_ident_without_leading_dot() {
    let node = CompoundIdentNode::new(None, vec![ident_at(0, "foo"), ident_at(4, "bar")], vec![dot_at(3)]).unwrap();
    assert_eq!(node.as_identifier(), "foo.bar");
    assert!(node.leading_dot().is_none());
    assert_eq!(node.components().len(), 2);
    assert_eq!(node.dots().len(), 1);
}

#[test]
fn compound_ident_of_one_name() {
    let node = CompoundIdentNode::new(None, vec![ident_at(0, "only")], vec![]).unwrap();
    assert_eq!(node.as_identifier(), "only");
    assert_eq!(node.children().len(), 1);
    let dotted = CompoundIdentNode::new(Some(dot_at(0)), vec![ident_at(1, "only")], vec![]).unwrap();
    assert_eq!(dotted.as_identifier(), ".only");
    assert_eq!(dotted.children().len(), 2);
}

#[test]
fn compound_ident_keeps_the_separators_as_written() {
    let slash = RuneNode::new('/', ident_info(1, "", "/"));
    let node = CompoundIdentNode::new(None, vec![ident_at(0, "a"), ident_at(2, "b")], vec![slash]).unwrap();
    assert_eq!(node.as_identifier(), "a/b");
}

#[test]
fn compound_ident_children_are_in_source_order() {
    let node = CompoundIdentNode::new(
        Some(dot_at(0)),
        vec![ident_at(1, "foo"), ident_at(5, "bar"), ident_at(9, "baz")],
        vec![dot_at(4), dot_at(8)],
    )
    .unwrap();
    let raws: Vec<String> = node.children().iter().map(|c| c.text()).collect();
    assert_eq!(raws, vec![".", "foo", ".", "bar", ".", "baz"]);
    let starts: Vec<i32> = node.children().iter().map(|c| c.start().offset()).collect();
    assert_eq!(starts, vec![0, 1, 4, 5, 8, 9]);
    assert_eq!(node.start().offset(), 0);
    assert_eq!(node.end().offset(), 12);
}

#[test]
fn compound_ident_without_names_is_refused() {
    assert_eq!(CompoundIdentNode::new(None, vec![], vec![]).err(), Some(ConstructionError::NoComponents));
    assert_eq!(
        CompoundIdentNode::new(Some(dot_at(0)), vec![], vec![dot_at(1)]).err(),
        Some(ConstructionError::NoComponents)
    );
}

#[test]
fn compound_ident_with_wrong_number_of_dots_is_refused() {
    assert_eq!(
        CompoundIdentNode::new(None, vec![ident_at(0, "a"), ident_at(2, "b")], vec![]).err(),
        Some(ConstructionError::SeparatorMismatch)
    );
    assert_eq!(
        CompoundIdentNode::new(None, vec![ident_at(0, "a")], vec![dot_at(1)]).err(),
        Some(ConstructionError::SeparatorMismatch)
    );
    assert_eq!(
        CompoundIdentNode::new(None, vec![ident_at(0, "a"), ident_at(2, "b")], vec![dot_at(1), dot_at(3)]).err(),
        Some(ConstructionError::SeparatorMismatch)
    );
}

#[test]
fn identifier_of_either_form() {
    let simple = IdentValueNode::Ident(ident_at(0, "Foo"));
    assert_eq!(simple.as_identifier(), "Foo");
    assert_eq!(simple.text(), "Foo");
    let compound = IdentValueNode::Compound(
        CompoundIdentNode::new(None, vec![ident_at(0, "pkg"), ident_at(4, "Foo")], vec![dot_at(3)]).unwrap(),
    );
    assert_eq!(compound.as_identifier(), "pkg.Foo");
    assert_eq!(compound.start().offset(), 0);
    assert_eq!(compound.end().offset(), 7);
}
