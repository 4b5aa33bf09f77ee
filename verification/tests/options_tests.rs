use proto_cst::error::ConstructionError;
use proto_cst::identifiers::IdentNode;
use proto_cst::node::{CompositeNodeTrait, NodeTrait, RuneNode, TokenInfo};
use proto_cst::options::{
    CompactOptionsNode, FieldReferenceNode, OptionDeclNode, OptionNameNode, OptionNode,
};
use proto_cst::source_pos::{Comment, PosRange, SourcePos};
use proto_cst::values::{BoolLiteralNode, UintLiteralNode, ValueKind, ValueNode, ValueNodeTrait};

fn opt_pos(offset: i32) -> SourcePos {
    let mut p = SourcePos::new("o.proto");
    p.set_line(1).set_col(offset + 1).set_offset(offset);
    p
}

fn opt_info(start: i32, ws: &str, raw: &str) -> TokenInfo {
    let begin = start + ws.len() as i32;
    let mut t = TokenInfo::new(PosRange { start: opt_pos(begin), end: opt_pos(begin + raw.len() as i32) });
    t.set_leading_whitespace(ws).set_raw_text(raw);
    t
}

fn opt_rune(start: i32, ws: &str, c: char) -> RuneNode {
    RuneNode::new(c, opt_info(start, ws, &c.to_string()))
}

fn opt_ident(start: i32, ws: &str, name: &str) -> IdentNode {
    IdentNode::new(name, opt_info(start, ws, name))
}

fn plain_name(start: i32, ws: &str, name: &str) -> OptionNameNode {
    OptionNameNode::new(vec![FieldReferenceNode::new(opt_ident(start, ws, name))], vec![]).unwrap()
}

fn compact_option(start: i32, ws: &str, name: &str, value: u64) -> OptionNode {
    let at = start + ws.len() as i32 + name.len() as i32;
    OptionNode::new_compact(
        plain_name(start, ws, name),
        opt_rune(at, "", '='),
        ValueNode::Uint(UintLiteralNode::new(value, opt_info(at + 1, "", &value.to_string()))),
    )
}

#[test]
fn plain_field_reference_is_its_name() {
    let r = FieldReferenceNode::new(opt_ident(2, " ", "deprecated"));
    assert!(!r.is_extension());
    assert_eq!(r.children().len(), 1);
    assert_eq!(r.text(), " deprecated");
    assert_eq!(r.start().offset(), 3);
    assert_eq!(r.end().offset(), 13);
    assert!(r.name().is("deprecated"));
    assert_eq!(r.value(), "deprecated");
}

#[test]
fn extension_field_reference_keeps_its_brackets() {
    let r = FieldReferenceNode::new_extrension(opt_rune(0, "", '('), opt_ident(1, "", "my.ext"), opt_rune(7, "", ')'));
    assert!(r.is_extension());
    let raws: Vec<String> = r.children().iter().map(|c| c.text()).collect();
    assert_eq!(raws, vec!["(", "my.ext", ")"]);
    assert_eq!(r.start().offset(), 0);
    assert_eq!(r.end().offset(), 8);
    assert_eq!(r.text(), "(my.ext)");
    assert_eq!(r.value(), "(my.ext)");
}

#[test]
fn extension_field_reference_uses_the_brackets_given() {
    let r = FieldReferenceNode::new_extrension(opt_rune(0, "", '['), opt_ident(1, "", "e"), opt_rune(2, "", ']'));
    assert_eq!(r.value(), "[e]");
}

#[test]
fn option_name_children_are_in_source_order() {
    let name = OptionNameNode::new(
        vec![
            FieldReferenceNode::new_extrension(opt_rune(0, "", '('), opt_ident(1, "", "a"), opt_rune(2, "", ')')),
            FieldReferenceNode::new(opt_ident(4, "", "b")),
            FieldReferenceNode::new(opt_ident(6, "", "c")),
        ],
        vec![opt_rune(3, "", '.'), opt_rune(5, "", '.')],
    )
    .unwrap();
    let raws: Vec<String> = name.children().iter().map(|c| c.text()).collect();
    assert_eq!(raws, vec!["(a)", ".", "b", ".", "c"]);
    assert_eq!(name.text(), "(a).b.c");
    assert_eq!(name.start().offset(), 0);
    assert_eq!(name.end().offset(), 7);
    assert_eq!(name.parts().len(), 3);
    assert_eq!(name.dots().len(), 2);
    assert!(name.parts()[0].is_extension());
    assert!(!name.parts()[1].is_extension());
}

#[test]
fn option_name_without_parts_is_refused() {
    assert_eq!(OptionNameNode::new(vec![], vec![]).err(), Some(ConstructionError::NoComponents));
    assert_eq!(
        OptionNameNode::new(vec![], vec![opt_rune(0, "", '.')]).err(),
        Some(ConstructionError::NoComponents)
    );
}

#[test]
fn option_name_with_wrong_number_of_dots_is_refused() {
    assert_eq!(
        OptionNameNode::new(vec![FieldReferenceNode::new(opt_ident(0, "", "a"))], vec![opt_rune(1, "", '.')]).err(),
        Some(ConstructionError::SeparatorMismatch)
    );
    assert_eq!(
        OptionNameNode::new(
            vec![FieldReferenceNode::new(opt_ident(0, "", "a")), FieldReferenceNode::new(opt_ident(2, "", "b"))],
            vec![]
        )
        .err(),
        Some(ConstructionError::SeparatorMismatch)
    );
}

#[test]
fn option_statement_children_are_in_source_order() {
    let mut semicolon = opt_info(22, "", ";");
    let mut trailing = Comment::new(PosRange { start: opt_pos(24), end: opt_pos(30) });
    trailing.set_text("// end");
    semicolon.set_trailing_comments(vec![trailing]);
    let opt = OptionNode::new(
        opt_ident(0, "", "option"),
        plain_name(6, " ", "deprecated"),
        opt_rune(17, "", '='),
        ValueNode::Bool(BoolLiteralNode::new(opt_ident(18, "", "true"))),
        RuneNode::new(';', semicolon),
    );
    let raws: Vec<String> = opt.children().iter().map(|c| c.text()).collect();
    assert_eq!(raws, vec!["option", " deprecated", "=", "true", ";"]);
    assert_eq!(opt.text(), "option deprecated=true;");
    assert_eq!(opt.start().offset(), 0);
    assert_eq!(opt.end().offset(), 23);
    assert!(!opt.is_compact());
    assert_eq!(opt.trailing_comments().len(), 1);
    assert_eq!(opt.trailing_comments()[0].text(), "// end");
    assert_eq!(opt.leading_comments().len(), 0);
}

#[test]
fn compact_option_children_are_in_source_order() {
    let opt = compact_option(0, " ", "packed", 1);
    let raws: Vec<String> = opt.children().iter().map(|c| c.text()).collect();
    assert_eq!(raws, vec![" packed", "=", "1"]);
    assert!(opt.is_compact());
    assert_eq!(opt.start().offset(), 1);
    assert_eq!(opt.end().offset(), 9);
}

#[test]
fn both_forms_of_option_answer_name_and_value() {
    let statement = OptionNode::new(
        opt_ident(0, "", "option"),
        plain_name(6, " ", "a"),
        opt_rune(8, "", '='),
        ValueNode::Uint(UintLiteralNode::new(3, opt_info(9, "", "3"))),
        opt_rune(10, "", ';'),
    );
    let compact = compact_option(0, "", "a", 3);
    for opt in [&statement, &compact] {
        assert_eq!(opt.get_name().text().trim(), "a");
        assert_eq!(opt.get_value().kind(), ValueKind::Unsigned);
        assert_eq!(opt.get_value().text(), "3");
        assert!(opt.name().parts()[0].name().is("a"));
    }
    assert_eq!(statement.get_name().start().offset(), 7);
    assert_eq!(compact.get_name().start().offset(), 0);
}

#[test]
fn compact_options_children_are_in_source_order() {
    let list = CompactOptionsNode::new(
        opt_rune(0, "", '['),
        vec![compact_option(1, "", "a", 1), compact_option(5, " ", "b", 2)],
        vec![opt_rune(4, "", ',')],
        opt_rune(9, "", ']'),
    )
    .unwrap();
    let raws: Vec<String> = list.children().iter().map(|c| c.text()).collect();
    assert_eq!(raws, vec!["[", "a=1", ",", " b=2", "]"]);
    assert_eq!(list.text(), "[a=1, b=2]");
    assert_eq!(list.start().offset(), 0);
    assert_eq!(list.end().offset(), 10);
    assert_eq!(list.get_elements().len(), 2);
    assert_eq!(list.get_elements()[1].get_value().text(), "2");
    assert_eq!(list.commas().len(), 1);
    assert_eq!(list.open_bracket().rune(), '[');
    assert_eq!(list.close_bracket().rune(), ']');
}

#[test]
fn compact_options_without_options() {
    let list = CompactOptionsNode::new(opt_rune(0, "", '['), vec![], vec![], opt_rune(1, "", ']')).unwrap();
    assert_eq!(list.get_elements().len(), 0);
    assert_eq!(list.children().len(), 2);
}

#[test]
fn compact_options_with_wrong_number_of_commas_is_refused() {
    assert_eq!(
        CompactOptionsNode::new(opt_rune(0, "", '['), vec![], vec![opt_rune(1, "", ',')], opt_rune(2, "", ']')).err(),
        Some(ConstructionError::SeparatorMismatch)
    );
    assert_eq!(
        CompactOptionsNode::new(
            opt_rune(0, "", '['),
            vec![compact_option(1, "", "a", 1), compact_option(5, "", "b", 2)],
            vec![],
            opt_rune(8, "", ']')
        )
        .err(),
        Some(ConstructionError::SeparatorMismatch)
    );
}

#[test]
fn compact_options_with_a_statement_is_refused() {
    let statement = OptionNode::new(
        opt_ident(1, "", "option"),
        plain_name(7, " ", "a"),
        opt_rune(9, "", '='),
        ValueNode::Uint(UintLiteralNode::new(3, opt_info(10, "", "3"))),
        opt_rune(11, "", ';'),
    );
    assert_eq!(
        CompactOptionsNode::new(opt_rune(0, "", '['), vec![statement], vec![], opt_rune(12, "", ']')).err(),
        Some(ConstructionError::NotCompact)
    );
}
