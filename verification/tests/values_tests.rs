use proto_cst::error::ConstructionError;
use proto_cst::identifiers::IdentNode;
use proto_cst::node::{CompositeNodeTrait, NodeTrait, RuneNode, TokenInfo};
use proto_cst::source_pos::{PosRange, SourcePos};
use proto_cst::values::{
    ArrayLiteralNode, BoolLiteralNode, CompoundStringLiteralNode, FloatLiteralNode,
    FloatValueNode, IntValueNode, IntValueNodeTrait, MessageFieldNode, MessageLiteralNode,
    NegativeIntLiteralNode, PositiveUintLiteralNode, SignedFloatLiteralNode, SpecialFloat,
    SpecialFloatLiteralNode, StringLiteralNode, StringValueNode, UintLiteralNode, ValueKind,
    ValueNode, ValueNodeTrait, MAX_NEGATIVE_MAGNITUDE,
};

fn val_pos(offset: i32) -> SourcePos {
    let mut p = SourcePos::new("v.proto");
    p.set_line(1).set_col(offset + 1).set_offset(offset);
    p
}

fn val_info(start: i32, ws: &str, raw: &str) -> TokenInfo {
    let begin = start + ws.len() as i32;
    let mut t = TokenInfo::new(PosRange { start: val_pos(begin), end: val_pos(begin + raw.len() as i32) });
    t.set_leading_whitespace(ws).set_raw_text(raw);
    t
}

fn rune_at(start: i32, c: char) -> RuneNode {
    RuneNode::new(c, val_info(start, "", &c.to_string()))
}

fn uint_at(start: i32, v: u64) -> UintLiteralNode {
    UintLiteralNode::new(v, val_info(start, "", &v.to_string()))
}

fn string_at(start: i32, v: &str) -> StringLiteralNode {
    StringLiteralNode::new(v, val_info(start, "", &format!("\"{}\"", v)))
}

fn keyword_at(start: i32, name: &str) -> IdentNode {
    IdentNode::new(name, val_info(start, "", name))
}

fn special_as_f64(kind: SpecialFloat) -> f64 {
    match kind {
        SpecialFloat::Infinity => f64::INFINITY,
        SpecialFloat::NotANumber => f64::NAN,
    }
}

#[test]
fn string_literal_decodes_to_its_value() {
    let s = StringLiteralNode::new("a\nb", val_info(2, " ", "\"a\\nb\""));
    assert_eq!(s.text(), " \"a\\nb\"");
    assert_eq!(s.start().offset(), 3);
    assert_eq!(s.clone().as_string(), "a\nb");
    assert_eq!(s.value(), "a\nb");
}

#[test]
fn compound_string_joins_its_components() {
    let node = CompoundStringLiteralNode::new(vec![string_at(0, "ab"), string_at(5, "cd"), string_at(10, "")]).unwrap();
    assert_eq!(node.children().len(), 3);
    assert_eq!(node.start().offset(), 0);
    assert_eq!(node.end().offset(), 12);
    assert_eq!(node.text(), "\"ab\"\"cd\"\"\"");
    assert_eq!(node.as_string(), "abcd");
}

#[test]
fn compound_string_of_one_component() {
    let node = CompoundStringLiteralNode::new(vec![string_at(0, "solo")]).unwrap();
    assert_eq!(node.value(), "solo");
}

#[test]
fn compound_string_without_components_is_refused() {
    let res = CompoundStringLiteralNode::new(vec![]);
    assert!(res.is_err());
    assert_eq!(res.err(), Some(ConstructionError::NoComponents));
}

#[test]
fn unsigned_literal_within_signed_range() {
    for v in [0u64, 1, 5, 1 << 32, i64::MAX as u64] {
        let n = uint_at(0, v);
        assert_eq!(n.as_int64(), (v as i64, true));
        assert_eq!(n.as_uint64(), (v, true));
        assert_eq!(n.value(), v);
    }
}

#[test]
fn unsigned_literal_above_signed_range() {
    for v in [i64::MAX as u64 + 1, u64::MAX - 1, u64::MAX] {
        let n = uint_at(0, v);
        assert_eq!(n.as_int64(), (0, false));
        assert_eq!(n.as_uint64(), (v, true));
    }
}

#[test]
fn positive_literal_reads_as_its_digits() {
    let n = PositiveUintLiteralNode::new(rune_at(0, '+'), uint_at(1, 42));
    assert_eq!(n.as_int64(), (42, true));
    assert_eq!(n.as_uint64(), (42, true));
    assert_eq!(n.sign().rune(), '+');
    assert_eq!(n.uint().as_uint64(), (42, true));
    assert_eq!(n.text(), "+42");
    assert_eq!(n.children().len(), 2);
    assert_eq!(n.start().offset(), 0);
    assert_eq!(n.end().offset(), 3);
    assert_eq!(n.value(), 42);
    let big = PositiveUintLiteralNode::new(rune_at(0, '+'), uint_at(1, u64::MAX));
    assert_eq!(big.as_int64(), (0, false));
    assert_eq!(big.as_uint64(), (u64::MAX, true));
}

#[test]
fn negative_literal_of_positive_magnitude() {
    for m in [1u64, 5, i64::MAX as u64] {
        let n = NegativeIntLiteralNode::new(rune_at(0, '-'), uint_at(1, m)).unwrap();
        assert_eq!(n.as_int64(), (-(m as i64), true));
        assert_eq!(n.as_uint64(), (0, false));
        assert_eq!(n.value(), -(m as i64));
    }
}

#[test]
fn negative_literal_of_zero() {
    let n = NegativeIntLiteralNode::new(rune_at(0, '-'), uint_at(1, 0)).unwrap();
    assert_eq!(n.as_int64(), (0, true));
    assert_eq!(n.as_uint64(), (0, true));
}

#[test]
fn negative_literal_of_largest_magnitude() {
    assert_eq!(MAX_NEGATIVE_MAGNITUDE, 1u64 << 63);
    let n = NegativeIntLiteralNode::new(rune_at(0, '-'), uint_at(1, MAX_NEGATIVE_MAGNITUDE)).unwrap();
    assert_eq!(n.as_int64(), (i64::MIN, true));
    assert_eq!(n.as_uint64(), (0, false));
    assert_eq!(n.sign().rune(), '-');
    assert_eq!(n.uint().as_uint64(), (MAX_NEGATIVE_MAGNITUDE, true));
    assert_eq!(n.text(), "-9223372036854775808");
}

#[test]
fn negative_literal_beyond_signed_range_is_refused() {
    assert_eq!(
        NegativeIntLiteralNode::new(rune_at(0, '-'), uint_at(1, MAX_NEGATIVE_MAGNITUDE + 1)).err(),
        Some(ConstructionError::OutOfRange)
    );
    assert_eq!(
        NegativeIntLiteralNode::new(rune_at(0, '-'), uint_at(1, u64::MAX)).err(),
        Some(ConstructionError::OutOfRange)
    );
}

#[test]
fn integer_of_any_form_answers_both_readings() {
    let plain = IntValueNode::Uint(uint_at(0, 7));
    assert_eq!(plain.as_int64(), (7, true));
    assert_eq!(plain.as_uint64(), (7, true));
    let plus = IntValueNode::PositiveUint(PositiveUintLiteralNode::new(rune_at(0, '+'), uint_at(1, 8)));
    assert_eq!(plus.as_int64(), (8, true));
    assert_eq!(plus.text(), "+8");
    let minus = IntValueNode::NegativeInt(NegativeIntLiteralNode::new(rune_at(0, '-'), uint_at(1, 9)).unwrap());
    assert_eq!(minus.as_int64(), (-9, true));
    assert_eq!(minus.as_uint64(), (0, false));
    assert_eq!(minus.start().offset(), 0);
    assert_eq!(minus.end().offset(), 2);
}

#[test]
fn bool_literal_is_true_only_for_true() {
    assert!(BoolLiteralNode::new(keyword_at(0, "true")).value());
    assert!(!BoolLiteralNode::new(keyword_at(0, "false")).value());
    assert!(!BoolLiteralNode::new(keyword_at(0, "True")).value());
    assert!(!BoolLiteralNode::new(keyword_at(0, "true ")).value());
    assert!(!BoolLiteralNode::new(keyword_at(0, "")).value());
    let b = BoolLiteralNode::new(keyword_at(4, "true"));
    assert_eq!(b.start().offset(), 4);
    assert_eq!(b.end().offset(), 8);
    assert_eq!(b.text(), "true");
}

#[test]
fn special_float_inf_is_positive_infinity() {
    let n = SpecialFloatLiteralNode::new(keyword_at(0, "inf"));
    assert_eq!(n.text(), "inf");
    let kind = n.value();
    assert_eq!(kind, SpecialFloat::Infinity);
    assert_eq!(special_as_f64(kind), f64::INFINITY);
    assert!(special_as_f64(kind) > 0.0);
}

#[test]
fn special_float_of_other_keyword_is_not_a_number() {
    for word in ["nan", "NaN", "infinity", "Inf", ""] {
        let kind = SpecialFloatLiteralNode::new(keyword_at(0, word)).value();
        assert_eq!(kind, SpecialFloat::NotANumber);
        assert!(special_as_f64(kind).is_nan());
    }
}

#[test]
fn float_literal_keeps_the_bits_of_its_value() {
    let n = FloatLiteralNode::new(1.5f64.to_bits(), val_info(0, "", "1.5"));
    assert_eq!(f64::from_bits(n.bits()), 1.5);
    assert_eq!(n.text(), "1.5");
    assert_eq!(n.clone().bits(), 1.5f64.to_bits());
    let tiny = FloatLiteralNode::new(2.5e-3f64.to_bits(), val_info(0, "", "2.5e-3"));
    assert_eq!(f64::from_bits(tiny.bits()), 0.0025);
}

#[test]
fn signed_float_is_negated_by_minus_only() {
    let minus = SignedFloatLiteralNode::new(
        rune_at(0, '-'),
        FloatValueNode::Float(FloatLiteralNode::new(2.0f64.to_bits(), val_info(1, "", "2.0"))),
    );
    assert!(minus.is_negated());
    assert_eq!(minus.sign().rune(), '-');
    assert_eq!(minus.text(), "-2.0");
    assert_eq!(minus.children().len(), 2);
    match minus.float() {
        FloatValueNode::Float(f) => assert_eq!(f64::from_bits(f.bits()), 2.0),
        FloatValueNode::Special(_) => panic!("digits became a keyword"),
    }
    let plus = SignedFloatLiteralNode::new(
        rune_at(0, '+'),
        FloatValueNode::Special(SpecialFloatLiteralNode::new(keyword_at(1, "inf"))),
    );
    assert!(!plus.is_negated());
    assert_eq!(plus.start().offset(), 0);
    assert_eq!(plus.end().offset(), 4);
}

#[test]
fn kinds_of_values() {
    assert_eq!(ValueNode::Ident(keyword_at(0, "x")).kind(), ValueKind::Text);
    assert_eq!(ValueNode::StringLiteral(string_at(0, "x")).kind(), ValueKind::Text);
    assert_eq!(ValueNode::Uint(uint_at(0, 1)).kind(), ValueKind::Unsigned);
    assert_eq!(
        ValueNode::PositiveUint(PositiveUintLiteralNode::new(rune_at(0, '+'), uint_at(1, 1))).kind(),
        ValueKind::Unsigned
    );
    assert_eq!(
        ValueNode::NegativeInt(NegativeIntLiteralNode::new(rune_at(0, '-'), uint_at(1, 1)).unwrap()).kind(),
        ValueKind::Signed
    );
    assert_eq!(ValueNode::Float(FloatLiteralNode::new(0, val_info(0, "", "0.0"))).kind(), ValueKind::Float);
    assert_eq!(ValueNode::Bool(BoolLiteralNode::new(keyword_at(0, "true"))).kind(), ValueKind::Bool);
    let empty = ArrayLiteralNode::new(rune_at(0, '['), vec![], vec![], rune_at(1, ']')).unwrap();
    assert_eq!(ValueNode::Array(empty).kind(), ValueKind::Array);
    let msg = MessageLiteralNode::new(rune_at(0, '{'), vec![], vec![], rune_at(1, '}')).unwrap();
    assert_eq!(ValueNode::Message(msg).kind(), ValueKind::Message);
}

#[test]
fn array_children_are_in_source_order() {
    let node = ArrayLiteralNode::new(
        rune_at(0, '['),
        vec![ValueNode::Uint(uint_at(1, 1)), ValueNode::Uint(uint_at(3, 2)), ValueNode::Uint(uint_at(5, 3))],
        vec![rune_at(2, ','), rune_at(4, ',')],
        rune_at(6, ']'),
    )
    .unwrap();
    let raws: Vec<String> = node.children().iter().map(|c| c.text()).collect();
    assert_eq!(raws, vec!["[", "1", ",", "2", ",", "3", "]"]);
    assert_eq!(node.text(), "[1,2,3]");
    assert_eq!(node.start().offset(), 0);
    assert_eq!(node.end().offset(), 7);
    assert_eq!(node.elements().len(), 3);
    assert_eq!(node.commas().len(), 2);
    assert_eq!(node.open_bracket().rune(), '[');
    assert_eq!(node.close_bracket().rune(), ']');
    let elements = node.value();
    assert_eq!(elements.len(), 3);
    assert_eq!(elements[1].text(), "2");
}

#[test]
fn array_without_values() {
    let node = ArrayLiteralNode::new(rune_at(0, '['), vec![], vec![], rune_at(1, ']')).unwrap();
    assert_eq!(node.children().len(), 2);
    assert_eq!(node.text(), "[]");
    assert_eq!(node.value().len(), 0);
}

#[test]
fn array_with_wrong_number_of_commas_is_refused() {
    assert_eq!(
        ArrayLiteralNode::new(rune_at(0, '['), vec![], vec![rune_at(1, ',')], rune_at(2, ']')).err(),
        Some(ConstructionError::SeparatorMismatch)
    );
    assert_eq!(
        ArrayLiteralNode::new(
            rune_at(0, '['),
            vec![ValueNode::Uint(uint_at(1, 1)), ValueNode::Uint(uint_at(3, 2))],
            vec![],
            rune_at(4, ']')
        )
        .err(),
        Some(ConstructionError::SeparatorMismatch)
    );
    assert_eq!(
        ArrayLiteralNode::new(
            rune_at(0, '['),
            vec![ValueNode::Uint(uint_at(1, 1))],
            vec![rune_at(2, ',')],
            rune_at(3, ']')
        )
        .err(),
        Some(ConstructionError::SeparatorMismatch)
    );
}

#[test]
fn array_of_mixed_kinds_is_refused() {
    assert_eq!(
        ArrayLiteralNode::new(
            rune_at(0, '['),
            vec![ValueNode::Uint(uint_at(1, 1)), ValueNode::StringLiteral(string_at(3, "x"))],
            vec![rune_at(2, ',')],
            rune_at(6, ']')
        )
        .err(),
        Some(ConstructionError::MixedKinds)
    );
    assert_eq!(
        ArrayLiteralNode::new(
            rune_at(0, '['),
            vec![
                ValueNode::Bool(BoolLiteralNode::new(keyword_at(1, "true"))),
                ValueNode::Bool(BoolLiteralNode::new(keyword_at(6, "false"))),
                ValueNode::Uint(uint_at(12, 1)),
            ],
            vec![rune_at(5, ','), rune_at(11, ',')],
            rune_at(13, ']')
        )
        .err(),
        Some(ConstructionError::MixedKinds)
    );
}

#[test]
fn array_checks_commas_before_kinds() {
    assert_eq!(
        ArrayLiteralNode::new(
            rune_at(0, '['),
            vec![ValueNode::Uint(uint_at(1, 1)), ValueNode::StringLiteral(string_at(3, "x"))],
            vec![],
            rune_at(6, ']')
        )
        .err(),
        Some(ConstructionError::SeparatorMismatch)
    );
}

#[test]
fn array_of_one_kind_in_different_forms() {
    let node = ArrayLiteralNode::new(
        rune_at(0, '['),
        vec![
            ValueNode::Uint(uint_at(1, 1)),
            ValueNode::PositiveUint(PositiveUintLiteralNode::new(rune_at(3, '+'), uint_at(4, 2))),
        ],
        vec![rune_at(2, ',')],
        rune_at(5, ']'),
    )
    .unwrap();
    assert_eq!(node.text(), "[1,+2]");
    assert_eq!(node.children().len(), 5);
}

#[test]
fn nested_array_has_its_span() {
    let inner = ArrayLiteralNode::new(rune_at(1, '['), vec![ValueNode::Uint(uint_at(2, 7))], vec![], rune_at(3, ']')).unwrap();
    let outer = ArrayLiteralNode::new(rune_at(0, '['), vec![ValueNode::Array(inner)], vec![], rune_at(4, ']')).unwrap();
    assert_eq!(outer.text(), "[[7]]");
    assert_eq!(outer.children().len(), 3);
    assert_eq!(outer.children()[1].start().offset(), 1);
    assert_eq!(outer.children()[1].end().offset(), 4);
    assert_eq!(outer.end().offset(), 5);
}

#[test]
fn message_field_with_and_without_separator() {
    let with = MessageFieldNode::new(Some(rune_at(0, ':')), ValueNode::Uint(uint_at(1, 5)));
    assert_eq!(with.children().len(), 2);
    assert_eq!(with.text(), ":5");
    assert_eq!(with.sep().as_ref().map(|s| s.rune()), Some(':'));
    assert_eq!(with.val().text(), "5");
    assert_eq!(with.start().offset(), 0);
    let without = MessageFieldNode::new(None, ValueNode::Uint(uint_at(1, 5)));
    assert_eq!(without.children().len(), 1);
    assert_eq!(without.text(), "5");
    assert!(without.sep().is_none());
    assert_eq!(without.start().offset(), 1);
    assert_eq!(without.value().text(), "5");
}

#[test]
fn message_literal_children_are_in_source_order() {
    let node = MessageLiteralNode::new(
        rune_at(0, '{'),
        vec![
            MessageFieldNode::new(Some(rune_at(1, ':')), ValueNode::Uint(uint_at(2, 1))),
            MessageFieldNode::new(None, ValueNode::StringLiteral(string_at(4, "x"))),
        ],
        vec![rune_at(3, ','), rune_at(7, ';')],
        rune_at(8, '}'),
    )
    .unwrap();
    let raws: Vec<String> = node.children().iter().map(|c| c.text()).collect();
    assert_eq!(raws, vec!["{", ":1", ",", "\"x\"", ";", "}"]);
    assert_eq!(node.text(), "{:1,\"x\";}");
    assert_eq!(node.start().offset(), 0);
    assert_eq!(node.end().offset(), 9);
    assert_eq!(node.elements().len(), 2);
    assert_eq!(node.seps().len(), 2);
    assert_eq!(node.open().rune(), '{');
    assert_eq!(node.close().rune(), '}');
    assert_eq!(node.value().len(), 2);
}

#[test]
fn message_literal_without_fields() {
    let node = MessageLiteralNode::new(rune_at(0, '{'), vec![], vec![], rune_at(1, '}')).unwrap();
    assert_eq!(node.children().len(), 2);
    assert_eq!(node.text(), "{}");
}

#[test]
fn message_literal_with_wrong_number_of_separators_is_refused() {
    assert_eq!(
        MessageLiteralNode::new(
            rune_at(0, '{'),
            vec![MessageFieldNode::new(None, ValueNode::Uint(uint_at(1, 1)))],
            vec![],
            rune_at(2, '}')
        )
        .err(),
        Some(ConstructionError::SeparatorMismatch)
    );
    assert_eq!(
        MessageLiteralNode::new(rune_at(0, '{'), vec![], vec![rune_at(1, ',')], rune_at(2, '}')).err(),
        Some(ConstructionError::SeparatorMismatch)
    );
}

#[test]
fn value_of_any_kind_has_span_and_text() {
    let v = ValueNode::NegativeInt(NegativeIntLiteralNode::new(rune_at(3, '-'), uint_at(4, 12)).unwrap());
    assert_eq!(v.start().offset(), 3);
    assert_eq!(v.end().offset(), 6);
    assert_eq!(v.text(), "-12");
    let s = ValueNode::CompoundString(CompoundStringLiteralNode::new(vec![string_at(0, "a"), string_at(3, "b")]).unwrap());
    assert_eq!(s.text(), "\"a\"\"b\"");
    assert_eq!(s.end().offset(), 6);
}
