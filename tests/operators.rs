use luster::{
    categorize_binop, lookup_comparison, lookup_simple, lookup_unary, BinOpCategory,
    BinaryOperator, ComparisonBinOp, ConstantIndex8, OpCode, RegisterIndex, RegisterOrConstant,
    ShortCircuitBinOp, SimpleBinOp, UnaryOperator, Value,
};

fn reg(i: u8) -> RegisterOrConstant {
    RegisterOrConstant::Register(RegisterIndex(i))
}

fn cons(i: u8) -> RegisterOrConstant {
    RegisterOrConstant::Constant(ConstantIndex8(i))
}

fn integer(i: i64) -> Value {
    Value::Integer(i)
}

fn string(s: &str) -> Value {
    Value::String(s.as_bytes().to_vec())
}

fn fold2(op: SimpleBinOp, a: i64, b: i64) -> Option<i64> {
    match lookup_simple(op).constant_fold(&integer(a), &integer(b)) {
        Some(Value::Integer(r)) => Some(r),
        None => None,
        _ => panic!("arithmetic folded to a non-integer"),
    }
}

fn compare(op: ComparisonBinOp, a: &Value, b: &Value) -> Option<bool> {
    match lookup_comparison(op).constant_fold(a, b) {
        Some(Value::Boolean(r)) => Some(r),
        None => None,
        _ => panic!("comparison folded to a non-boolean"),
    }
}

const ALL_BINOPS: [BinaryOperator; 21] = [
    BinaryOperator::Add,
    BinaryOperator::Sub,
    BinaryOperator::Mul,
    BinaryOperator::Mod,
    BinaryOperator::Pow,
    BinaryOperator::Div,
    BinaryOperator::IDiv,
    BinaryOperator::BitAnd,
    BinaryOperator::BitOr,
    BinaryOperator::BitXor,
    BinaryOperator::ShiftLeft,
    BinaryOperator::ShiftRight,
    BinaryOperator::Concat,
    BinaryOperator::NotEqual,
    BinaryOperator::Equal,
    BinaryOperator::LessThan,
    BinaryOperator::LessEqual,
    BinaryOperator::GreaterThan,
    BinaryOperator::GreaterEqual,
    BinaryOperator::And,
    BinaryOperator::Or,
];

const ALL_SIMPLE: [SimpleBinOp; 12] = [
    SimpleBinOp::Add,
    SimpleBinOp::Sub,
    SimpleBinOp::Mul,
    SimpleBinOp::Mod,
    SimpleBinOp::Pow,
    SimpleBinOp::Div,
    SimpleBinOp::IDiv,
    SimpleBinOp::BitAnd,
    SimpleBinOp::BitOr,
    SimpleBinOp::BitXor,
    SimpleBinOp::ShiftLeft,
    SimpleBinOp::ShiftRight,
];

const ALL_COMPARISONS: [ComparisonBinOp; 6] = [
    ComparisonBinOp::NotEqual,
    ComparisonBinOp::Equal,
    ComparisonBinOp::LessThan,
    ComparisonBinOp::LessEqual,
    ComparisonBinOp::GreaterThan,
    ComparisonBinOp::GreaterEqual,
];

#[test]
fn categorize_gives_one_family_per_operator() {
    let mut seen = Vec::new();
    for op in ALL_BINOPS {
        let c = categorize_binop(op);
        assert_eq!(c, categorize_binop(op));
        assert!(!seen.contains(&c));
        seen.push(c);
    }
    assert_eq!(categorize_binop(BinaryOperator::Concat), BinOpCategory::Concat);
    assert_eq!(
        categorize_binop(BinaryOperator::Or),
        BinOpCategory::ShortCircuit(ShortCircuitBinOp::Or)
    );
    assert_eq!(
        categorize_binop(BinaryOperator::GreaterEqual),
        BinOpCategory::Comparison(ComparisonBinOp::GreaterEqual)
    );
    assert_eq!(
        categorize_binop(BinaryOperator::IDiv),
        BinOpCategory::Simple(SimpleBinOp::IDiv)
    );
}

#[test]
fn simple_opcodes_follow_operand_places() {
    for op in ALL_SIMPLE {
        let e = lookup_simple(op);
        let rr = e.make_opcode(RegisterIndex(0), reg(1), reg(2));
        let rc = e.make_opcode(RegisterIndex(0), reg(1), cons(2));
        let cr = e.make_opcode(RegisterIndex(0), cons(1), reg(2));
        let cc = e.make_opcode(RegisterIndex(0), cons(1), cons(2));
        assert_ne!(rr, rc);
        assert_ne!(rr, cr);
        assert_ne!(rr, cc);
        assert_ne!(rc, cr);
        assert_ne!(rc, cc);
        assert_ne!(cr, cc);
    }
    let e = lookup_simple(SimpleBinOp::ShiftRight);
    assert_eq!(
        e.make_opcode(RegisterIndex(7), cons(8), reg(9)),
        OpCode::ShiftRightCR { dest: RegisterIndex(7), left: ConstantIndex8(8), right: RegisterIndex(9) }
    );
    let e = lookup_simple(SimpleBinOp::Mul);
    assert_eq!(
        e.make_opcode(RegisterIndex(0), reg(255), cons(254)),
        OpCode::MulRC { dest: RegisterIndex(0), left: RegisterIndex(255), right: ConstantIndex8(254) }
    );
}

#[test]
fn comparison_opcodes_follow_operand_places() {
    for op in ALL_COMPARISONS {
        let e = lookup_comparison(op);
        let rr = e.make_opcode(reg(1), reg(2));
        let rc = e.make_opcode(reg(1), cons(2));
        let cr = e.make_opcode(cons(1), reg(2));
        let cc = e.make_opcode(cons(1), cons(2));
        assert_ne!(rr, rc);
        assert_ne!(rr, cr);
        assert_ne!(rr, cc);
        assert_ne!(rc, cr);
        assert_ne!(rc, cc);
        assert_ne!(cr, cc);
    }
    assert_eq!(
        lookup_comparison(ComparisonBinOp::Equal).make_opcode(reg(4), cons(6)),
        OpCode::EqRC { skip_if: false, left: RegisterIndex(4), right: ConstantIndex8(6) }
    );
    assert_eq!(
        lookup_comparison(ComparisonBinOp::GreaterThan).make_opcode(cons(1), reg(0)),
        OpCode::GreaterThanCR { skip_if: false, left: ConstantIndex8(1), right: RegisterIndex(0) }
    );
}

#[test]
fn unary_opcodes() {
    assert_eq!(
        lookup_unary(UnaryOperator::Not).make_opcode(RegisterIndex(2), RegisterIndex(3)),
        OpCode::Not { dest: RegisterIndex(2), source: RegisterIndex(3) }
    );
    assert_eq!(
        lookup_unary(UnaryOperator::Minus).make_opcode(RegisterIndex(1), RegisterIndex(1)),
        OpCode::Minus { dest: RegisterIndex(1), source: RegisterIndex(1) }
    );
    assert_eq!(
        lookup_unary(UnaryOperator::BitNot).make_opcode(RegisterIndex(0), RegisterIndex(5)),
        OpCode::BitNot { dest: RegisterIndex(0), source: RegisterIndex(5) }
    );
    assert_eq!(
        lookup_unary(UnaryOperator::Len).make_opcode(RegisterIndex(9), RegisterIndex(8)),
        OpCode::Length { dest: RegisterIndex(9), source: RegisterIndex(8) }
    );
}

#[test]
fn scenario_add_registers() {
    let op = lookup_simple(SimpleBinOp::Add).make_opcode(RegisterIndex(1), reg(3), reg(5));
    assert_eq!(
        op,
        OpCode::AddRR { dest: RegisterIndex(1), left: RegisterIndex(3), right: RegisterIndex(5) }
    );
}

#[test]
fn scenario_add_constant_register() {
    let e = lookup_simple(SimpleBinOp::Add);
    let op = e.make_opcode(RegisterIndex(1), cons(2), reg(4));
    assert_eq!(
        op,
        OpCode::AddCR { dest: RegisterIndex(1), left: ConstantIndex8(2), right: RegisterIndex(4) }
    );
    assert!(matches!(e.constant_fold(&integer(10), &integer(20)), Some(Value::Integer(30))));
}

#[test]
fn scenario_equal_strings() {
    assert_eq!(compare(ComparisonBinOp::Equal, &string("abc"), &string("abc")), Some(true));
    assert_eq!(compare(ComparisonBinOp::Equal, &integer(3), &string("3")), Some(false));
    assert_eq!(compare(ComparisonBinOp::NotEqual, &integer(3), &string("3")), Some(true));
}

#[test]
fn scenario_less_than_mixed() {
    let e = lookup_comparison(ComparisonBinOp::LessThan);
    assert!(e.constant_fold(&integer(3), &string("x")).is_none());
    assert_eq!(
        e.make_opcode(cons(0), cons(1)),
        OpCode::LessThanCC { skip_if: false, left: ConstantIndex8(0), right: ConstantIndex8(1) }
    );
}

#[test]
fn comparison_folding_totality() {
    let values = vec![
        Value::Nil,
        Value::Boolean(true),
        Value::Boolean(false),
        Value::Number(2.5f64.to_bits()),
        integer(0),
        integer(-5),
        string(""),
        string("a"),
    ];
    for a in &values {
        for b in &values {
            assert!(compare(ComparisonBinOp::Equal, a, b).is_some());
            assert!(compare(ComparisonBinOp::NotEqual, a, b).is_some());
            let ordered = matches!((a, b), (Value::Integer(_), Value::Integer(_)))
                || matches!((a, b), (Value::String(_), Value::String(_)));
            let orderable = ordered
                || matches!(
                    (a, b),
                    (Value::Integer(_) | Value::Number(_), Value::Integer(_) | Value::Number(_))
                );
            for op in [
                ComparisonBinOp::LessThan,
                ComparisonBinOp::LessEqual,
                ComparisonBinOp::GreaterThan,
                ComparisonBinOp::GreaterEqual,
            ] {
                assert_eq!(compare(op, a, b).is_some(), ordered);
                if !orderable {
                    assert!(compare(op, a, b).is_none());
                }
            }
        }
    }
}

#[test]
fn orders_on_integers_and_strings() {
    assert_eq!(compare(ComparisonBinOp::LessThan, &integer(-1), &integer(2)), Some(true));
    assert_eq!(compare(ComparisonBinOp::LessEqual, &integer(2), &integer(2)), Some(true));
    assert_eq!(compare(ComparisonBinOp::GreaterThan, &integer(2), &integer(2)), Some(false));
    assert_eq!(compare(ComparisonBinOp::GreaterEqual, &integer(3), &integer(2)), Some(true));
    assert_eq!(compare(ComparisonBinOp::LessThan, &string("ab"), &string("abc")), Some(true));
    assert_eq!(compare(ComparisonBinOp::LessThan, &string("abd"), &string("abc")), Some(false));
    assert_eq!(compare(ComparisonBinOp::LessThan, &string(""), &string("")), Some(false));
    assert_eq!(compare(ComparisonBinOp::LessEqual, &string(""), &string("")), Some(true));
    assert_eq!(compare(ComparisonBinOp::GreaterThan, &string("b"), &string("abc")), Some(true));
    assert_eq!(compare(ComparisonBinOp::GreaterEqual, &string("a"), &string("ab")), Some(false));
    assert_eq!(compare(ComparisonBinOp::Equal, &string("ab"), &string("abc")), Some(false));
    assert_eq!(compare(ComparisonBinOp::Equal, &Value::Nil, &Value::Boolean(false)), Some(false));
    assert_eq!(compare(ComparisonBinOp::Equal, &Value::Nil, &Value::Nil), Some(true));
    assert_eq!(compare(ComparisonBinOp::LessThan, &Value::Nil, &Value::Nil), None);
}

#[test]
fn not_folding() {
    let not = lookup_unary(UnaryOperator::Not);
    let cases = vec![
        (Value::Nil, true),
        (Value::Boolean(false), true),
        (Value::Boolean(true), false),
        (integer(0), false),
        (integer(7), false),
        (string(""), false),
        (string("x"), false),
    ];
    for (v, expected) in cases {
        match not.constant_fold(&v) {
            Some(Value::Boolean(b)) => assert_eq!(b, expected),
            _ => panic!("not must fold to a boolean"),
        }
    }
}

#[test]
fn other_unary_folding() {
    let minus = lookup_unary(UnaryOperator::Minus);
    assert!(matches!(minus.constant_fold(&integer(5)), Some(Value::Integer(-5))));
    assert!(matches!(minus.constant_fold(&integer(i64::MIN)), Some(Value::Integer(i64::MIN))));
    assert!(minus.constant_fold(&string("5")).is_none());
    let bnot = lookup_unary(UnaryOperator::BitNot);
    assert!(matches!(bnot.constant_fold(&integer(0)), Some(Value::Integer(-1))));
    assert!(bnot.constant_fold(&Value::Nil).is_none());
    let len = lookup_unary(UnaryOperator::Len);
    assert!(matches!(len.constant_fold(&string("hello")), Some(Value::Integer(5))));
    assert!(matches!(len.constant_fold(&string("")), Some(Value::Integer(0))));
    assert!(len.constant_fold(&integer(3)).is_none());
}

#[test]
fn wrapping_arithmetic() {
    assert_eq!(fold2(SimpleBinOp::Add, 10, 20), Some(30));
    assert_eq!(fold2(SimpleBinOp::Add, i64::MAX, 1), Some(i64::MIN));
    assert_eq!(fold2(SimpleBinOp::Sub, i64::MIN, 1), Some(i64::MAX));
    assert_eq!(fold2(SimpleBinOp::Sub, 3, 10), Some(-7));
    assert_eq!(fold2(SimpleBinOp::Mul, 6, -7), Some(-42));
    assert_eq!(fold2(SimpleBinOp::Mul, i64::MAX, 2), Some(-2));
}

#[test]
fn floor_division_and_modulo() {
    assert_eq!(fold2(SimpleBinOp::IDiv, 7, 2), Some(3));
    assert_eq!(fold2(SimpleBinOp::IDiv, -7, 2), Some(-4));
    assert_eq!(fold2(SimpleBinOp::IDiv, 7, -2), Some(-4));
    assert_eq!(fold2(SimpleBinOp::IDiv, -7, -2), Some(3));
    assert_eq!(fold2(SimpleBinOp::IDiv, -8, 2), Some(-4));
    assert_eq!(fold2(SimpleBinOp::IDiv, i64::MIN, -1), Some(i64::MIN));
    assert_eq!(fold2(SimpleBinOp::IDiv, 5, 0), None);
    assert_eq!(fold2(SimpleBinOp::Mod, 7, 3), Some(1));
    assert_eq!(fold2(SimpleBinOp::Mod, -7, 3), Some(2));
    assert_eq!(fold2(SimpleBinOp::Mod, 7, -3), Some(-2));
    assert_eq!(fold2(SimpleBinOp::Mod, -7, -3), Some(-1));
    assert_eq!(fold2(SimpleBinOp::Mod, 6, -3), Some(0));
    assert_eq!(fold2(SimpleBinOp::Mod, i64::MIN, -1), Some(0));
    assert_eq!(fold2(SimpleBinOp::Mod, 5, 0), None);
}

#[test]
fn float_results_are_not_folded() {
    assert_eq!(fold2(SimpleBinOp::Div, 6, 3), None);
    assert_eq!(fold2(SimpleBinOp::Pow, 2, 3), None);
}

#[test]
fn bitwise_and_shifts() {
    assert_eq!(fold2(SimpleBinOp::BitAnd, 0b1100, 0b1010), Some(0b1000));
    assert_eq!(fold2(SimpleBinOp::BitOr, 0b1100, 0b1010), Some(0b1110));
    assert_eq!(fold2(SimpleBinOp::BitXor, 0b1100, 0b1010), Some(0b0110));
    assert_eq!(fold2(SimpleBinOp::ShiftLeft, 1, 4), Some(16));
    assert_eq!(fold2(SimpleBinOp::ShiftLeft, 1, 63), Some(i64::MIN));
    assert_eq!(fold2(SimpleBinOp::ShiftLeft, 1, 64), Some(0));
    assert_eq!(fold2(SimpleBinOp::ShiftLeft, 16, -2), Some(4));
    assert_eq!(fold2(SimpleBinOp::ShiftRight, -1, 60), Some(15));
    assert_eq!(fold2(SimpleBinOp::ShiftRight, -1, 64), Some(0));
    assert_eq!(fold2(SimpleBinOp::ShiftRight, 1, -3), Some(8));
    assert_eq!(fold2(SimpleBinOp::ShiftRight, 5, i64::MIN), Some(0));
}

#[test]
fn arithmetic_on_other_kinds_is_deferred() {
    for op in ALL_SIMPLE {
        let e = lookup_simple(op);
        assert!(e.constant_fold(&string("10"), &integer(1)).is_none());
        assert!(e.constant_fold(&integer(1), &Value::Nil).is_none());
        assert!(e.constant_fold(&Value::Boolean(true), &Value::Boolean(true)).is_none());
    }
}

fn float(f: f64) -> Value {
    Value::Number(f.to_bits())
}

#[test]
fn float_equality() {
    let eq = |a: &Value, b: &Value| compare(ComparisonBinOp::Equal, a, b).unwrap();
    assert!(eq(&float(1.5), &float(1.5)));
    assert!(!eq(&float(1.5), &float(2.5)));
    assert!(eq(&float(0.0), &float(-0.0)));
    assert!(!eq(&float(f64::NAN), &float(f64::NAN)));
    assert!(eq(&float(f64::INFINITY), &float(f64::INFINITY)));
    assert!(!eq(&float(f64::INFINITY), &float(f64::NEG_INFINITY)));
    assert!(!eq(&float(1.0), &string("1")));
    assert!(!eq(&float(0.0), &Value::Boolean(false)));
}

#[test]
fn integer_float_equality_is_exact() {
    let eq = |a: &Value, b: &Value| compare(ComparisonBinOp::Equal, a, b).unwrap();
    assert!(eq(&integer(1), &float(1.0)));
    assert!(eq(&float(1.0), &integer(1)));
    assert!(eq(&integer(0), &float(-0.0)));
    assert!(eq(&integer(-1024), &float(-1024.0)));
    assert!(eq(&integer(3 << 40), &float((3u64 << 40) as f64)));
    assert!(!eq(&integer(3), &float(3.5)));
    assert!(!eq(&integer(0), &float(5e-324)));
    assert!(!eq(&integer(1), &float(f64::INFINITY)));
    assert!(!eq(&integer(0), &float(f64::NAN)));
    assert!(eq(&integer(1 << 53), &float(9007199254740992.0)));
    assert!(!eq(&integer((1 << 53) + 1), &float(9007199254740992.0)));
    assert!(eq(&integer(i64::MIN), &float(-9223372036854775808.0)));
    assert!(!eq(&integer(i64::MAX), &float(9223372036854775808.0)));
    assert!(!eq(&integer(i64::MIN), &float(9223372036854775808.0)));
    assert!(!eq(&integer(0), &float(1e30)));
    assert!(eq(&integer(1 << 62), &float(4611686018427387904.0)));
    assert!(compare(ComparisonBinOp::NotEqual, &integer(2), &float(2.0)) == Some(false));
}

#[test]
fn float_folding_is_deferred() {
    assert!(compare(ComparisonBinOp::LessThan, &float(1.0), &float(2.0)).is_none());
    assert!(compare(ComparisonBinOp::GreaterEqual, &integer(1), &float(2.0)).is_none());
    for op in ALL_SIMPLE {
        assert!(lookup_simple(op).constant_fold(&float(1.0), &float(2.0)).is_none());
        assert!(lookup_simple(op).constant_fold(&integer(1), &float(2.0)).is_none());
    }
    assert!(lookup_unary(UnaryOperator::BitNot).constant_fold(&float(1.0)).is_none());
    assert!(lookup_unary(UnaryOperator::Len).constant_fold(&float(1.0)).is_none());
}

#[test]
fn float_negation_and_truth() {
    let minus = lookup_unary(UnaryOperator::Minus);
    match minus.constant_fold(&float(1.5)) {
        Some(Value::Number(bits)) => assert_eq!(f64::from_bits(bits), -1.5),
        _ => panic!("negation of a float must fold"),
    }
    match minus.constant_fold(&float(-0.0)) {
        Some(Value::Number(bits)) => assert_eq!(bits, 0.0f64.to_bits()),
        _ => panic!("negation of a float must fold"),
    }
    let not = lookup_unary(UnaryOperator::Not);
    assert!(matches!(not.constant_fold(&float(0.0)), Some(Value::Boolean(false))));
}
