//! Operators: how a surface operator is categorised for instruction
//! selection, and for each operator that compiles to one instruction, how
//! that instruction is built and how the operator folds on literal operands.
use vstd::prelude::*;

use crate::arith::{
    floor_div, floor_mod, floor_remainder, idiv_spec, shift_left, shift_right, shl_spec, shr_spec,
};
use crate::opcode::{ConstantIndex8, OpCode, RegisterIndex};
use crate::operators::RegisterOrConstant::{Constant, Register};
use crate::value::{bytes_lt, less_equal, less_than, raw_equal, truthy, Value};

verus! {

/// A binary operator as it is written in source.
#[derive(Debug, PartialEq, Eq, Hash, Copy, Clone, Structural)]
pub enum BinaryOperator {
    Add,
    Sub,
    Mul,
    Mod,
    Pow,
    Div,
    IDiv,
    BitAnd,
    BitOr,
    BitXor,
    ShiftLeft,
    ShiftRight,
    Concat,
    NotEqual,
    Equal,
    LessThan,
    LessEqual,
    GreaterThan,
    GreaterEqual,
    And,
    Or,
}

/// A unary operator as it is written in source.
#[derive(Debug, PartialEq, Eq, Hash, Copy, Clone, Structural)]
pub enum UnaryOperator {
    Not,
    Minus,
    BitNot,
    Len,
}

/// Binary operators which map directly to a single opcode.
#[derive(Debug, PartialEq, Eq, Hash, Copy, Clone, Structural)]
pub enum SimpleBinOp {
    Add,
    Sub,
    Mul,
    Mod,
    Pow,
    Div,
    IDiv,
    BitAnd,
    BitOr,
    BitXor,
    ShiftLeft,
    ShiftRight,
}

/// Binary operators which compile to a test that skips the next instruction,
/// combined with jumps by the code generator.
#[derive(Debug, PartialEq, Eq, Hash, Copy, Clone, Structural)]
pub enum ComparisonBinOp {
    NotEqual,
    Equal,
    LessThan,
    LessEqual,
    GreaterThan,
    GreaterEqual,
}

/// `and` and `or`, which short circuit their right hand side.
#[derive(Debug, PartialEq, Eq, Hash, Copy, Clone, Structural)]
pub enum ShortCircuitBinOp {
    And,
    Or,
}

/// A categorised binary operator.
#[derive(Debug, PartialEq, Eq, Hash, Copy, Clone, Structural)]
pub enum BinOpCategory {
    Simple(SimpleBinOp),
    Comparison(ComparisonBinOp),
    ShortCircuit(ShortCircuitBinOp),
    Concat,
}

/// The family of each binary operator.
pub open spec fn category_of(binop: BinaryOperator) -> BinOpCategory {
    match binop {
        BinaryOperator::Add => BinOpCategory::Simple(SimpleBinOp::Add),
        BinaryOperator::Sub => BinOpCategory::Simple(SimpleBinOp::Sub),
        BinaryOperator::Mul => BinOpCategory::Simple(SimpleBinOp::Mul),
        BinaryOperator::Mod => BinOpCategory::Simple(SimpleBinOp::Mod),
        BinaryOperator::Pow => BinOpCategory::Simple(SimpleBinOp::Pow),
        BinaryOperator::Div => BinOpCategory::Simple(SimpleBinOp::Div),
        BinaryOperator::IDiv => BinOpCategory::Simple(SimpleBinOp::IDiv),
        BinaryOperator::BitAnd => BinOpCategory::Simple(SimpleBinOp::BitAnd),
        BinaryOperator::BitOr => BinOpCategory::Simple(SimpleBinOp::BitOr),
        BinaryOperator::BitXor => BinOpCategory::Simple(SimpleBinOp::BitXor),
        BinaryOperator::ShiftLeft => BinOpCategory::Simple(SimpleBinOp::ShiftLeft),
        BinaryOperator::ShiftRight => BinOpCategory::Simple(SimpleBinOp::ShiftRight),
        BinaryOperator::Concat => BinOpCategory::Concat,
        BinaryOperator::NotEqual => BinOpCategory::Comparison(ComparisonBinOp::NotEqual),
        BinaryOperator::Equal => BinOpCategory::Comparison(ComparisonBinOp::Equal),
        BinaryOperator::LessThan => BinOpCategory::Comparison(ComparisonBinOp::LessThan),
        BinaryOperator::LessEqual => BinOpCategory::Comparison(ComparisonBinOp::LessEqual),
        BinaryOperator::GreaterThan => BinOpCategory::Comparison(ComparisonBinOp::GreaterThan),
        BinaryOperator::GreaterEqual => BinOpCategory::Comparison(ComparisonBinOp::GreaterEqual),
        BinaryOperator::And => BinOpCategory::ShortCircuit(ShortCircuitBinOp::And),
        BinaryOperator::Or => BinOpCategory::ShortCircuit(ShortCircuitBinOp::Or),
    }
}

/// Sorts a binary operator into the family that decides how it is compiled.
pub fn categorize_binop(binop: BinaryOperator) -> (r: BinOpCategory)
    ensures
        r == category_of(binop),
{
    match binop {
        BinaryOperator::Add => BinOpCategory::Simple(SimpleBinOp::Add),
        BinaryOperator::Sub => BinOpCategory::Simple(SimpleBinOp::Sub),
        BinaryOperator::Mul => BinOpCategory::Simple(SimpleBinOp::Mul),
        BinaryOperator::Mod => BinOpCategory::Simple(SimpleBinOp::Mod),
        BinaryOperator::Pow => BinOpCategory::Simple(SimpleBinOp::Pow),
        BinaryOperator::Div => BinOpCategory::Simple(SimpleBinOp::Div),
        BinaryOperator::IDiv => BinOpCategory::Simple(SimpleBinOp::IDiv),
        BinaryOperator::BitAnd => BinOpCategory::Simple(SimpleBinOp::BitAnd),
        BinaryOperator::BitOr => BinOpCategory::Simple(SimpleBinOp::BitOr),
        BinaryOperator::BitXor => BinOpCategory::Simple(SimpleBinOp::BitXor),
        BinaryOperator::ShiftLeft => BinOpCategory::Simple(SimpleBinOp::ShiftLeft),
        BinaryOperator::ShiftRight => BinOpCategory::Simple(SimpleBinOp::ShiftRight),
        BinaryOperator::Concat => BinOpCategory::Concat,
        BinaryOperator::NotEqual => BinOpCategory::Comparison(ComparisonBinOp::NotEqual),
        BinaryOperator::Equal => BinOpCategory::Comparison(ComparisonBinOp::Equal),
        BinaryOperator::LessThan => BinOpCategory::Comparison(ComparisonBinOp::LessThan),
        BinaryOperator::LessEqual => BinOpCategory::Comparison(ComparisonBinOp::LessEqual),
        BinaryOperator::GreaterThan => BinOpCategory::Comparison(ComparisonBinOp::GreaterThan),
        BinaryOperator::GreaterEqual => BinOpCategory::Comparison(ComparisonBinOp::GreaterEqual),
        BinaryOperator::And => BinOpCategory::ShortCircuit(ShortCircuitBinOp::And),
        BinaryOperator::Or => BinOpCategory::ShortCircuit(ShortCircuitBinOp::Or),
    }
}

/// Where a compiled operand lives.
#[derive(Debug, Clone, Copy, PartialEq, Eq, Structural)]
pub enum RegisterOrConstant {
    Register(RegisterIndex),
    Constant(ConstantIndex8),
}

/// What an arithmetic or bitwise operator gives on two literals, where that
/// is known at compile time. Only two integers fold: arithmetic on floats
/// is left to the runtime, `/` and `^` always give a float, integer division
/// or modulo by zero raises an error, and other kinds need coercion or raise
/// an error at run time.
pub open spec fn simple_fold(op: SimpleBinOp, left: Value, right: Value) -> Option<Value> {
    match (left, right) {
        (Value::Integer(x), Value::Integer(y)) => match op {
            SimpleBinOp::Add => Some(Value::Integer(x.wrapping_add(y))),
            SimpleBinOp::Sub => Some(Value::Integer(x.wrapping_sub(y))),
            SimpleBinOp::Mul => Some(Value::Integer(x.wrapping_mul(y))),
            SimpleBinOp::Mod => if y == 0 {
                None
            } else {
                Some(Value::Integer(floor_remainder(x as int, y as int) as i64))
            },
            SimpleBinOp::Pow => None,
            SimpleBinOp::Div => None,
            SimpleBinOp::IDiv => if y == 0 {
                None
            } else {
                Some(Value::Integer(idiv_spec(x, y)))
            },
            SimpleBinOp::BitAnd => Some(Value::Integer(x & y)),
            SimpleBinOp::BitOr => Some(Value::Integer(x | y)),
            SimpleBinOp::BitXor => Some(Value::Integer(x ^ y)),
            SimpleBinOp::ShiftLeft => Some(Value::Integer(shl_spec(x, y))),
            SimpleBinOp::ShiftRight => Some(Value::Integer(shr_spec(x, y))),
        },
        _ => None,
    }
}

/// A boolean outcome as a literal value.
pub open spec fn boolean_value(outcome: Option<bool>) -> Option<Value> {
    match outcome {
        Some(b) => Some(Value::Boolean(b)),
        None => None,
    }
}

/// What a comparison gives on two literals: equality always folds, an order
/// only on two integers or two strings.
pub open spec fn comparison_fold(op: ComparisonBinOp, left: Value, right: Value) -> Option<Value> {
    match op {
        ComparisonBinOp::Equal => Some(Value::Boolean(raw_equal(left, right))),
        ComparisonBinOp::NotEqual => Some(Value::Boolean(!raw_equal(left, right))),
        ComparisonBinOp::LessThan => boolean_value(less_than(left, right)),
        ComparisonBinOp::LessEqual => boolean_value(less_equal(left, right)),
        ComparisonBinOp::GreaterThan => boolean_value(less_than(right, left)),
        ComparisonBinOp::GreaterEqual => boolean_value(less_equal(right, left)),
    }
}

/// What a unary operator gives on a literal, where that is known at compile
/// time: `not` on anything, negation of a number (wrapping on integers, a
/// flip of the sign bit on floats), bitwise not on integers, and the length
/// of a string.
pub open spec fn unary_fold(op: UnaryOperator, v: Value) -> Option<Value> {
    match op {
        UnaryOperator::Not => Some(Value::Boolean(!truthy(v))),
        UnaryOperator::Minus => match v {
            Value::Integer(x) => Some(Value::Integer((0i64).wrapping_sub(x))),
            Value::Number(x) => Some(Value::Number(x ^ 0x8000_0000_0000_0000u64)),
            _ => None,
        },
        UnaryOperator::BitNot => match v {
            Value::Integer(x) => Some(Value::Integer(!x)),
            _ => None,
        },
        UnaryOperator::Len => match v {
            Value::String(s) => if s@.len() <= i64::MAX {
                Some(Value::Integer(s@.len() as i64))
            } else {
                None
            },
            _ => None,
        },
    }
}

/// The table entry of an arithmetic or bitwise operator: it builds the
/// operator's instruction and folds it on literals.
#[derive(Debug, Clone, Copy, PartialEq, Eq, Structural)]
pub struct SimpleBinOpEntry {
    pub op: SimpleBinOp,
}

impl SimpleBinOpEntry {
    /// The instruction that computes `left op right` into `dest`, chosen by
    /// where each operand lives.
    pub fn make_opcode(
        &self,
        dest: RegisterIndex,
        left: RegisterOrConstant,
        right: RegisterOrConstant,
    ) -> (r: OpCode)
        ensures
            r.as_simple() == Some((self.op, dest, left, right)),
    {
        match (self.op, left, right) {
            (SimpleBinOp::Add, Register(left), Register(right)) => {
                OpCode::AddRR { dest, left, right }
            },
            (SimpleBinOp::Add, Register(left), Constant(right)) => {
                OpCode::AddRC { dest, left, right }
            },
            (SimpleBinOp::Add, Constant(left), Register(right)) => {
                OpCode::AddCR { dest, left, right }
            },
            (SimpleBinOp::Add, Constant(left), Constant(right)) => {
                OpCode::AddCC { dest, left, right }
            },
            (SimpleBinOp::Sub, Register(left), Register(right)) => {
                OpCode::SubRR { dest, left, right }
            },
            (SimpleBinOp::Sub, Register(left), Constant(right)) => {
                OpCode::SubRC { dest, left, right }
            },
            (SimpleBinOp::Sub, Constant(left), Register(right)) => {
                OpCode::SubCR { dest, left, right }
            },
            (SimpleBinOp::Sub, Constant(left), Constant(right)) => {
                OpCode::SubCC { dest, left, right }
            },
            (SimpleBinOp::Mul, Register(left), Register(right)) => {
                OpCode::MulRR { dest, left, right }
            },
            (SimpleBinOp::Mul, Register(left), Constant(right)) => {
                OpCode::MulRC { dest, left, right }
            },
            (SimpleBinOp::Mul, Constant(left), Register(right)) => {
                OpCode::MulCR { dest, left, right }
            },
            (SimpleBinOp::Mul, Constant(left), Constant(right)) => {
                OpCode::MulCC { dest, left, right }
            },
            (SimpleBinOp::Mod, Register(left), Register(right)) => {
                OpCode::ModRR { dest, left, right }
            },
            (SimpleBinOp::Mod, Register(left), Constant(right)) => {
                OpCode::ModRC { dest, left, right }
            },
            (SimpleBinOp::Mod, Constant(left), Register(right)) => {
                OpCode::ModCR { dest, left, right }
            },
            (SimpleBinOp::Mod, Constant(left), Constant(right)) => {
                OpCode::ModCC { dest, left, right }
            },
            (SimpleBinOp::Pow, Register(left), Register(right)) => {
                OpCode::PowRR { dest, left, right }
            },
            (SimpleBinOp::Pow, Register(left), Constant(right)) => {
                OpCode::PowRC { dest, left, right }
            },
            (SimpleBinOp::Pow, Constant(left), Register(right)) => {
                OpCode::PowCR { dest, left, right }
            },
            (SimpleBinOp::Pow, Constant(left), Constant(right)) => {
                OpCode::PowCC { dest, left, right }
            },
            (SimpleBinOp::Div, Register(left), Register(right)) => {
                OpCode::DivRR { dest, left, right }
            },
            (SimpleBinOp::Div, Register(left), Constant(right)) => {
                OpCode::DivRC { dest, left, right }
            },
            (SimpleBinOp::Div, Constant(left), Register(right)) => {
                OpCode::DivCR { dest, left, right }
            },
            (SimpleBinOp::Div, Constant(left), Constant(right)) => {
                OpCode::DivCC { dest, left, right }
            },
            (SimpleBinOp::IDiv, Register(left), Register(right)) => {
                OpCode::IDivRR { dest, left, right }
            },
            (SimpleBinOp::IDiv, Register(left), Constant(right)) => {
                OpCode::IDivRC { dest, left, right }
            },
            (SimpleBinOp::IDiv, Constant(left), Register(right)) => {
                OpCode::IDivCR { dest, left, right }
            },
            (SimpleBinOp::IDiv, Constant(left), Constant(right)) => {
                OpCode::IDivCC { dest, left, right }
            },
            (SimpleBinOp::BitAnd, Register(left), Register(right)) => {
                OpCode::BitAndRR { dest, left, right }
            },
            (SimpleBinOp::BitAnd, Register(left), Constant(right)) => {
                OpCode::BitAndRC { dest, left, right }
            },
            (SimpleBinOp::BitAnd, Constant(left), Register(right)) => {
                OpCode::BitAndCR { dest, left, right }
            },
            (SimpleBinOp::BitAnd, Constant(left), Constant(right)) => {
                OpCode::BitAndCC { dest, left, right }
            },
            (SimpleBinOp::BitOr, Register(left), Register(right)) => {
                OpCode::BitOrRR { dest, left, right }
            },
            (SimpleBinOp::BitOr, Register(left), Constant(right)) => {
                OpCode::BitOrRC { dest, left, right }
            },
            (SimpleBinOp::BitOr, Constant(left), Register(right)) => {
                OpCode::BitOrCR { dest, left, right }
            },
            (SimpleBinOp::BitOr, Constant(left), Constant(right)) => {
                OpCode::BitOrCC { dest, left, right }
            },
            (SimpleBinOp::BitXor, Register(left), Register(right)) => {
                OpCode::BitXorRR { dest, left, right }
            },
            (SimpleBinOp::BitXor, Register(left), Constant(right)) => {
                OpCode::BitXorRC { dest, left, right }
            },
            (SimpleBinOp::BitXor, Constant(left), Register(right)) => {
                OpCode::BitXorCR { dest, left, right }
            },
            (SimpleBinOp::BitXor, Constant(left), Constant(right)) => {
                OpCode::BitXorCC { dest, left, right }
            },
            (SimpleBinOp::ShiftLeft, Register(left), Register(right)) => {
                OpCode::ShiftLeftRR { dest, left, right }
            },
            (SimpleBinOp::ShiftLeft, Register(left), Constant(right)) => {
                OpCode::ShiftLeftRC { dest, left, right }
            },
            (SimpleBinOp::ShiftLeft, Constant(left), Register(right)) => {
                OpCode::ShiftLeftCR { dest, left, right }
            },
            (SimpleBinOp::ShiftLeft, Constant(left), Constant(right)) => {
                OpCode::ShiftLeftCC { dest, left, right }
            },
            (SimpleBinOp::ShiftRight, Register(left), Register(right)) => {
                OpCode::ShiftRightRR { dest, left, right }
            },
            (SimpleBinOp::ShiftRight, Register(left), Constant(right)) => {
                OpCode::ShiftRightRC { dest, left, right }
            },
            (SimpleBinOp::ShiftRight, Constant(left), Register(right)) => {
                OpCode::ShiftRightCR { dest, left, right }
            },
            (SimpleBinOp::ShiftRight, Constant(left), Constant(right)) => {
                OpCode::ShiftRightCC { dest, left, right }
            },
        }
    }

    /// The operator's result on two literals, or `None` where it can only be
    /// computed at run time.
    pub fn constant_fold(&self, left: &Value, right: &Value) -> (r: Option<Value>)
        ensures
            r == simple_fold(self.op, *left, *right),
    {
        match (left, right) {
            (Value::Integer(x), Value::Integer(y)) => {
                let x: i64 = *x;
                let y: i64 = *y;
                match self.op {
                    SimpleBinOp::Add => Some(Value::Integer(x.wrapping_add(y))),
                    SimpleBinOp::Sub => Some(Value::Integer(x.wrapping_sub(y))),
                    SimpleBinOp::Mul => Some(Value::Integer(x.wrapping_mul(y))),
                    SimpleBinOp::Mod => if y == 0 {
                        None
                    } else {
                        Some(Value::Integer(floor_mod(x, y)))
                    },
                    SimpleBinOp::Pow => None,
                    SimpleBinOp::Div => None,
                    SimpleBinOp::IDiv => if y == 0 {
                        None
                    } else {
                        Some(Value::Integer(floor_div(x, y)))
                    },
                    SimpleBinOp::BitAnd => Some(Value::Integer(x & y)),
                    SimpleBinOp::BitOr => Some(Value::Integer(x | y)),
                    SimpleBinOp::BitXor => Some(Value::Integer(x ^ y)),
                    SimpleBinOp::ShiftLeft => Some(Value::Integer(shift_left(x, y))),
                    SimpleBinOp::ShiftRight => Some(Value::Integer(shift_right(x, y))),
                }
            },
            _ => None,
        }
    }
}

/// The table entry of a comparison: it builds the comparison's test
/// instruction and folds it on literals.
#[derive(Debug, Clone, Copy, PartialEq, Eq, Structural)]
pub struct ComparisonBinOpEntry {
    pub op: ComparisonBinOp,
}

/// `a < b` on two literals, where it is defined.
fn fold_less_than(a: &Value, b: &Value) -> (r: Option<bool>)
    ensures
        r == less_than(*a, *b),
{
    match (a, b) {
        (Value::Integer(x), Value::Integer(y)) => Some(*x < *y),
        (Value::String(x), Value::String(y)) => Some(bytes_lt(x, y)),
        _ => None,
    }
}

/// `a <= b` on two literals, where it is defined.
fn fold_less_equal(a: &Value, b: &Value) -> (r: Option<bool>)
    ensures
        r == less_equal(*a, *b),
{
    match (a, b) {
        (Value::Integer(x), Value::Integer(y)) => Some(*x <= *y),
        (Value::String(x), Value::String(y)) => Some(!bytes_lt(y, x)),
        _ => None,
    }
}

/// A boolean outcome as a literal value.
fn to_boolean_value(outcome: Option<bool>) -> (r: Option<Value>)
    ensures
        r == boolean_value(outcome),
{
    match outcome {
        Some(b) => Some(Value::Boolean(b)),
        None => None,
    }
}

impl ComparisonBinOpEntry {
    /// The test instruction for `left op right`, chosen by where each operand
    /// lives. It skips the next instruction when the comparison is false;
    /// the code generator flips `skip_if` for the negated branch.
    pub fn make_opcode(&self, left: RegisterOrConstant, right: RegisterOrConstant) -> (r: OpCode)
        ensures
            r.as_comparison() == Some((self.op, false, left, right)),
    {
        match (self.op, left, right) {
            (ComparisonBinOp::NotEqual, Register(left), Register(right)) => {
                OpCode::NotEqRR { skip_if: false, left, right }
            },
            (ComparisonBinOp::NotEqual, Register(left), Constant(right)) => {
                OpCode::NotEqRC { skip_if: false, left, right }
            },
            (ComparisonBinOp::NotEqual, Constant(left), Register(right)) => {
                OpCode::NotEqCR { skip_if: false, left, right }
            },
            (ComparisonBinOp::NotEqual, Constant(left), Constant(right)) => {
                OpCode::NotEqCC { skip_if: false, left, right }
            },
            (ComparisonBinOp::Equal, Register(left), Register(right)) => {
                OpCode::EqRR { skip_if: false, left, right }
            },
            (ComparisonBinOp::Equal, Register(left), Constant(right)) => {
                OpCode::EqRC { skip_if: false, left, right }
            },
            (ComparisonBinOp::Equal, Constant(left), Register(right)) => {
                OpCode::EqCR { skip_if: false, left, right }
            },
            (ComparisonBinOp::Equal, Constant(left), Constant(right)) => {
                OpCode::EqCC { skip_if: false, left, right }
            },
            (ComparisonBinOp::LessThan, Register(left), Register(right)) => {
                OpCode::LessThanRR { skip_if: false, left, right }
            },
            (ComparisonBinOp::LessThan, Register(left), Constant(right)) => {
                OpCode::LessThanRC { skip_if: false, left, right }
            },
            (ComparisonBinOp::LessThan, Constant(left), Register(right)) => {
                OpCode::LessThanCR { skip_if: false, left, right }
            },
            (ComparisonBinOp::LessThan, Constant(left), Constant(right)) => {
                OpCode::LessThanCC { skip_if: false, left, right }
            },
            (ComparisonBinOp::LessEqual, Register(left), Register(right)) => {
                OpCode::LessEqualRR { skip_if: false, left, right }
            },
            (ComparisonBinOp::LessEqual, Register(left), Constant(right)) => {
                OpCode::LessEqualRC { skip_if: false, left, right }
            },
            (ComparisonBinOp::LessEqual, Constant(left), Register(right)) => {
                OpCode::LessEqualCR { skip_if: false, left, right }
            },
            (ComparisonBinOp::LessEqual, Constant(left), Constant(right)) => {
                OpCode::LessEqualCC { skip_if: false, left, right }
            },
            (ComparisonBinOp::GreaterThan, Register(left), Register(right)) => {
                OpCode::GreaterThanRR { skip_if: false, left, right }
            },
            (ComparisonBinOp::GreaterThan, Register(left), Constant(right)) => {
                OpCode::GreaterThanRC { skip_if: false, left, right }
            },
            (ComparisonBinOp::GreaterThan, Constant(left), Register(right)) => {
                OpCode::GreaterThanCR { skip_if: false, left, right }
            },
            (ComparisonBinOp::GreaterThan, Constant(left), Constant(right)) => {
                OpCode::GreaterThanCC { skip_if: false, left, right }
            },
            (ComparisonBinOp::GreaterEqual, Register(left), Register(right)) => {
                OpCode::GreaterEqualRR { skip_if: false, left, right }
            },
            (ComparisonBinOp::GreaterEqual, Register(left), Constant(right)) => {
                OpCode::GreaterEqualRC { skip_if: false, left, right }
            },
            (ComparisonBinOp::GreaterEqual, Constant(left), Register(right)) => {
                OpCode::GreaterEqualCR { skip_if: false, left, right }
            },
            (ComparisonBinOp::GreaterEqual, Constant(left), Constant(right)) => {
                OpCode::GreaterEqualCC { skip_if: false, left, right }
            },
        }
    }

    /// The comparison's outcome on two literals, or `None` where only the
    /// runtime can decide it (an order between values of other kinds).
    pub fn constant_fold(&self, left: &Value, right: &Value) -> (r: Option<Value>)
        ensures
            r == comparison_fold(self.op, *left, *right),
    {
        match self.op {
            ComparisonBinOp::Equal => Some(Value::Boolean(left.raw_eq(right))),
            ComparisonBinOp::NotEqual => Some(Value::Boolean(!left.raw_eq(right))),
            ComparisonBinOp::LessThan => to_boolean_value(fold_less_than(left, right)),
            ComparisonBinOp::LessEqual => to_boolean_value(fold_less_equal(left, right)),
            ComparisonBinOp::GreaterThan => to_boolean_value(fold_less_than(right, left)),
            ComparisonBinOp::GreaterEqual => to_boolean_value(fold_less_equal(right, left)),
        }
    }
}

/// The table entry of a unary operator: it builds the operator's
/// instruction and folds it on a literal.
#[derive(Debug, Clone, Copy, PartialEq, Eq, Structural)]
pub struct UnOpEntry {
    pub op: UnaryOperator,
}

impl UnOpEntry {
    /// The instruction that applies the operator to register `source` and
    /// writes the result to `dest`.
    pub fn make_opcode(&self, dest: RegisterIndex, source: RegisterIndex) -> (r: OpCode)
        ensures
            r.as_unary() == Some((self.op, dest, source)),
    {
        match self.op {
            UnaryOperator::Not => OpCode::Not { dest, source },
            UnaryOperator::Minus => OpCode::Minus { dest, source },
            UnaryOperator::BitNot => OpCode::BitNot { dest, source },
            UnaryOperator::Len => OpCode::Length { dest, source },
        }
    }

    /// The operator's result on a literal, or `None` where it can only be
    /// computed at run time.
    pub fn constant_fold(&self, v: &Value) -> (r: Option<Value>)
        ensures
            r == unary_fold(self.op, *v),
    {
        match self.op {
            UnaryOperator::Not => Some(Value::Boolean(!v.as_bool())),
            UnaryOperator::Minus => match v {
                Value::Integer(x) => Some(Value::Integer((0i64).wrapping_sub(*x))),
                Value::Number(x) => Some(Value::Number(*x ^ 0x8000_0000_0000_0000u64)),
                _ => None,
            },
            UnaryOperator::BitNot => match v {
                Value::Integer(x) => Some(Value::Integer(!*x)),
                _ => None,
            },
            UnaryOperator::Len => match v {
                Value::String(s) => if (s.len() as u64) <= 0x7fff_ffff_ffff_ffff {
                    Some(Value::Integer(s.len() as i64))
                } else {
                    None
                },
                _ => None,
            },
        }
    }
}

/// The entry of an arithmetic or bitwise operator.
pub fn lookup_simple(op: SimpleBinOp) -> (r: SimpleBinOpEntry)
    ensures
        r.op == op,
{
    SimpleBinOpEntry { op }
}

/// The entry of a comparison.
pub fn lookup_comparison(op: ComparisonBinOp) -> (r: ComparisonBinOpEntry)
    ensures
        r.op == op,
{
    ComparisonBinOpEntry { op }
}

/// The entry of a unary operator.
pub fn lookup_unary(op: UnaryOperator) -> (r: UnOpEntry)
    ensures
        r.op == op,
{
    UnOpEntry { op }
}

/// The family tells the operator back: two binary operators fall in the same
/// family, with the same member, exactly when they are the same operator.
pub proof fn categorization_is_one_to_one(a: BinaryOperator, b: BinaryOperator)
    ensures
        category_of(a) == category_of(b) <==> a == b,
{
}

/// An instruction is determined by what it does: two arithmetic, comparison
/// or unary instructions with the same operator, the same destination or
/// polarity and the same operand places are the same instruction.
pub proof fn opcode_is_determined_by_parts(a: OpCode, b: OpCode)
    ensures
        a.as_simple() is Some && a.as_simple() == b.as_simple() ==> a == b,
        a.as_comparison() is Some && a.as_comparison() == b.as_comparison() ==> a == b,
        a.as_unary() is Some && a.as_unary() == b.as_unary() ==> a == b,
{
}

/// The value held at an operand place, given the frame's registers and the
/// function's constant pool.
pub open spec fn operand_value(
    place: RegisterOrConstant,
    registers: Seq<Value>,
    constants: Seq<Value>,
) -> Value {
    match place {
        RegisterOrConstant::Register(r) => registers[r.0 as int],
        RegisterOrConstant::Constant(c) => constants[c.0 as int],
    }
}

/// What an arithmetic instruction yields when its operator's rule is applied
/// to the values at its operand places.
pub open spec fn simple_instruction_result(
    instr: OpCode,
    registers: Seq<Value>,
    constants: Seq<Value>,
) -> Option<Value> {
    match instr.as_simple() {
        Some((op, _, left, right)) => simple_fold(
            op,
            operand_value(left, registers, constants),
            operand_value(right, registers, constants),
        ),
        None => None,
    }
}

/// What a comparison instruction decides when its operator's rule is
/// applied to the values at its operand places.
pub open spec fn comparison_instruction_result(
    instr: OpCode,
    registers: Seq<Value>,
    constants: Seq<Value>,
) -> Option<Value> {
    match instr.as_comparison() {
        Some((op, _, left, right)) => comparison_fold(
            op,
            operand_value(left, registers, constants),
            operand_value(right, registers, constants),
        ),
        None => None,
    }
}

/// A fold agrees with the instruction it replaces: where `left` and `right`
/// hold `v1` and `v2`, the instruction built for an operator on those places
/// reads them in that order, and the operator's rule on them gives what the
/// fold of `v1` and `v2` gave.
pub proof fn fold_agrees_with_instruction(
    simple: OpCode,
    comparison: OpCode,
    dest: RegisterIndex,
    left: RegisterOrConstant,
    right: RegisterOrConstant,
    registers: Seq<Value>,
    constants: Seq<Value>,
    v1: Value,
    v2: Value,
)
    requires
        operand_value(left, registers, constants) == v1,
        operand_value(right, registers, constants) == v2,
    ensures
        forall|op: SimpleBinOp|
            #[trigger] simple.as_simple() == Some((op, dest, left, right))
                ==> simple_instruction_result(simple, registers, constants)
                == simple_fold(op, v1, v2),
        forall|op: ComparisonBinOp|
            #[trigger] comparison.as_comparison() == Some((op, false, left, right))
                ==> comparison_instruction_result(comparison, registers, constants)
                == comparison_fold(op, v1, v2),
{
}

/// A number: an integer or a float.
pub open spec fn is_number(v: Value) -> bool {
    v is Integer || v is Number
}

/// Both literals are numbers, or both are strings: the kinds that the
/// runtime orders.
pub open spec fn orderable(a: Value, b: Value) -> bool {
    (is_number(a) && is_number(b)) || (a is String && b is String)
}

/// Both literals are integers or both are strings: the pairs whose order is
/// folded.
pub open spec fn both_ordered(a: Value, b: Value) -> bool {
    (a is Integer && b is Integer) || (a is String && b is String)
}

/// Equality always folds. An order never folds unless both literals are
/// numbers or both are strings, and it folds exactly when both are integers
/// or both are strings.
pub proof fn comparison_folding_totality(v1: Value, v2: Value)
    ensures
        comparison_fold(ComparisonBinOp::Equal, v1, v2) is Some,
        comparison_fold(ComparisonBinOp::NotEqual, v1, v2) is Some,
        !orderable(v1, v2) ==> comparison_fold(ComparisonBinOp::LessThan, v1, v2) is None,
        comparison_fold(ComparisonBinOp::LessThan, v1, v2) is Some <==> both_ordered(v1, v2),
        comparison_fold(ComparisonBinOp::LessEqual, v1, v2) is Some <==> both_ordered(v1, v2),
        comparison_fold(ComparisonBinOp::GreaterThan, v1, v2) is Some <==> both_ordered(v1, v2),
        comparison_fold(ComparisonBinOp::GreaterEqual, v1, v2) is Some <==> both_ordered(v1, v2),
{
}

/// `not` folds to `true` exactly on `nil` and `false`, and to `false` on
/// every other literal, integer zero and the empty string included.
pub proof fn not_folding(v: Value)
    ensures
        unary_fold(UnaryOperator::Not, v) == Some(Value::Boolean(true)) <==> (v is Nil || v
            == Value::Boolean(false)),
        unary_fold(UnaryOperator::Not, v) == Some(Value::Boolean(false)) <==> !(v is Nil || v
            == Value::Boolean(false)),
{
}

} // verus!
