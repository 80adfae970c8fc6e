//! The instruction set as far as operators are concerned: one instruction
//! for each operator and each placement of its operands, in registers or in
//! the constant pool.
use vstd::prelude::*;

use crate::operators::RegisterOrConstant::{Constant, Register};
use crate::operators::{ComparisonBinOp, RegisterOrConstant, SimpleBinOp, UnaryOperator};

verus! {

/// The index of a register in the current frame.
#[derive(Debug, Clone, Copy, PartialEq, Eq, Structural)]
pub struct RegisterIndex(pub u8);

/// The index of a slot in the function's constant pool.
#[derive(Debug, Clone, Copy, PartialEq, Eq, Structural)]
pub struct ConstantIndex8(pub u8);

/// An instruction. The suffix of a binary instruction names where its left
/// and right operands live: `R` a register, `C` a constant. A comparison
/// skips the next instruction when its outcome equals `skip_if`: with
/// `skip_if == false`, when the comparison is false.
#[allow(inconsistent_fields)]
#[derive(Debug, Clone, Copy, PartialEq, Eq, Structural)]
pub enum OpCode {
    AddRR { dest: RegisterIndex, left: RegisterIndex, right: RegisterIndex },
    AddRC { dest: RegisterIndex, left: RegisterIndex, right: ConstantIndex8 },
    AddCR { dest: RegisterIndex, left: ConstantIndex8, right: RegisterIndex },
    AddCC { dest: RegisterIndex, left: ConstantIndex8, right: ConstantIndex8 },
    SubRR { dest: RegisterIndex, left: RegisterIndex, right: RegisterIndex },
    SubRC { dest: RegisterIndex, left: RegisterIndex, right: ConstantIndex8 },
    SubCR { dest: RegisterIndex, left: ConstantIndex8, right: RegisterIndex },
    SubCC { dest: RegisterIndex, left: ConstantIndex8, right: ConstantIndex8 },
    MulRR { dest: RegisterIndex, left: RegisterIndex, right: RegisterIndex },
    MulRC { dest: RegisterIndex, left: RegisterIndex, right: ConstantIndex8 },
    MulCR { dest: RegisterIndex, left: ConstantIndex8, right: RegisterIndex },
    MulCC { dest: RegisterIndex, left: ConstantIndex8, right: ConstantIndex8 },
    ModRR { dest: RegisterIndex, left: RegisterIndex, right: RegisterIndex },
    ModRC { dest: RegisterIndex, left: RegisterIndex, right: ConstantIndex8 },
    ModCR { dest: RegisterIndex, left: ConstantIndex8, right: RegisterIndex },
    ModCC { dest: RegisterIndex, left: ConstantIndex8, right: ConstantIndex8 },
    PowRR { dest: RegisterIndex, left: RegisterIndex, right: RegisterIndex },
    PowRC { dest: RegisterIndex, left: RegisterIndex, right: ConstantIndex8 },
    PowCR { dest: RegisterIndex, left: ConstantIndex8, right: RegisterIndex },
    PowCC { dest: RegisterIndex, left: ConstantIndex8, right: ConstantIndex8 },
    DivRR { dest: RegisterIndex, left: RegisterIndex, right: RegisterIndex },
    DivRC { dest: RegisterIndex, left: RegisterIndex, right: ConstantIndex8 },
    DivCR { dest: RegisterIndex, left: ConstantIndex8, right: RegisterIndex },
    DivCC { dest: RegisterIndex, left: ConstantIndex8, right: ConstantIndex8 },
    IDivRR { dest: RegisterIndex, left: RegisterIndex, right: RegisterIndex },
    IDivRC { dest: RegisterIndex, left: RegisterIndex, right: ConstantIndex8 },
    IDivCR { dest: RegisterIndex, left: ConstantIndex8, right: RegisterIndex },
    IDivCC { dest: RegisterIndex, left: ConstantIndex8, right: ConstantIndex8 },
    BitAndRR { dest: RegisterIndex, left: RegisterIndex, right: RegisterIndex },
    BitAndRC { dest: RegisterIndex, left: RegisterIndex, right: ConstantIndex8 },
    BitAndCR { dest: RegisterIndex, left: ConstantIndex8, right: RegisterIndex },
    BitAndCC { dest: RegisterIndex, left: ConstantIndex8, right: ConstantIndex8 },
    BitOrRR { dest: RegisterIndex, left: RegisterIndex, right: RegisterIndex },
    BitOrRC { dest: RegisterIndex, left: RegisterIndex, right: ConstantIndex8 },
    BitOrCR { dest: RegisterIndex, left: ConstantIndex8, right: RegisterIndex },
    BitOrCC { dest: RegisterIndex, left: ConstantIndex8, right: ConstantIndex8 },
    BitXorRR { dest: RegisterIndex, left: RegisterIndex, right: RegisterIndex },
    BitXorRC { dest: RegisterIndex, left: RegisterIndex, right: ConstantIndex8 },
    BitXorCR { dest: RegisterIndex, left: ConstantIndex8, right: RegisterIndex },
    BitXorCC { dest: RegisterIndex, left: ConstantIndex8, right: ConstantIndex8 },
    ShiftLeftRR { dest: RegisterIndex, left: RegisterIndex, right: RegisterIndex },
    ShiftLeftRC { dest: RegisterIndex, left: RegisterIndex, right: ConstantIndex8 },
    ShiftLeftCR { dest: RegisterIndex, left: ConstantIndex8, right: RegisterIndex },
    ShiftLeftCC { dest: RegisterIndex, left: ConstantIndex8, right: ConstantIndex8 },
    ShiftRightRR { dest: RegisterIndex, left: RegisterIndex, right: RegisterIndex },
    ShiftRightRC { dest: RegisterIndex, left: RegisterIndex, right: ConstantIndex8 },
    ShiftRightCR { dest: RegisterIndex, left: ConstantIndex8, right: RegisterIndex },
    ShiftRightCC { dest: RegisterIndex, left: ConstantIndex8, right: ConstantIndex8 },
    NotEqRR { skip_if: bool, left: RegisterIndex, right: RegisterIndex },
    NotEqRC { skip_if: bool, left: RegisterIndex, right: ConstantIndex8 },
    NotEqCR { skip_if: bool, left: ConstantIndex8, right: RegisterIndex },
    NotEqCC { skip_if: bool, left: ConstantIndex8, right: ConstantIndex8 },
    EqRR { skip_if: bool, left: RegisterIndex, right: RegisterIndex },
    EqRC { skip_if: bool, left: RegisterIndex, right: ConstantIndex8 },
    EqCR { skip_if: bool, left: ConstantIndex8, right: RegisterIndex },
    EqCC { skip_if: bool, left: ConstantIndex8, right: ConstantIndex8 },
    LessThanRR { skip_if: bool, left: RegisterIndex, right: RegisterIndex },
    LessThanRC { skip_if: bool, left: RegisterIndex, right: ConstantIndex8 },
    LessThanCR { skip_if: bool, left: ConstantIndex8, right: RegisterIndex },
    LessThanCC { skip_if: bool, left: ConstantIndex8, right: ConstantIndex8 },
    LessEqualRR { skip_if: bool, left: RegisterIndex, right: RegisterIndex },
    LessEqualRC { skip_if: bool, left: RegisterIndex, right: ConstantIndex8 },
    LessEqualCR { skip_if: bool, left: ConstantIndex8, right: RegisterIndex },
    LessEqualCC { skip_if: bool, left: ConstantIndex8, right: ConstantIndex8 },
    GreaterThanRR { skip_if: bool, left: RegisterIndex, right: RegisterIndex },
    GreaterThanRC { skip_if: bool, left: RegisterIndex, right: ConstantIndex8 },
    GreaterThanCR { skip_if: bool, left: ConstantIndex8, right: RegisterIndex },
    GreaterThanCC { skip_if: bool, left: ConstantIndex8, right: ConstantIndex8 },
    GreaterEqualRR { skip_if: bool, left: RegisterIndex, right: RegisterIndex },
    GreaterEqualRC { skip_if: bool, left: RegisterIndex, right: ConstantIndex8 },
    GreaterEqualCR { skip_if: bool, left: ConstantIndex8, right: RegisterIndex },
    GreaterEqualCC { skip_if: bool, left: ConstantIndex8, right: ConstantIndex8 },
    Not { dest: RegisterIndex, source: RegisterIndex },
    Minus { dest: RegisterIndex, source: RegisterIndex },
    BitNot { dest: RegisterIndex, source: RegisterIndex },
    Length { dest: RegisterIndex, source: RegisterIndex },
}

impl OpCode {
    /// What an arithmetic or bitwise instruction does: its operator, its
    /// destination and where its two operands are read from.
    pub open spec fn as_simple(self) -> Option<
        (SimpleBinOp, RegisterIndex, RegisterOrConstant, RegisterOrConstant),
    > {
        match self {
            OpCode::AddRR { dest, left, right } => {
                Some((SimpleBinOp::Add, dest, Register(left), Register(right)))
            },
            OpCode::AddRC { dest, left, right } => {
                Some((SimpleBinOp::Add, dest, Register(left), Constant(right)))
            },
            OpCode::AddCR { dest, left, right } => {
                Some((SimpleBinOp::Add, dest, Constant(left), Register(right)))
            },
            OpCode::AddCC { dest, left, right } => {
                Some((SimpleBinOp::Add, dest, Constant(left), Constant(right)))
            },
            OpCode::SubRR { dest, left, right } => {
                Some((SimpleBinOp::Sub, dest, Register(left), Register(right)))
            },
            OpCode::SubRC { dest, left, right } => {
                Some((SimpleBinOp::Sub, dest, Register(left), Constant(right)))
            },
            OpCode::SubCR { dest, left, right } => {
                Some((SimpleBinOp::Sub, dest, Constant(left), Register(right)))
            },
            OpCode::SubCC { dest, left, right } => {
                Some((SimpleBinOp::Sub, dest, Constant(left), Constant(right)))
            },
            OpCode::MulRR { dest, left, right } => {
                Some((SimpleBinOp::Mul, dest, Register(left), Register(right)))
            },
            OpCode::MulRC { dest, left, right } => {
                Some((SimpleBinOp::Mul, dest, Register(left), Constant(right)))
            },
            OpCode::MulCR { dest, left, right } => {
                Some((SimpleBinOp::Mul, dest, Constant(left), Register(right)))
            },
            OpCode::MulCC { dest, left, right } => {
                Some((SimpleBinOp::Mul, dest, Constant(left), Constant(right)))
            },
            OpCode::ModRR { dest, left, right } => {
                Some((SimpleBinOp::Mod, dest, Register(left), Register(right)))
            },
            OpCode::ModRC { dest, left, right } => {
                Some((SimpleBinOp::Mod, dest, Register(left), Constant(right)))
            },
            OpCode::ModCR { dest, left, right } => {
                Some((SimpleBinOp::Mod, dest, Constant(left), Register(right)))
            },
            OpCode::ModCC { dest, left, right } => {
                Some((SimpleBinOp::Mod, dest, Constant(left), Constant(right)))
            },
            OpCode::PowRR { dest, left, right } => {
                Some((SimpleBinOp::Pow, dest, Register(left), Register(right)))
            },
            OpCode::PowRC { dest, left, right } => {
                Some((SimpleBinOp::Pow, dest, Register(left), Constant(right)))
            },
            OpCode::PowCR { dest, left, right } => {
                Some((SimpleBinOp::Pow, dest, Constant(left), Register(right)))
            },
            OpCode::PowCC { dest, left, right } => {
                Some((SimpleBinOp::Pow, dest, Constant(left), Constant(right)))
            },
            OpCode::DivRR { dest, left, right } => {
                Some((SimpleBinOp::Div, dest, Register(left), Register(right)))
            },
            OpCode::DivRC { dest, left, right } => {
                Some((SimpleBinOp::Div, dest, Register(left), Constant(right)))
            },
            OpCode::DivCR { dest, left, right } => {
                Some((SimpleBinOp::Div, dest, Constant(left), Register(right)))
            },
            OpCode::DivCC { dest, left, right } => {
                Some((SimpleBinOp::Div, dest, Constant(left), Constant(right)))
            },
            OpCode::IDivRR { dest, left, right } => {
                Some((SimpleBinOp::IDiv, dest, Register(left), Register(right)))
            },
            OpCode::IDivRC { dest, left, right } => {
                Some((SimpleBinOp::IDiv, dest, Register(left), Constant(right)))
            },
            OpCode::IDivCR { dest, left, right } => {
                Some((SimpleBinOp::IDiv, dest, Constant(left), Register(right)))
            },
            OpCode::IDivCC { dest, left, right } => {
                Some((SimpleBinOp::IDiv, dest, Constant(left), Constant(right)))
            },
            OpCode::BitAndRR { dest, left, right } => {
                Some((SimpleBinOp::BitAnd, dest, Register(left), Register(right)))
            },
            OpCode::BitAndRC { dest, left, right } => {
                Some((SimpleBinOp::BitAnd, dest, Register(left), Constant(right)))
            },
            OpCode::BitAndCR { dest, left, right } => {
                Some((SimpleBinOp::BitAnd, dest, Constant(left), Register(right)))
            },
            OpCode::BitAndCC { dest, left, right } => {
                Some((SimpleBinOp::BitAnd, dest, Constant(left), Constant(right)))
            },
            OpCode::BitOrRR { dest, left, right } => {
                Some((SimpleBinOp::BitOr, dest, Register(left), Register(right)))
            },
            OpCode::BitOrRC { dest, left, right } => {
                Some((SimpleBinOp::BitOr, dest, Register(left), Constant(right)))
            },
            OpCode::BitOrCR { dest, left, right } => {
                Some((SimpleBinOp::BitOr, dest, Constant(left), Register(right)))
            },
            OpCode::BitOrCC { dest, left, right } => {
                Some((SimpleBinOp::BitOr, dest, Constant(left), Constant(right)))
            },
            OpCode::BitXorRR { dest, left, right } => {
                Some((SimpleBinOp::BitXor, dest, Register(left), Register(right)))
            },
            OpCode::BitXorRC { dest, left, right } => {
                Some((SimpleBinOp::BitXor, dest, Register(left), Constant(right)))
            },
            OpCode::BitXorCR { dest, left, right } => {
                Some((SimpleBinOp::BitXor, dest, Constant(left), Register(right)))
            },
            OpCode::BitXorCC { dest, left, right } => {
                Some((SimpleBinOp::BitXor, dest, Constant(left), Constant(right)))
            },
            OpCode::ShiftLeftRR { dest, left, right } => {
                Some((SimpleBinOp::ShiftLeft, dest, Register(left), Register(right)))
            },
            OpCode::ShiftLeftRC { dest, left, right } => {
                Some((SimpleBinOp::ShiftLeft, dest, Register(left), Constant(right)))
            },
            OpCode::ShiftLeftCR { dest, left, right } => {
                Some((SimpleBinOp::ShiftLeft, dest, Constant(left), Register(right)))
            },
            OpCode::ShiftLeftCC { dest, left, right } => {
                Some((SimpleBinOp::ShiftLeft, dest, Constant(left), Constant(right)))
            },
            OpCode::ShiftRightRR { dest, left, right } => {
                Some((SimpleBinOp::ShiftRight, dest, Register(left), Register(right)))
            },
            OpCode::ShiftRightRC { dest, left, right } => {
                Some((SimpleBinOp::ShiftRight, dest, Register(left), Constant(right)))
            },
            OpCode::ShiftRightCR { dest, left, right } => {
                Some((SimpleBinOp::ShiftRight, dest, Constant(left), Register(right)))
            },
            OpCode::ShiftRightCC { dest, left, right } => {
                Some((SimpleBinOp::ShiftRight, dest, Constant(left), Constant(right)))
            },
            _ => None,
        }
    }

    /// What a comparison instruction does: its operator, its polarity and
    /// where its two operands are read from.
    pub open spec fn as_comparison(self) -> Option<
        (ComparisonBinOp, bool, RegisterOrConstant, RegisterOrConstant),
    > {
        match self {
            OpCode::NotEqRR { skip_if, left, right } => {
                Some((ComparisonBinOp::NotEqual, skip_if, Register(left), Register(right)))
            },
            OpCode::NotEqRC { skip_if, left, right } => {
                Some((ComparisonBinOp::NotEqual, skip_if, Register(left), Constant(right)))
            },
            OpCode::NotEqCR { skip_if, left, right } => {
                Some((ComparisonBinOp::NotEqual, skip_if, Constant(left), Register(right)))
            },
            OpCode::NotEqCC { skip_if, left, right } => {
                Some((ComparisonBinOp::NotEqual, skip_if, Constant(left), Constant(right)))
            },
            OpCode::EqRR { skip_if, left, right } => {
                Some((ComparisonBinOp::Equal, skip_if, Register(left), Register(right)))
            },
            OpCode::EqRC { skip_if, left, right } => {
                Some((ComparisonBinOp::Equal, skip_if, Register(left), Constant(right)))
            },
            OpCode::EqCR { skip_if, left, right } => {
                Some((ComparisonBinOp::Equal, skip_if, Constant(left), Register(right)))
            },
            OpCode::EqCC { skip_if, left, right } => {
                Some((ComparisonBinOp::Equal, skip_if, Constant(left), Constant(right)))
            },
            OpCode::LessThanRR { skip_if, left, right } => {
                Some((ComparisonBinOp::LessThan, skip_if, Register(left), Register(right)))
            },
            OpCode::LessThanRC { skip_if, left, right } => {
                Some((ComparisonBinOp::LessThan, skip_if, Register(left), Constant(right)))
            },
            OpCode::LessThanCR { skip_if, left, right } => {
                Some((ComparisonBinOp::LessThan, skip_if, Constant(left), Register(right)))
            },
            OpCode::LessThanCC { skip_if, left, right } => {
                Some((ComparisonBinOp::LessThan, skip_if, Constant(left), Constant(right)))
            },
            OpCode::LessEqualRR { skip_if, left, right } => {
                Some((ComparisonBinOp::LessEqual, skip_if, Register(left), Register(right)))
            },
            OpCode::LessEqualRC { skip_if, left, right } => {
                Some((ComparisonBinOp::LessEqual, skip_if, Register(left), Constant(right)))
            },
            OpCode::LessEqualCR { skip_if, left, right } => {
                Some((ComparisonBinOp::LessEqual, skip_if, Constant(left), Register(right)))
            },
            OpCode::LessEqualCC { skip_if, left, right } => {
                Some((ComparisonBinOp::LessEqual, skip_if, Constant(left), Constant(right)))
            },
            OpCode::GreaterThanRR { skip_if, left, right } => {
                Some((ComparisonBinOp::GreaterThan, skip_if, Register(left), Register(right)))
            },
            OpCode::GreaterThanRC { skip_if, left, right } => {
                Some((ComparisonBinOp::GreaterThan, skip_if, Register(left), Constant(right)))
            },
            OpCode::GreaterThanCR { skip_if, left, right } => {
                Some((ComparisonBinOp::GreaterThan, skip_if, Constant(left), Register(right)))
            },
            OpCode::GreaterThanCC { skip_if, left, right } => {
                Some((ComparisonBinOp::GreaterThan, skip_if, Constant(left), Constant(right)))
            },
            OpCode::GreaterEqualRR { skip_if, left, right } => {
                Some((ComparisonBinOp::GreaterEqual, skip_if, Register(left), Register(right)))
            },
            OpCode::GreaterEqualRC { skip_if, left, right } => {
                Some((ComparisonBinOp::GreaterEqual, skip_if, Register(left), Constant(right)))
            },
            OpCode::GreaterEqualCR { skip_if, left, right } => {
                Some((ComparisonBinOp::GreaterEqual, skip_if, Constant(left), Register(right)))
            },
            OpCode::GreaterEqualCC { skip_if, left, right } => {
                Some((ComparisonBinOp::GreaterEqual, skip_if, Constant(left), Constant(right)))
            },
            _ => None,
        }
    }

    /// What a unary instruction does: its operator, its destination and its
    /// source register.
    pub open spec fn as_unary(self) -> Option<(UnaryOperator, RegisterIndex, RegisterIndex)> {
        match self {
            OpCode::Not { dest, source } => Some((UnaryOperator::Not, dest, source)),
            OpCode::Minus { dest, source } => Some((UnaryOperator::Minus, dest, source)),
            OpCode::BitNot { dest, source } => Some((UnaryOperator::BitNot, dest, source)),
            OpCode::Length { dest, source } => Some((UnaryOperator::Len, dest, source)),
            _ => None,
        }
    }
}

} // verus!
