//! Instruction selection and constant folding for the operators of a
//! dynamically typed scripting language: which family an operator belongs
//! to, which instruction it compiles to for each placement of its operands,
//! and what it evaluates to when its operands are literals.
pub mod arith;
pub mod float;
pub mod opcode;
pub mod operators;
pub mod value;

pub use opcode::{ConstantIndex8, OpCode, RegisterIndex};
pub use operators::{
    categorize_binop, lookup_comparison, lookup_simple, lookup_unary, BinOpCategory,
    BinaryOperator, ComparisonBinOp, ComparisonBinOpEntry, RegisterOrConstant, ShortCircuitBinOp,
    SimpleBinOp, SimpleBinOpEntry, UnOpEntry, UnaryOperator,
};
pub use value::Value;
