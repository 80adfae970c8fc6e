//! Literal values of the language, as the compiler sees them in source, and
//! the runtime rules on them that constant folding relies on.
use vstd::prelude::*;

use crate::float::{exact_integer, float_equal, float_is_integer, floats_equal};

verus! {

/// A literal value: what a constant in the program text evaluates to.
/// A float is held as the 64 bits of its IEEE-754 binary64 encoding (what
/// `f64::to_bits` gives); strings are byte strings.
#[derive(Debug, Clone)]
pub enum Value {
    Nil,
    Boolean(bool),
    Integer(i64),
    Number(u64),
    String(Vec<u8>),
}

/// Truthiness: `nil` and `false` are false, every other value is true.
pub open spec fn truthy(v: Value) -> bool {
    match v {
        Value::Nil => false,
        Value::Boolean(b) => b,
        _ => true,
    }
}

/// Raw equality of the runtime: an integer and a float are equal when the
/// float is exactly that integer, two floats by IEEE-754, strings when they
/// hold the same bytes; values of other different kinds are never equal.
pub open spec fn raw_equal(a: Value, b: Value) -> bool {
    match (a, b) {
        (Value::Nil, Value::Nil) => true,
        (Value::Boolean(x), Value::Boolean(y)) => x == y,
        (Value::Integer(x), Value::Integer(y)) => x == y,
        (Value::Number(x), Value::Number(y)) => float_equal(x, y),
        (Value::Integer(x), Value::Number(y)) => exact_integer(y) == Some(x as int),
        (Value::Number(x), Value::Integer(y)) => exact_integer(x) == Some(y as int),
        (Value::String(x), Value::String(y)) => x@ == y@,
        _ => false,
    }
}

/// Lexicographic order on byte strings; a proper prefix comes first.
pub open spec fn bytes_less(a: Seq<u8>, b: Seq<u8>) -> bool
    decreases a.len(),
{
    if a.len() == 0 {
        b.len() > 0
    } else if b.len() == 0 {
        false
    } else if a[0] != b[0] {
        a[0] < b[0]
    } else {
        bytes_less(a.drop_first(), b.drop_first())
    }
}

/// `a < b` on two integers or on two strings. Orders that involve a float
/// are left to the runtime, and other kinds have none.
pub open spec fn less_than(a: Value, b: Value) -> Option<bool> {
    match (a, b) {
        (Value::Integer(x), Value::Integer(y)) => Some(x < y),
        (Value::String(x), Value::String(y)) => Some(bytes_less(x@, y@)),
        _ => None,
    }
}

/// `a <= b` on two integers or on two strings.
pub open spec fn less_equal(a: Value, b: Value) -> Option<bool> {
    match (a, b) {
        (Value::Integer(x), Value::Integer(y)) => Some(x <= y),
        (Value::String(x), Value::String(y)) => Some(!bytes_less(y@, x@)),
        _ => None,
    }
}

impl Value {
    /// The value's truthiness.
    pub fn as_bool(&self) -> (r: bool)
        ensures
            r == truthy(*self),
    {
        match self {
            Value::Nil => false,
            Value::Boolean(b) => *b,
            _ => true,
        }
    }

    /// Raw equality, without coercion between kinds.
    pub fn raw_eq(&self, other: &Value) -> (r: bool)
        ensures
            r == raw_equal(*self, *other),
    {
        match (self, other) {
            (Value::Nil, Value::Nil) => true,
            (Value::Boolean(x), Value::Boolean(y)) => *x == *y,
            (Value::Integer(x), Value::Integer(y)) => *x == *y,
            (Value::Number(x), Value::Number(y)) => floats_equal(*x, *y),
            (Value::Integer(x), Value::Number(y)) => float_is_integer(*y, *x),
            (Value::Number(x), Value::Integer(y)) => float_is_integer(*x, *y),
            (Value::String(x), Value::String(y)) => bytes_equal(x, y),
            _ => false,
        }
    }
}

/// Whether two byte strings hold the same bytes.
pub fn bytes_equal(a: &Vec<u8>, b: &Vec<u8>) -> (r: bool)
    ensures
        r == (a@ == b@),
{
    if a.len() != b.len() {
        return false;
    }
    let mut i: usize = 0;
    while i < a.len()
        invariant
            i <= a.len() == b.len(),
            forall|j: int| 0 <= j < i ==> a@[j] == b@[j],
        decreases a.len() - i,
    {
        if a[i] != b[i] {
            return false;
        }
        i = i + 1;
    }
    assert(a@ =~= b@);
    true
}

proof fn lemma_bytes_less_skip(a: Seq<u8>, b: Seq<u8>, i: int)
    requires
        0 <= i < a.len(),
        i < b.len(),
        a[i] == b[i],
    ensures
        bytes_less(a.subrange(i, a.len() as int), b.subrange(i, b.len() as int)) == bytes_less(
            a.subrange(i + 1, a.len() as int),
            b.subrange(i + 1, b.len() as int),
        ),
{
    assert(a.subrange(i, a.len() as int).drop_first() =~= a.subrange(i + 1, a.len() as int));
    assert(b.subrange(i, b.len() as int).drop_first() =~= b.subrange(i + 1, b.len() as int));
}

/// Whether `a` comes strictly before `b` in lexicographic byte order.
pub fn bytes_lt(a: &Vec<u8>, b: &Vec<u8>) -> (r: bool)
    ensures
        r == bytes_less(a@, b@),
{
    let mut i: usize = 0;
    assert(a@.subrange(0, a.len() as int) =~= a@);
    assert(b@.subrange(0, b.len() as int) =~= b@);
    while i < a.len() && i < b.len()
        invariant
            i <= a.len(),
            i <= b.len(),
            bytes_less(a@, b@) == bytes_less(
                a@.subrange(i as int, a.len() as int),
                b@.subrange(i as int, b.len() as int),
            ),
        decreases a.len() - i,
    {
        if a[i] != b[i] {
            return a[i] < b[i];
        }
        proof {
            lemma_bytes_less_skip(a@, b@, i as int);
        }
        i = i + 1;
    }
    i < b.len()
}

} // verus!
