use vstd::prelude::*;

verus! {

/// The types of the values that interpreted programs compute with.
#[derive(Clone, Copy, Debug, PartialEq, Eq, Hash, Structural)]
pub enum ValueType {
    Unit,
    Integer,
    Float,
    Bool,
    String,
}

/// A run-time value.
///
/// A `Float` holds the IEEE-754 single-precision bit pattern of the number;
/// the arithmetic on those numbers is done by a `FloatOps` implementation.
#[derive(Clone, Debug)]
pub enum Value {
    Unit,
    Integer(i32),
    Float(u32),
    Bool(bool),
    String(String),
}

/// The order of two floating-point numbers; `Unordered` when one is a NaN.
#[derive(Clone, Copy, Debug, PartialEq, Eq, Structural)]
pub enum FloatOrder {
    Less,
    Equal,
    Greater,
    Unordered,
}

/// What a `FloatOps` implementation computes: each operation as a function
/// of its operands.
pub struct FloatModel {
    pub parse_literal: spec_fn(Seq<char>) -> u32,
    pub from_int: spec_fn(i32) -> u32,
    pub to_int: spec_fn(u32) -> i32,
    pub add: spec_fn(u32, u32) -> u32,
    pub sub: spec_fn(u32, u32) -> u32,
    pub mul: spec_fn(u32, u32) -> u32,
    pub div: spec_fn(u32, u32) -> u32,
    pub compare: spec_fn(u32, u32) -> FloatOrder,
    pub sin_degrees: spec_fn(u32) -> u32,
    pub cos_degrees: spec_fn(u32) -> u32,
}

/// Floating-point arithmetic on IEEE-754 single-precision bit patterns.
///
/// The library does not state what number each operation computes; it
/// states only that each one gives the same result on the same operands,
/// the function that `model` names, and which of them it applies to what.
pub trait FloatOps {
    /// The functions this implementation computes. Unless an implementation
    /// says more, nothing is known of them beyond their names.
    closed spec fn model(&self) -> FloatModel {
        vstd::pervasive::arbitrary::<spec_fn(&Self) -> FloatModel>()(self)
    }

    /// The number written by a decimal literal such as `1.5`, `3.` or `.25`.
    fn parse_literal(&self, text: &str) -> (r: u32)
        ensures
            r == (self.model().parse_literal)(text@),
    ;

    /// The float nearest to an integer.
    fn from_int(&self, x: i32) -> (r: u32)
        ensures
            r == (self.model().from_int)(x),
    ;

    /// A float truncated toward zero to an integer (saturating, NaN to 0).
    fn to_int(&self, x: u32) -> (r: i32)
        ensures
            r == (self.model().to_int)(x),
    ;

    /// The sum `a + b`.
    fn add(&self, a: u32, b: u32) -> (r: u32)
        ensures
            r == (self.model().add)(a, b),
    ;

    /// The difference `a - b`.
    fn sub(&self, a: u32, b: u32) -> (r: u32)
        ensures
            r == (self.model().sub)(a, b),
    ;

    /// The product `a * b`.
    fn mul(&self, a: u32, b: u32) -> (r: u32)
        ensures
            r == (self.model().mul)(a, b),
    ;

    /// The quotient `a / b`.
    fn div(&self, a: u32, b: u32) -> (r: u32)
        ensures
            r == (self.model().div)(a, b),
    ;

    /// How `a` compares with `b`.
    fn compare(&self, a: u32, b: u32) -> (r: FloatOrder)
        ensures
            r == (self.model().compare)(a, b),
    ;

    /// The sine of an angle given in degrees.
    fn sin_degrees(&self, x: u32) -> (r: u32)
        ensures
            r == (self.model().sin_degrees)(x),
    ;

    /// The cosine of an angle given in degrees.
    fn cos_degrees(&self, x: u32) -> (r: u32)
        ensures
            r == (self.model().cos_degrees)(x),
    ;
}

/// The mathematical content of a value: strings as sequences of characters.
pub enum SpecValue {
    Unit,
    Integer(i32),
    Float(u32),
    Bool(bool),
    String(Seq<char>),
}

impl View for Value {
    type V = SpecValue;

    open spec fn view(&self) -> SpecValue {
        match self {
            Value::Unit => SpecValue::Unit,
            Value::Integer(x) => SpecValue::Integer(*x),
            Value::Float(x) => SpecValue::Float(*x),
            Value::Bool(b) => SpecValue::Bool(*b),
            Value::String(s) => SpecValue::String(s@),
        }
    }
}

/// The type of a value.
pub open spec fn type_of(v: SpecValue) -> ValueType {
    match v {
        SpecValue::Unit => ValueType::Unit,
        SpecValue::Integer(_) => ValueType::Integer,
        SpecValue::Float(_) => ValueType::Float,
        SpecValue::Bool(_) => ValueType::Bool,
        SpecValue::String(_) => ValueType::String,
    }
}

/// Whether `v` can be cast to type `t`.
pub open spec fn can_cast(v: SpecValue, t: ValueType) -> bool {
    match t {
        ValueType::Unit => v is Unit,
        ValueType::Integer => v is Integer || v is Float || v is Bool,
        ValueType::Float => v is Integer || v is Float,
        ValueType::Bool => v is Bool,
        ValueType::String => v is String,
    }
}

/// Whether casting `v` to `t` converts between integers and floats.
pub open spec fn cast_converts_float(v: SpecValue, t: ValueType) -> bool {
    (v is Float && t == ValueType::Integer) || (v is Integer && t == ValueType::Float)
}

/// The result of a cast that needs no floating-point conversion.
pub open spec fn exact_cast(v: SpecValue, t: ValueType) -> SpecValue {
    match v {
        SpecValue::Bool(b) => if t == ValueType::Integer {
            SpecValue::Integer(if b { 1 } else { 0 })
        } else {
            v
        },
        _ => v,
    }
}

/// The result of casting `v` to `t`, the float operations being `fm`: a
/// float becomes the integer `to_int` truncates it to, an integer becomes
/// the float `from_int` gives; other casts are exact.
pub open spec fn cast_value(fm: FloatModel, v: SpecValue, t: ValueType) -> SpecValue {
    match v {
        SpecValue::Float(x) => if t == ValueType::Integer {
            SpecValue::Integer((fm.to_int)(x))
        } else {
            v
        },
        SpecValue::Integer(i) => if t == ValueType::Float {
            SpecValue::Float((fm.from_int)(i))
        } else {
            v
        },
        _ => exact_cast(v, t),
    }
}

/// The value a variable of type `t` holds before anything is assigned to it.
pub open spec fn default_value(t: ValueType) -> SpecValue {
    match t {
        ValueType::Unit => SpecValue::Unit,
        ValueType::Integer => SpecValue::Integer(0),
        ValueType::Float => SpecValue::Float(0),
        ValueType::Bool => SpecValue::Bool(false),
        ValueType::String => SpecValue::String(Seq::empty()),
    }
}

/// Casting a value to its own type is always allowed, converts nothing and
/// gives the value back.
pub proof fn cast_to_own_type_is_identity(v: SpecValue)
    ensures
        can_cast(v, type_of(v)),
        !cast_converts_float(v, type_of(v)),
        exact_cast(v, type_of(v)) == v,
{
}

impl Value {
    /// The value a variable of the given type starts with.
    pub fn default(value_type: &ValueType) -> (r: Value)
        ensures
            r@ == default_value(*value_type),
    {
        match value_type {
            ValueType::Unit => Value::Unit,
            ValueType::Integer => Value::Integer(0),
            ValueType::Float => Value::Float(0),
            ValueType::Bool => Value::Bool(false),
            ValueType::String => Value::String(String::new()),
        }
    }

    /// A copy of this value.
    pub fn duplicate(&self) -> (r: Value)
        ensures
            r@ == self@,
    {
        match self {
            Value::Unit => Value::Unit,
            Value::Integer(x) => Value::Integer(*x),
            Value::Float(x) => Value::Float(*x),
            Value::Bool(b) => Value::Bool(*b),
            Value::String(s) => Value::String(s.clone()),
        }
    }

    /// The type of this value.
    pub fn value_type(&self) -> (t: ValueType)
        ensures
            t == type_of(self@),
    {
        match self {
            Value::Unit => ValueType::Unit,
            Value::Integer(_) => ValueType::Integer,
            Value::Float(_) => ValueType::Float,
            Value::Bool(_) => ValueType::Bool,
            Value::String(_) => ValueType::String,
        }
    }

    /// Whether this value can be cast to the given type.
    pub fn can_cast_to(&self, value_type: &ValueType) -> (b: bool)
        ensures
            b == can_cast(self@, *value_type),
    {
        match value_type {
            ValueType::Unit => self.is_unit(),
            ValueType::Integer => !(self.is_unit() || self.is_string()),
            ValueType::Float => self.is_integer() || self.is_float(),
            ValueType::Bool => self.is_bool(),
            ValueType::String => self.is_string(),
        }
    }

    fn is_unit(&self) -> (b: bool)
        ensures
            b == self@ is Unit,
    {
        match self {
            Value::Unit => true,
            _ => false,
        }
    }

    fn is_integer(&self) -> (b: bool)
        ensures
            b == self@ is Integer,
    {
        match self {
            Value::Integer(_) => true,
            _ => false,
        }
    }

    fn is_float(&self) -> (b: bool)
        ensures
            b == self@ is Float,
    {
        match self {
            Value::Float(_) => true,
            _ => false,
        }
    }

    fn is_bool(&self) -> (b: bool)
        ensures
            b == self@ is Bool,
    {
        match self {
            Value::Bool(_) => true,
            _ => false,
        }
    }

    fn is_string(&self) -> (b: bool)
        ensures
            b == self@ is String,
    {
        match self {
            Value::String(_) => true,
            _ => false,
        }
    }

    pub fn cast_to_unit(&self) -> (r: Value)
        requires
            self@ is Unit,
        ensures
            r@ == SpecValue::Unit,
    {
        Value::Unit
    }

    pub fn as_integer(&self) -> (x: i32)
        requires
            self@ is Integer,
        ensures
            self@ == SpecValue::Integer(x),
    {
        match self {
            Value::Integer(x) => *x,
            _ => 0,
        }
    }

    /// Casts to an integer: floats are truncated by `floats.to_int`, booleans
    /// become 1 or 0.
    pub fn cast_to_integer<F: FloatOps>(&self, floats: &F) -> (r: Value)
        requires
            can_cast(self@, ValueType::Integer),
        ensures
            r@ is Integer,
            !(self@ is Float) ==> r@ == exact_cast(self@, ValueType::Integer),
            r@ == cast_value(floats.model(), self@, ValueType::Integer),
    {
        Value::Integer(
            match self {
                Value::Integer(x) => *x,
                Value::Float(x) => floats.to_int(*x),
                Value::Bool(b) => if *b { 1 } else { 0 },
                _ => 0,
            },
        )
    }

    /// The bit pattern of a float value.
    pub fn as_float(&self) -> (x: u32)
        requires
            self@ is Float,
        ensures
            self@ == SpecValue::Float(x),
    {
        match self {
            Value::Float(x) => *x,
            _ => 0,
        }
    }

    /// Casts to a float: integers are converted by `floats.from_int`.
    pub fn cast_to_float<F: FloatOps>(&self, floats: &F) -> (r: Value)
        requires
            can_cast(self@, ValueType::Float),
        ensures
            r@ is Float,
            self@ is Float ==> r@ == self@,
            r@ == cast_value(floats.model(), self@, ValueType::Float),
    {
        Value::Float(
            match self {
                Value::Integer(x) => floats.from_int(*x),
                Value::Float(x) => *x,
                _ => 0,
            },
        )
    }

    pub fn as_bool(&self) -> (b: bool)
        requires
            self@ is Bool,
        ensures
            self@ == SpecValue::Bool(b),
    {
        match self {
            Value::Bool(b) => *b,
            _ => false,
        }
    }

    pub fn cast_to_bool(&self) -> (r: Value)
        requires
            self@ is Bool,
        ensures
            r@ == self@,
    {
        Value::Bool(self.as_bool())
    }

    pub fn as_string(&self) -> (s: String)
        requires
            self@ is String,
        ensures
            self@ == SpecValue::String(s@),
    {
        match self {
            Value::String(s) => s.clone(),
            _ => String::new(),
        }
    }

    pub fn cast_to_string(&self) -> (r: Value)
        requires
            self@ is String,
        ensures
            r@ == self@,
    {
        Value::String(self.as_string())
    }

    /// Casts to the given type.
    pub fn cast_to<F: FloatOps>(&self, value_type: &ValueType, floats: &F) -> (r: Value)
        requires
            can_cast(self@, *value_type),
        ensures
            type_of(r@) == *value_type,
            !cast_converts_float(self@, *value_type) ==> r@ == exact_cast(self@, *value_type),
            r@ == cast_value(floats.model(), self@, *value_type),
    {
        match value_type {
            ValueType::Unit => self.cast_to_unit(),
            ValueType::Integer => self.cast_to_integer(floats),
            ValueType::Float => self.cast_to_float(floats),
            ValueType::Bool => self.cast_to_bool(),
            ValueType::String => self.cast_to_string(),
        }
    }
}

} // verus!
