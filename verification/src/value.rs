//! The values that the machine computes with.

use vstd::prelude::*;
use vstd::std_specs::cmp::PartialEqSpecImpl;
use vstd::std_specs::convert::FromSpecImpl;
use vstd::string::StringExecFns;

use crate::dict::{
    entries_get, entries_has, entries_merge, entries_put, entries_remove, eq_entries, Dict,
    Entries,
};
use crate::float::Float;
use crate::host::{ask, done, outcome_result, Outcome, OutcomeModel, Request, RequestView};
use crate::instruction::{
    eq_instruction, instructions_view, meta, Instruction, InstructionView, Meta, MetaView,
};
use crate::text::{decimal, int_to_text, parsed_int, text_to_int};
use crate::variable::Id;
use crate::{value_result, Error, ErrorView, Result, ValueModel};

verus! {

/// The type of a [`Value`]: one for each kind of value.
#[derive(Debug, Clone, Copy, PartialEq, Eq, Structural)]
pub enum Type {
    Bool,
    Int,
    Float,
    String,
    Id,
    Instruction,
    List,
    Dict,
    Type,
    Nil,
}

/// The operations that take two values.
#[derive(Debug, Clone, Copy, PartialEq, Eq, Structural)]
pub enum Operation {
    Add,
    Sub,
    Mul,
    Div,
    Eq,
    Lt,
    Le,
    Gt,
    Ge,
    And,
    Or,
}

/// A value of the machine.
#[derive(Debug)]
pub enum Value {
    Bool(bool),
    Int(i64),
    Float(Float),
    String(String),
    /// A reference to a variable; nothing follows it but
    /// [`crate::variable::Variables::maybe_read`].
    Id(Id),
    Instruction(Box<Instruction>),
    List(Vec<Value>),
    /// A mapping from text to values, walked in the order of its keys.
    Dict(Dict),
    Type(Type),
    Nil,
}

/// The model of a [`Value`].
pub enum ValueView {
    Bool(bool),
    Int(i64),
    Float(Float),
    String(Seq<char>),
    Id(Id),
    Instruction(Box<InstructionView>),
    List(Seq<ValueView>),
    Dict(Entries),
    Type(Type),
    Nil,
}

/// The models of a row of values.
pub open spec fn values_view(xs: Seq<Value>) -> Seq<ValueView>
    decreases xs,
{
    Seq::new(
        xs.len(),
        |i: int|
            if 0 <= i < xs.len() {
                xs[i].model()
            } else {
                ValueView::Nil
            },
    )
}

impl View for Value {
    type V = ValueView;

    open spec fn view(&self) -> ValueView {
        self.model()
    }
}

impl Value {
    /// The model of the value; `@` gives the same.
    pub open spec fn model(&self) -> ValueView
        decreases self,
    {
        match self {
            Value::Bool(b) => ValueView::Bool(*b),
            Value::Int(i) => ValueView::Int(*i),
            Value::Float(f) => ValueView::Float(*f),
            Value::String(s) => ValueView::String(s@),
            Value::Id(id) => ValueView::Id(*id),
            Value::Instruction(i) => ValueView::Instruction(Box::new(i.model())),
            Value::List(xs) => ValueView::List(values_view(xs@)),
            Value::Dict(d) => ValueView::Dict(d.model()),
            Value::Type(t) => ValueView::Type(*t),
            Value::Nil => ValueView::Nil,
        }
    }
}

/// The type of a value.
pub open spec fn type_of(v: ValueView) -> Type {
    match v {
        ValueView::Bool(_) => Type::Bool,
        ValueView::Int(_) => Type::Int,
        ValueView::Float(_) => Type::Float,
        ValueView::String(_) => Type::String,
        ValueView::Id(_) => Type::Id,
        ValueView::Instruction(_) => Type::Instruction,
        ValueView::List(_) => Type::List,
        ValueView::Dict(_) => Type::Dict,
        ValueView::Type(_) => Type::Type,
        ValueView::Nil => Type::Nil,
    }
}

/// Equality of values: by kind and content. Floats are equal as IEEE-754 has it, so a
/// NaN equals nothing, itself included; values of different kinds are never equal.
pub open spec fn eq_value(a: ValueView, b: ValueView) -> bool
    decreases a,
{
    match (a, b) {
        (ValueView::Bool(x), ValueView::Bool(y)) => x == y,
        (ValueView::Int(x), ValueView::Int(y)) => x == y,
        (ValueView::Float(x), ValueView::Float(y)) => x.same(y),
        (ValueView::String(x), ValueView::String(y)) => x == y,
        (ValueView::Id(x), ValueView::Id(y)) => x == y,
        (ValueView::Instruction(x), ValueView::Instruction(y)) => eq_instruction(*x, *y),
        (ValueView::List(x), ValueView::List(y)) => eq_values(x, y),
        (ValueView::Dict(x), ValueView::Dict(y)) => eq_entries(x, y),
        (ValueView::Type(x), ValueView::Type(y)) => x == y,
        (ValueView::Nil, ValueView::Nil) => true,
        _ => false,
    }
}

/// Equality of two rows of values: place by place.
pub open spec fn eq_values(a: Seq<ValueView>, b: Seq<ValueView>) -> bool
    decreases a,
{
    &&& a.len() == b.len()
    &&& forall|i: int| 0 <= i < a.len() ==> eq_value(#[trigger] a[i], b[i])
}

/// Copies a row of values.
pub fn clone_values(xs: &Vec<Value>) -> (out: Vec<Value>)
    ensures
        values_view(out@) == values_view(xs@),
    decreases xs,
{
    let mut out: Vec<Value> = Vec::new();
    let mut i: usize = 0;
    while i < xs.len()
        invariant
            i <= xs@.len(),
            out@.len() == i,
            forall|j: int| 0 <= j < i ==> out@[j]@ == xs@[j]@,
        decreases xs@.len() - i,
    {
        let x = xs[i].clone();
        out.push(x);
        i = i + 1;
    }
    out
}

/// Compares two rows of values place by place.
pub fn equal_values(xs: &Vec<Value>, ys: &Vec<Value>) -> (r: bool)
    ensures
        r == eq_values(values_view(xs@), values_view(ys@)),
    decreases xs,
{
    if xs.len() != ys.len() {
        return false;
    }
    let mut i: usize = 0;
    while i < xs.len()
        invariant
            i <= xs@.len(),
            xs@.len() == ys@.len(),
            forall|j: int| 0 <= j < i ==> eq_value(xs@[j]@, ys@[j]@),
        decreases xs@.len() - i,
    {
        if !xs[i].equals(&ys[i]) {
            assert(values_view(xs@)[i as int] == xs@[i as int]@);
            return false;
        }
        i = i + 1;
    }
    true
}

impl Clone for Value {
    fn clone(&self) -> (r: Self)
        ensures
            r@ == self@,
        decreases self,
    {
        match self {
            Value::Bool(b) => Value::Bool(*b),
            Value::Int(i) => Value::Int(*i),
            Value::Float(f) => Value::Float(*f),
            Value::String(s) => Value::String(s.clone()),
            Value::Id(id) => Value::Id(*id),
            Value::Instruction(i) => Value::Instruction(Box::new((**i).clone())),
            Value::List(xs) => Value::List(clone_values(xs)),
            Value::Dict(d) => Value::Dict(d.clone()),
            Value::Type(t) => Value::Type(*t),
            Value::Nil => Value::Nil,
        }
    }
}

impl Value {
    /// Whether the two values are equal.
    pub fn equals(&self, other: &Value) -> (r: bool)
        ensures
            r == eq_value(self@, other@),
        decreases self,
    {
        match (self, other) {
            (Value::Bool(x), Value::Bool(y)) => *x == *y,
            (Value::Int(x), Value::Int(y)) => *x == *y,
            (Value::Float(x), Value::Float(y)) => x.is_same(*y),
            (Value::String(x), Value::String(y)) => *x == *y,
            (Value::Id(x), Value::Id(y)) => *x == *y,
            (Value::Instruction(x), Value::Instruction(y)) => (**x).equals(&**y),
            (Value::List(x), Value::List(y)) => equal_values(x, y),
            (Value::Dict(x), Value::Dict(y)) => x.equals(y),
            (Value::Type(x), Value::Type(y)) => *x == *y,
            (Value::Nil, Value::Nil) => true,
            _ => false,
        }
    }
}

impl PartialEq for Value {
    fn eq(&self, other: &Self) -> (r: bool) {
        self.equals(other)
    }
}

impl PartialEqSpecImpl for Value {
    open spec fn obeys_eq_spec() -> bool {
        true
    }

    open spec fn eq_spec(&self, other: &Self) -> bool {
        eq_value(self@, other@)
    }
}

/// What a cast of a value to a type comes to. A value of that type stays as it is.
/// Everything casts to `Nil` and to its own type as a value. Integers and floats cast
/// to each other, and with booleans to text. To a boolean casts whatever can be empty
/// or zero: an integer or a float that is not zero (a NaN counts as zero), a text, a
/// list or a dictionary that is not empty, an instruction that is not `Noop`; `Nil`
/// casts to `false`.
pub open spec fn cast_spec(v: ValueView, to: Type) -> OutcomeModel {
    if type_of(v) == to {
        done(v)
    } else {
        match (v, to) {
            (_, Type::Nil) => done(ValueView::Nil),
            (_, Type::Type) => done(ValueView::Type(type_of(v))),
            (ValueView::Int(i), Type::Float) => ask(RequestView::IntToFloat(i)),
            (ValueView::Float(f), Type::Int) => ask(RequestView::FloatToInt(f)),
            (ValueView::Int(i), Type::Bool) => done(ValueView::Bool(i != 0)),
            (ValueView::Float(f), Type::Bool) => done(ValueView::Bool(!(f.zero() || f.nan()))),
            (ValueView::String(s), Type::Bool) => done(ValueView::Bool(s.len() != 0)),
            (ValueView::Instruction(i), Type::Bool) => done(ValueView::Bool(!(*i is Noop))),
            (ValueView::List(l), Type::Bool) => done(ValueView::Bool(l.len() != 0)),
            (ValueView::Dict(d), Type::Bool) => done(ValueView::Bool(d.len() != 0)),
            (ValueView::Nil, Type::Bool) => done(ValueView::Bool(false)),
            (ValueView::Bool(b), Type::String) => done(
                ValueView::String(
                    if b {
                        "true"@
                    } else {
                        "false"@
                    },
                ),
            ),
            (ValueView::Int(i), Type::String) => done(ValueView::String(decimal(i as int))),
            (ValueView::Float(f), Type::String) => ask(RequestView::FloatToText(f)),
            _ => Err(ErrorView::InvalidCast(type_of(v), to, v)),
        }
    }
}

/// What parsing a value into a type comes to. Only text is parsed: into itself, into
/// a boolean (`true` or `false`), into an integer or into a float.
pub open spec fn parse_spec(v: ValueView, to: Type) -> OutcomeModel {
    match v {
        ValueView::String(s) => match to {
            Type::String => done(v),
            Type::Bool => if s == "true"@ {
                done(ValueView::Bool(true))
            } else if s == "false"@ {
                done(ValueView::Bool(false))
            } else {
                Err(ErrorView::FailedParse(to, v))
            },
            Type::Int => match parsed_int(s) {
                Some(i) => done(ValueView::Int(i)),
                None => Err(ErrorView::FailedParse(to, v)),
            },
            Type::Float => ask(RequestView::TextToFloat(s)),
            _ => Err(ErrorView::InvalidParse(to)),
        },
        _ => Err(ErrorView::NonStringParse(v)),
    }
}

/// Whether the key finds something in the container: a text that is a key of a
/// dictionary, or an integer that is an index of a list.
pub open spec fn has_spec(container: ValueView, key: ValueView) -> bool {
    match (container, key) {
        (ValueView::Dict(d), ValueView::String(s)) => entries_has(d, s),
        (ValueView::List(l), ValueView::Int(i)) => 0 <= i < l.len(),
        _ => false,
    }
}

/// What the key finds in the container.
pub open spec fn found_spec(container: ValueView, key: ValueView) -> ValueView {
    match (container, key) {
        (ValueView::Dict(d), ValueView::String(s)) => entries_get(d, s).unwrap_or(ValueView::Nil),
        (ValueView::List(l), ValueView::Int(i)) => l[i as int],
        _ => ValueView::Nil,
    }
}

/// Whether the container takes keys of this kind.
pub open spec fn key_fits(container: ValueView, key: ValueView) -> bool {
    match (container, key) {
        (ValueView::Dict(_), ValueView::String(_)) => true,
        (ValueView::List(_), ValueView::Int(_)) => true,
        _ => false,
    }
}

/// What reading the container at the key comes to; a key that finds nothing is
/// reported with the whole container.
pub open spec fn get_spec(container: ValueView, key: ValueView) -> ValueModel {
    if has_spec(container, key) {
        Ok(found_spec(container, key))
    } else if key_fits(container, key) {
        Err(ErrorView::InvalidAcces { key, map: container })
    } else {
        Err(ErrorView::WrongKeyType(key, type_of(container)))
    }
}

/// What changing or taking the container's element at the key comes to; a key that
/// finds nothing is reported with the type of the container, a negative index with
/// `Nil`.
pub open spec fn get_mut_spec(container: ValueView, key: ValueView) -> ValueModel {
    if has_spec(container, key) {
        Ok(found_spec(container, key))
    } else {
        match (container, key) {
            (ValueView::Dict(_), ValueView::String(_)) => Err(
                ErrorView::InvalidAcces { key, map: ValueView::Type(Type::Dict) },
            ),
            (ValueView::List(_), ValueView::Int(i)) => Err(
                ErrorView::InvalidAcces {
                    key,
                    map: if i < 0 {
                        ValueView::Nil
                    } else {
                        ValueView::Type(Type::List)
                    },
                },
            ),
            _ => Err(ErrorView::WrongKeyType(key, type_of(container))),
        }
    }
}

/// The container with `value` in place of what the key finds.
pub open spec fn stored_spec(container: ValueView, key: ValueView, value: ValueView) -> ValueView {
    match (container, key) {
        (ValueView::Dict(d), ValueView::String(s)) => ValueView::Dict(entries_put(d, s, value)),
        (ValueView::List(l), ValueView::Int(i)) => ValueView::List(l.update(i as int, value)),
        _ => container,
    }
}

/// The container without what the key finds.
pub open spec fn taken_spec(container: ValueView, key: ValueView) -> ValueView {
    match (container, key) {
        (ValueView::Dict(d), ValueView::String(s)) => ValueView::Dict(entries_remove(d, s)),
        (ValueView::List(l), ValueView::Int(i)) => ValueView::List(l.remove(i as int)),
        _ => container,
    }
}

/// `lhs && rhs` and `lhs || rhs`, on booleans only.
pub open spec fn logic_spec(op: Operation, lhs: ValueView, rhs: ValueView) -> ValueModel {
    match (lhs, rhs) {
        (ValueView::Bool(a), ValueView::Bool(b)) => Ok(
            ValueView::Bool(
                if op == Operation::And {
                    a && b
                } else {
                    a || b
                },
            ),
        ),
        _ => Err(ErrorView::UnsuppurtedOperation(op, lhs, rhs)),
    }
}

/// An integer result if it is a 64-bit signed integer, and the error of overflow if
/// not.
pub open spec fn int_result(op: Operation, a: i64, b: i64, result: int) -> OutcomeModel {
    if i64::MIN <= result <= i64::MAX {
        done(ValueView::Int(result as i64))
    } else {
        Err(
            ErrorView::IntegerOverOrUnderFlow {
                op,
                lhs: ValueView::Int(a),
                rhs: ValueView::Int(b),
            },
        )
    }
}

/// `lhs + rhs`: the sum of two integers or two floats, and two texts, two lists, two
/// dictionaries or two instructions joined. Where two dictionaries share a key, the
/// value of the right one stays.
pub open spec fn add_spec(lhs: ValueView, rhs: ValueView) -> OutcomeModel {
    match (lhs, rhs) {
        (ValueView::Int(a), ValueView::Int(b)) => int_result(Operation::Add, a, b, a + b),
        (ValueView::Float(a), ValueView::Float(b)) => ask(
            RequestView::Arithmetic(Operation::Add, a, b),
        ),
        (ValueView::String(a), ValueView::String(b)) => done(ValueView::String(a + b)),
        (ValueView::Instruction(a), ValueView::Instruction(b)) => done(
            ValueView::Instruction(
                Box::new(InstructionView::Meta(MetaView::List(seq![*a, *b]))),
            ),
        ),
        (ValueView::List(a), ValueView::List(b)) => done(ValueView::List(a + b)),
        (ValueView::Dict(a), ValueView::Dict(b)) => done(ValueView::Dict(entries_merge(a, b))),
        _ => Err(ErrorView::UnsuppurtedOperation(Operation::Add, lhs, rhs)),
    }
}

/// `lhs - rhs`, on two integers or two floats.
pub open spec fn sub_spec(lhs: ValueView, rhs: ValueView) -> OutcomeModel {
    match (lhs, rhs) {
        (ValueView::Int(a), ValueView::Int(b)) => int_result(Operation::Sub, a, b, a - b),
        (ValueView::Float(a), ValueView::Float(b)) => ask(
            RequestView::Arithmetic(Operation::Sub, a, b),
        ),
        _ => Err(ErrorView::UnsuppurtedOperation(Operation::Sub, lhs, rhs)),
    }
}

/// `lhs * rhs`, on two integers or two floats.
pub open spec fn mul_spec(lhs: ValueView, rhs: ValueView) -> OutcomeModel {
    match (lhs, rhs) {
        (ValueView::Int(a), ValueView::Int(b)) => int_result(Operation::Mul, a, b, a * b),
        (ValueView::Float(a), ValueView::Float(b)) => ask(
            RequestView::Arithmetic(Operation::Mul, a, b),
        ),
        _ => Err(ErrorView::UnsuppurtedOperation(Operation::Mul, lhs, rhs)),
    }
}

/// The quotient of two integers, rounded towards zero.
pub open spec fn quotient(a: int, b: int) -> int
    recommends
        b != 0,
{
    if (a >= 0) == (b > 0) {
        (if a >= 0 { a } else { -a }) / (if b > 0 { b } else { -b })
    } else {
        -((if a >= 0 { a } else { -a }) / (if b > 0 { b } else { -b }))
    }
}

/// `lhs / rhs`, on two integers or two floats. No integer is divided by zero.
pub open spec fn div_spec(lhs: ValueView, rhs: ValueView) -> OutcomeModel {
    match (lhs, rhs) {
        (ValueView::Int(a), ValueView::Int(b)) => if b == 0 {
            Err(ErrorView::ZeroDiv(lhs, rhs))
        } else {
            int_result(Operation::Div, a, b, quotient(a as int, b as int))
        },
        (ValueView::Float(a), ValueView::Float(b)) => ask(
            RequestView::Arithmetic(Operation::Div, a, b),
        ),
        _ => Err(ErrorView::UnsuppurtedOperation(Operation::Div, lhs, rhs)),
    }
}

/// What an ordering operation says of two values, where they are ordered: two
/// integers, or two floats of which neither is a NaN.
pub open spec fn order_spec(op: Operation, lhs: ValueView, rhs: ValueView) -> Option<bool> {
    match (lhs, rhs) {
        (ValueView::Int(a), ValueView::Int(b)) => Some(
            match op {
                Operation::Lt => a < b,
                Operation::Le => a <= b,
                Operation::Gt => a > b,
                _ => a >= b,
            },
        ),
        (ValueView::Float(a), ValueView::Float(b)) => if a.comparable(b) {
            Some(
                match op {
                    Operation::Lt => a.below(b),
                    Operation::Le => a.below(b) || a.same(b),
                    Operation::Gt => b.below(a),
                    _ => b.below(a) || a.same(b),
                },
            )
        } else {
            None
        },
        _ => None,
    }
}

/// What an operation on two values comes to.
pub open spec fn apply_spec(op: Operation, lhs: ValueView, rhs: ValueView) -> OutcomeModel {
    match op {
        Operation::Add => add_spec(lhs, rhs),
        Operation::Sub => sub_spec(lhs, rhs),
        Operation::Mul => mul_spec(lhs, rhs),
        Operation::Div => div_spec(lhs, rhs),
        Operation::And | Operation::Or => match logic_spec(op, lhs, rhs) {
            Ok(v) => done(v),
            Err(e) => Err(e),
        },
        Operation::Eq => done(ValueView::Bool(eq_value(lhs, rhs))),
        _ => match order_spec(op, lhs, rhs) {
            Some(b) => done(ValueView::Bool(b)),
            None => Err(ErrorView::UnsuppurtedOperation(op, lhs, rhs)),
        },
    }
}

impl Type {
    /// The type of a value.
    pub fn of(value: &Value) -> (r: Type)
        ensures
            r == type_of(value@),
    {
        match value {
            Value::Bool(_) => Type::Bool,
            Value::Int(_) => Type::Int,
            Value::Float(_) => Type::Float,
            Value::String(_) => Type::String,
            Value::Id(_) => Type::Id,
            Value::Instruction(_) => Type::Instruction,
            Value::List(_) => Type::List,
            Value::Dict(_) => Type::Dict,
            Value::Type(_) => Type::Type,
            Value::Nil => Type::Nil,
        }
    }
}

impl Operation {
    /// Applies the operation to two values.
    pub fn apply(self, lhs: Value, rhs: Value) -> (r: Result<Outcome>)
        ensures
            outcome_result(r) == apply_spec(self, lhs@, rhs@),
    {
        match self {
            Operation::Add => lhs.add(rhs),
            Operation::Sub => lhs.sub(rhs),
            Operation::Mul => lhs.mul(rhs),
            Operation::Div => lhs.div(rhs),
            Operation::And => match lhs.and(rhs) {
                Ok(v) => Ok(Outcome::Value(v)),
                Err(e) => Err(e),
            },
            Operation::Or => match lhs.or(rhs) {
                Ok(v) => Ok(Outcome::Value(v)),
                Err(e) => Err(e),
            },
            Operation::Eq => Ok(Outcome::Value(Value::Bool(lhs.equals(&rhs)))),
            _ => match lhs.order(self, &rhs) {
                Some(b) => Ok(Outcome::Value(Value::Bool(b))),
                None => Err(Error::UnsuppurtedOperation(self, lhs, rhs)),
            },
        }
    }
}

impl Value {
    /// A text value.
    pub fn string(value: &str) -> (r: Value)
        ensures
            r@ == ValueView::String(value@),
    {
        Value::String(value.to_owned())
    }

    /// Casts the value to a type.
    pub fn cast(self, to: Type) -> (r: Result<Outcome>)
        ensures
            outcome_result(r) == cast_spec(self@, to),
    {
        let from = Type::of(&self);
        if from == to {
            return Ok(Outcome::Value(self));
        }
        match to {
            Type::Nil => Ok(Outcome::Value(Value::Nil)),
            Type::Type => Ok(Outcome::Value(Value::Type(from))),
            Type::Float => match self {
                Value::Int(i) => Ok(Outcome::Request(Request::IntToFloat(i))),
                other => Err(Error::InvalidCast(from, to, other)),
            },
            Type::Int => match self {
                Value::Float(f) => Ok(Outcome::Request(Request::FloatToInt(f))),
                other => Err(Error::InvalidCast(from, to, other)),
            },
            Type::Bool => match self {
                Value::Int(i) => Ok(Outcome::Value(Value::Bool(i != 0))),
                Value::Float(f) => Ok(Outcome::Value(Value::Bool(!(f.is_zero() || f.is_nan())))),
                Value::String(s) => Ok(Outcome::Value(Value::Bool(!s.as_str().is_empty()))),
                Value::Instruction(i) => Ok(Outcome::Value(Value::Bool(!i.is_noop()))),
                Value::List(l) => Ok(Outcome::Value(Value::Bool(l.len() != 0))),
                Value::Dict(d) => Ok(Outcome::Value(Value::Bool(!d.is_empty()))),
                Value::Nil => Ok(Outcome::Value(Value::Bool(false))),
                other => Err(Error::InvalidCast(from, to, other)),
            },
            Type::String => match self {
                Value::Bool(b) => Ok(
                    Outcome::Value(
                        Value::String(
                            if b {
                                "true".to_owned()
                            } else {
                                "false".to_owned()
                            },
                        ),
                    ),
                ),
                Value::Int(i) => Ok(Outcome::Value(Value::String(int_to_text(i)))),
                Value::Float(f) => Ok(Outcome::Request(Request::FloatToText(f))),
                other => Err(Error::InvalidCast(from, to, other)),
            },
            _ => Err(Error::InvalidCast(from, to, self)),
        }
    }

    /// Parses the value, a text, into a type.
    pub fn parse(self, to: Type) -> (r: Result<Outcome>)
        ensures
            outcome_result(r) == parse_spec(self@, to),
    {
        match self {
            Value::String(from) => match to {
                Type::String => Ok(Outcome::Value(Value::String(from))),
                Type::Bool => {
                    if from == "true".to_owned() {
                        Ok(Outcome::Value(Value::Bool(true)))
                    } else if from == "false".to_owned() {
                        Ok(Outcome::Value(Value::Bool(false)))
                    } else {
                        Err(Error::FailedParse(to, Value::String(from)))
                    }
                },
                Type::Int => match text_to_int(from.as_str()) {
                    Some(i) => Ok(Outcome::Value(Value::Int(i))),
                    None => Err(Error::FailedParse(to, Value::String(from))),
                },
                Type::Float => Ok(Outcome::Request(Request::TextToFloat(from))),
                _ => Err(Error::InvalidParse(to)),
            },
            other => Err(Error::NonStringParse(other)),
        }
    }

    /// The index that the integer is in a list of this length, if it is one.
    fn index_in(index: i64, len: usize) -> (r: Option<usize>)
        ensures
            r is Some == (0 <= index < len),
            r matches Some(i) ==> i == index,
    {
        if index < 0 {
            None
        } else if (index as u64) < (len as u64) {
            Some(index as usize)
        } else {
            None
        }
    }

    /// The element of a dictionary under a key, or of a list at an index.
    pub fn get(&self, key: Value) -> (r: Result<&Value>)
        ensures
            r matches Ok(v) ==> get_spec(self@, key@) == Ok::<ValueView, ErrorView>(v@),
            r matches Err(e) ==> get_spec(self@, key@) == Err::<ValueView, ErrorView>(e@),
    {
        match (self, key) {
            (Value::Dict(d), Value::String(k)) => match d.get(k.as_str()) {
                Some(v) => Ok(v),
                None => Err(Error::InvalidAcces { key: Value::String(k), map: self.clone() }),
            },
            (Value::List(l), Value::Int(i)) => match Value::index_in(i, l.len()) {
                Some(at) => {
                    Ok(&l[at])
                },
                None => {
                    Err(Error::InvalidAcces { key: Value::Int(i), map: self.clone() })
                },
            },
            (container, key) => Err(Error::WrongKeyType(key, Type::of(container))),
        }
    }

    /// The element of a dictionary under a key, or of a list at an index, to be
    /// changed in place.
    pub fn get_mut(&mut self, key: Value) -> (r: Result<&mut Value>)
        ensures
            r matches Ok(v) ==> get_mut_spec(old(self)@, key@) == Ok::<ValueView, ErrorView>(v@)
                && final(self)@ == stored_spec(old(self)@, key@, final(v)@),
            r matches Err(e) ==> get_mut_spec(old(self)@, key@) == Err::<ValueView, ErrorView>(
                e@,
            ) && final(self)@ == old(self)@,
    {
        match (self, key) {
            (Value::Dict(d), Value::String(k)) => match d.get_mut(k.as_str()) {
                Some(v) => Ok(v),
                None => Err(
                    Error::InvalidAcces { key: Value::String(k), map: Value::Type(Type::Dict) },
                ),
            },
            (Value::List(l), Value::Int(i)) => {
                match Value::index_in(i, l.len()) {
                    Some(at) => {
                        let ghost before = l@;
                        let slot = &mut l[at];
                        proof {
                            assert(values_view(before.update(at as int, *final(slot)))
                                =~= values_view(before).update(at as int, final(slot)@));
                        }
                        Ok(slot)
                    },
                    None => Err(
                        Error::InvalidAcces {
                            key: Value::Int(i),
                            map: if i < 0 {
                                Value::Nil
                            } else {
                                Value::Type(Type::List)
                            },
                        },
                    ),
                }
            },
            (container, key) => Err(Error::WrongKeyType(key, Type::of(container))),
        }
    }

    /// Takes the element of a dictionary under a key, or of a list at an index, out of
    /// its container.
    pub fn get_take(&mut self, key: Value) -> (r: Result<Value>)
        ensures
            value_result(r) == get_mut_spec(old(self)@, key@),
            r is Ok ==> final(self)@ == taken_spec(old(self)@, key@),
            r is Err ==> final(self)@ == old(self)@,
    {
        match (self, key) {
            (Value::Dict(d), Value::String(k)) => match d.remove(k.as_str()) {
                Some(v) => Ok(v),
                None => Err(
                    Error::InvalidAcces { key: Value::String(k), map: Value::Type(Type::Dict) },
                ),
            },
            (Value::List(l), Value::Int(i)) => {
                match Value::index_in(i, l.len()) {
                    Some(at) => {
                        let ghost before = l@;
                        let v = l.remove(at);
                        proof {
                            assert(values_view(before.remove(at as int)) =~= values_view(
                                before,
                            ).remove(at as int));
                        }
                        Ok(v)
                    },
                    None => Err(
                        Error::InvalidAcces {
                            key: Value::Int(i),
                            map: if i < 0 {
                                Value::Nil
                            } else {
                                Value::Type(Type::List)
                            },
                        },
                    ),
                }
            },
            (container, key) => Err(Error::WrongKeyType(key, Type::of(container))),
        }
    }

    /// `self && other`, on booleans.
    pub fn and(self, other: Value) -> (r: Result<Value>)
        ensures
            value_result(r) == logic_spec(Operation::And, self@, other@),
    {
        match (self, other) {
            (Value::Bool(lhs), Value::Bool(rhs)) => Ok(Value::Bool(lhs && rhs)),
            (lhs, rhs) => Err(Error::UnsuppurtedOperation(Operation::And, lhs, rhs)),
        }
    }

    /// `self || other`, on booleans.
    pub fn or(self, other: Value) -> (r: Result<Value>)
        ensures
            value_result(r) == logic_spec(Operation::Or, self@, other@),
    {
        match (self, other) {
            (Value::Bool(lhs), Value::Bool(rhs)) => Ok(Value::Bool(lhs || rhs)),
            (lhs, rhs) => Err(Error::UnsuppurtedOperation(Operation::Or, lhs, rhs)),
        }
    }

    /// `self + rhs`.
    pub fn add(self, rhs: Value) -> (r: Result<Outcome>)
        ensures
            outcome_result(r) == add_spec(self@, rhs@),
    {
        match (self, rhs) {
            (Value::Int(lhs), Value::Int(rhs)) => match lhs.checked_add(rhs) {
                Some(sum) => Ok(Outcome::Value(Value::Int(sum))),
                None => Err(
                    Error::IntegerOverOrUnderFlow {
                        op: Operation::Add,
                        lhs: Value::Int(lhs),
                        rhs: Value::Int(rhs),
                    },
                ),
            },
            (Value::Float(lhs), Value::Float(rhs)) => Ok(
                Outcome::Request(Request::Arithmetic(Operation::Add, lhs, rhs)),
            ),
            (Value::String(lhs), Value::String(rhs)) => Ok(
                Outcome::Value(Value::String(lhs.concat(rhs.as_str()))),
            ),
            (Value::Instruction(lhs), Value::Instruction(rhs)) => {
                let ghost a = lhs@;
                let ghost b = rhs@;
                let mut both: Vec<Instruction> = Vec::new();
                both.push(*lhs);
                both.push(*rhs);
                assert(instructions_view(both@) =~= seq![a, b]);
                let joined = Instruction::Meta(Meta::List(meta::List(both)));
                assert(joined@ == InstructionView::Meta(MetaView::List(seq![a, b])));
                Ok(Outcome::Value(Value::Instruction(Box::new(joined))))
            },
            (Value::List(lhs), Value::List(rhs)) => {
                let mut lhs = lhs;
                let mut rhs = rhs;
                let ghost left = lhs@;
                let ghost right = rhs@;
                lhs.append(&mut rhs);
                assert(values_view(lhs@) =~= values_view(left) + values_view(right));
                Ok(Outcome::Value(Value::List(lhs)))
            },
            (Value::Dict(lhs), Value::Dict(rhs)) => Ok(Outcome::Value(Value::Dict(lhs.merge(rhs)))),
            (lhs, rhs) => Err(Error::UnsuppurtedOperation(Operation::Add, lhs, rhs)),
        }
    }

    /// `self - rhs`.
    pub fn sub(self, rhs: Value) -> (r: Result<Outcome>)
        ensures
            outcome_result(r) == sub_spec(self@, rhs@),
    {
        match (self, rhs) {
            (Value::Int(lhs), Value::Int(rhs)) => match lhs.checked_sub(rhs) {
                Some(difference) => Ok(Outcome::Value(Value::Int(difference))),
                None => Err(
                    Error::IntegerOverOrUnderFlow {
                        op: Operation::Sub,
                        lhs: Value::Int(lhs),
                        rhs: Value::Int(rhs),
                    },
                ),
            },
            (Value::Float(lhs), Value::Float(rhs)) => Ok(
                Outcome::Request(Request::Arithmetic(Operation::Sub, lhs, rhs)),
            ),
            (lhs, rhs) => Err(Error::UnsuppurtedOperation(Operation::Sub, lhs, rhs)),
        }
    }

    /// `self * rhs`.
    pub fn mul(self, rhs: Value) -> (r: Result<Outcome>)
        ensures
            outcome_result(r) == mul_spec(self@, rhs@),
    {
        match (self, rhs) {
            (Value::Int(lhs), Value::Int(rhs)) => match lhs.checked_mul(rhs) {
                Some(product) => Ok(Outcome::Value(Value::Int(product))),
                None => Err(
                    Error::IntegerOverOrUnderFlow {
                        op: Operation::Mul,
                        lhs: Value::Int(lhs),
                        rhs: Value::Int(rhs),
                    },
                ),
            },
            (Value::Float(lhs), Value::Float(rhs)) => Ok(
                Outcome::Request(Request::Arithmetic(Operation::Mul, lhs, rhs)),
            ),
            (lhs, rhs) => Err(Error::UnsuppurtedOperation(Operation::Mul, lhs, rhs)),
        }
    }

    /// `self / rhs`.
    pub fn div(self, rhs: Value) -> (r: Result<Outcome>)
        ensures
            outcome_result(r) == div_spec(self@, rhs@),
    {
        match (self, rhs) {
            (Value::Int(lhs), Value::Int(rhs)) => {
                if rhs == 0 {
                    Err(Error::ZeroDiv(Value::Int(lhs), Value::Int(0)))
                } else {
                    match lhs.checked_div(rhs) {
                        Some(quotient) => Ok(Outcome::Value(Value::Int(quotient))),
                        None => Err(
                            Error::IntegerOverOrUnderFlow {
                                op: Operation::Div,
                                lhs: Value::Int(lhs),
                                rhs: Value::Int(rhs),
                            },
                        ),
                    }
                }
            },
            (Value::Float(lhs), Value::Float(rhs)) => Ok(
                Outcome::Request(Request::Arithmetic(Operation::Div, lhs, rhs)),
            ),
            (lhs, rhs) => Err(Error::UnsuppurtedOperation(Operation::Div, lhs, rhs)),
        }
    }

    /// What an ordering operation says of the two values, where they are ordered.
    pub fn order(&self, op: Operation, other: &Value) -> (r: Option<bool>)
        ensures
            r == order_spec(op, self@, other@),
    {
        match (self, other) {
            (Value::Int(a), Value::Int(b)) => Some(
                match op {
                    Operation::Lt => *a < *b,
                    Operation::Le => *a <= *b,
                    Operation::Gt => *a > *b,
                    _ => *a >= *b,
                },
            ),
            (Value::Float(a), Value::Float(b)) => {
                if a.is_comparable(*b) {
                    Some(
                        match op {
                            Operation::Lt => a.is_below(*b),
                            Operation::Le => a.is_below(*b) || a.is_same(*b),
                            Operation::Gt => b.is_below(*a),
                            _ => b.is_below(*a) || a.is_same(*b),
                        },
                    )
                } else {
                    None
                }
            },
            _ => None,
        }
    }
}

impl Default for Type {
    fn default() -> (r: Self)
        ensures
            r == Type::Nil,
    {
        Type::Nil
    }
}

impl Default for Value {
    fn default() -> (r: Self)
        ensures
            r == Value::Nil,
    {
        Value::Nil
    }
}

impl From<i64> for Value {
    fn from(value: i64) -> (r: Self) {
        Value::Int(value)
    }
}

impl FromSpecImpl<i64> for Value {
    open spec fn obeys_from_spec() -> bool {
        true
    }

    open spec fn from_spec(value: i64) -> Self {
        Value::Int(value)
    }
}

impl From<bool> for Value {
    fn from(value: bool) -> (r: Self) {
        Value::Bool(value)
    }
}

impl FromSpecImpl<bool> for Value {
    open spec fn obeys_from_spec() -> bool {
        true
    }

    open spec fn from_spec(value: bool) -> Self {
        Value::Bool(value)
    }
}

impl From<Float> for Value {
    fn from(value: Float) -> (r: Self) {
        Value::Float(value)
    }
}

impl FromSpecImpl<Float> for Value {
    open spec fn obeys_from_spec() -> bool {
        true
    }

    open spec fn from_spec(value: Float) -> Self {
        Value::Float(value)
    }
}

impl From<String> for Value {
    fn from(value: String) -> (r: Self) {
        Value::String(value)
    }
}

impl FromSpecImpl<String> for Value {
    open spec fn obeys_from_spec() -> bool {
        true
    }

    open spec fn from_spec(value: String) -> Self {
        Value::String(value)
    }
}

impl From<Id> for Value {
    fn from(value: Id) -> (r: Self) {
        Value::Id(value)
    }
}

impl FromSpecImpl<Id> for Value {
    open spec fn obeys_from_spec() -> bool {
        true
    }

    open spec fn from_spec(value: Id) -> Self {
        Value::Id(value)
    }
}

impl From<Type> for Value {
    fn from(value: Type) -> (r: Self) {
        Value::Type(value)
    }
}

impl FromSpecImpl<Type> for Value {
    open spec fn obeys_from_spec() -> bool {
        true
    }

    open spec fn from_spec(value: Type) -> Self {
        Value::Type(value)
    }
}

impl From<Instruction> for Value {
    fn from(value: Instruction) -> (r: Self) {
        Value::Instruction(Box::new(value))
    }
}

impl FromSpecImpl<Instruction> for Value {
    open spec fn obeys_from_spec() -> bool {
        true
    }

    open spec fn from_spec(value: Instruction) -> Self {
        Value::Instruction(Box::new(value))
    }
}

impl From<Box<Instruction>> for Value {
    fn from(value: Box<Instruction>) -> (r: Self) {
        Value::Instruction(value)
    }
}

impl FromSpecImpl<Box<Instruction>> for Value {
    open spec fn obeys_from_spec() -> bool {
        true
    }

    open spec fn from_spec(value: Box<Instruction>) -> Self {
        Value::Instruction(value)
    }
}

impl From<Vec<Value>> for Value {
    fn from(value: Vec<Value>) -> (r: Self) {
        Value::List(value)
    }
}

impl FromSpecImpl<Vec<Value>> for Value {
    open spec fn obeys_from_spec() -> bool {
        true
    }

    open spec fn from_spec(value: Vec<Value>) -> Self {
        Value::List(value)
    }
}

impl From<Dict> for Value {
    fn from(value: Dict) -> (r: Self) {
        Value::Dict(value)
    }
}

impl FromSpecImpl<Dict> for Value {
    open spec fn obeys_from_spec() -> bool {
        true
    }

    open spec fn from_spec(value: Dict) -> Self {
        Value::Dict(value)
    }
}

impl From<&Value> for Type {
    fn from(value: &Value) -> (r: Self) {
        Type::of(value)
    }
}

impl FromSpecImpl<&Value> for Type {
    open spec fn obeys_from_spec() -> bool {
        true
    }

    open spec fn from_spec(value: &Value) -> Self {
        type_of(value@)
    }
}

} // verus!
