//! Instructions that see nothing but the return value.

use std::sync::Arc;
use vstd::prelude::*;
use vstd::std_specs::convert::IntoSpec;

use super::traits::Pure;
use super::{loading, Instruction, InstructionView, IntoInstruction, Loading, LoadingView, PureView};
use crate::host::{ask, done, outcome_result, Outcome, OutcomeModel, Request, RequestView};
use crate::program::{unshare, ProgramView};
use crate::value::{apply_spec, cast_spec, parse_spec, Operation, Type, Value, ValueView};
use crate::{Error, ErrorView, Result};

verus! {

/// Shows the return value to the host and leaves it as it is.
#[derive(Debug, Clone, Copy, PartialEq, Eq, Structural)]
pub struct Debug;

/// Takes a float, the seconds to wait, and has the host suspend the run for that long.
#[derive(Debug, Clone, Copy, PartialEq, Eq, Structural)]
pub struct Sleep;

/// Takes a boolean and gives the value that stands for it.
#[derive(Debug, PartialEq)]
pub struct Cond {
    pub if_true: Value,
    pub if_false: Value,
}

/// Gives its value, whatever the return value was.
#[derive(Debug, PartialEq)]
pub struct Put(pub Value);

/// Casts the return value to a type.
#[derive(Debug, Clone, Copy, PartialEq, Eq, Structural)]
pub struct Coerce(pub Type);

/// Parses the return value, a text, into a type.
#[derive(Debug, Clone, Copy, PartialEq, Eq, Structural)]
pub struct Parse(pub Type);

/// Applies an operation to the return value and its own value.
#[derive(Debug, PartialEq)]
pub struct Op(pub Operation, pub Value);

/// Takes a sub-program as an instruction and makes it fallible.
#[derive(Debug, Clone, Copy, PartialEq, Eq, Structural)]
pub struct ToFallible;

/// Takes a sub-program as an instruction and makes it infallible.
#[derive(Debug, Clone, Copy, PartialEq, Eq, Structural)]
pub struct ToInfallible;

/// Negates a boolean.
#[derive(Debug, Clone, Copy, PartialEq, Eq, Structural)]
pub struct Not;

impl Clone for Cond {
    fn clone(&self) -> (r: Self)
        ensures
            r.if_true@ == self.if_true@,
            r.if_false@ == self.if_false@,
        decreases self,
    {
        Cond { if_true: self.if_true.clone(), if_false: self.if_false.clone() }
    }
}

impl Clone for Put {
    fn clone(&self) -> (r: Self)
        ensures
            r.0@ == self.0@,
        decreases self,
    {
        Put(self.0.clone())
    }
}

impl Clone for Op {
    fn clone(&self) -> (r: Self)
        ensures
            r.0 == self.0,
            r.1@ == self.1@,
        decreases self,
    {
        Op(self.0, self.1.clone())
    }
}

/// The value with the fallibility of the sub-program in it set; a value that is no
/// sub-program is refused in the name of the instruction `by`.
pub open spec fn fallibility_spec(
    value: ValueView,
    is_fallible: bool,
    by: InstructionView,
) -> OutcomeModel {
    match value {
        ValueView::Instruction(i) => match *i {
            InstructionView::Loading(LoadingView::Program(p)) => done(
                ValueView::Instruction(
                    Box::new(
                        InstructionView::Loading(
                            LoadingView::Program(Box::new(ProgramView { is_fallible, ..*p })),
                        ),
                    ),
                ),
            ),
            _ => Err(ErrorView::WrongInstructionInput(value, by)),
        },
        _ => Err(ErrorView::WrongInstructionInput(value, by)),
    }
}

/// What a pure instruction comes to on a return value.
pub open spec fn pure_spec(instruction: PureView, value: ValueView) -> OutcomeModel {
    let refused = Err(ErrorView::WrongInstructionInput(value, InstructionView::Pure(instruction)));
    match instruction {
        PureView::Sleep => match value {
            ValueView::Float(seconds) => ask(RequestView::Sleep(seconds)),
            _ => refused,
        },
        PureView::Debug => ask(RequestView::Debug(value)),
        PureView::Cond { if_true, if_false } => match value {
            ValueView::Bool(b) => done(
                if b {
                    if_true
                } else {
                    if_false
                },
            ),
            _ => refused,
        },
        PureView::Put(v) => done(v),
        PureView::Coerce(to) => cast_spec(value, to),
        PureView::Parse(to) => parse_spec(value, to),
        PureView::Op(op, rhs) => apply_spec(op, value, rhs),
        PureView::ToFallible => fallibility_spec(value, true, InstructionView::Pure(instruction)),
        PureView::ToInfallible => fallibility_spec(
            value,
            false,
            InstructionView::Pure(instruction),
        ),
        PureView::Not => match value {
            ValueView::Bool(b) => done(ValueView::Bool(!b)),
            _ => refused,
        },
    }
}

/// Sets the fallibility of the sub-program that the value is.
fn set_fallibility(value: Value, is_fallible: bool, by: Instruction) -> (r: Result<Outcome>)
    ensures
        outcome_result(r) == fallibility_spec(value@, is_fallible, by@),
{
    match value {
        Value::Instruction(boxed) => {
            let instruction: Instruction = *boxed;
            assert(value@ == ValueView::Instruction(Box::new(instruction@)));
            match instruction {
                Instruction::Loading(Loading::Program(loading::Program(shared))) => {
                    let ghost before = shared.model();
                    let program = unshare(shared);
                    let program = if is_fallible {
                        program.into_fallible()
                    } else {
                        program.into_infallible()
                    };
                    let changed = Instruction::Loading(
                        Loading::Program(loading::Program(Arc::new(program))),
                    );
                    assert(changed@ == InstructionView::Loading(
                        LoadingView::Program(Box::new(ProgramView { is_fallible, ..before })),
                    ));
                    Ok(Outcome::Value(Value::Instruction(Box::new(changed))))
                },
                other => Err(Error::WrongInstructionInput(Value::Instruction(Box::new(other)), by)),
            }
        },
        other => Err(Error::WrongInstructionInput(other, by)),
    }
}

impl Pure for Debug {
    fn perform(self, return_value: Value) -> (r: Result<Outcome>)
        ensures
            outcome_result(r) == pure_spec(PureView::Debug, return_value@),
    {
        Ok(Outcome::Request(Request::Debug(return_value)))
    }
}

impl Pure for Sleep {
    fn perform(self, return_value: Value) -> (r: Result<Outcome>)
        ensures
            outcome_result(r) == pure_spec(PureView::Sleep, return_value@),
    {
        match return_value {
            Value::Float(seconds) => Ok(Outcome::Request(Request::Sleep(seconds))),
            other => Err(Error::WrongInstructionInput(other, self.into_instruction())),
        }
    }
}

impl Pure for Cond {
    fn perform(self, return_value: Value) -> (r: Result<Outcome>)
        ensures
            outcome_result(r) == pure_spec(
                PureView::Cond { if_true: self.if_true@, if_false: self.if_false@ },
                return_value@,
            ),
    {
        match return_value {
            Value::Bool(value) => Ok(
                Outcome::Value(
                    if value {
                        self.if_true
                    } else {
                        self.if_false
                    },
                ),
            ),
            other => Err(Error::WrongInstructionInput(other, self.into_instruction())),
        }
    }
}

impl Pure for Put {
    fn perform(self, return_value: Value) -> (r: Result<Outcome>)
        ensures
            outcome_result(r) == pure_spec(PureView::Put(self.0@), return_value@),
    {
        Ok(Outcome::Value(self.0))
    }
}

/// The instruction that gives what `value` converts to.
pub fn put<T: Into<Value>>(value: T) -> (r: Put)
    ensures
        T::obeys_into_spec() ==> r.0 == value.into_spec(),
{
    Put(value.into())
}

impl Pure for Coerce {
    fn perform(self, return_value: Value) -> (r: Result<Outcome>)
        ensures
            outcome_result(r) == pure_spec(PureView::Coerce(self.0), return_value@),
    {
        return_value.cast(self.0)
    }
}

impl Pure for Parse {
    fn perform(self, return_value: Value) -> (r: Result<Outcome>)
        ensures
            outcome_result(r) == pure_spec(PureView::Parse(self.0), return_value@),
    {
        return_value.parse(self.0)
    }
}

impl Pure for Op {
    fn perform(self, lhs: Value) -> (r: Result<Outcome>)
        ensures
            outcome_result(r) == pure_spec(PureView::Op(self.0, self.1@), lhs@),
    {
        self.0.apply(lhs, self.1)
    }
}

impl Pure for ToFallible {
    fn perform(self, return_value: Value) -> (r: Result<Outcome>)
        ensures
            outcome_result(r) == pure_spec(PureView::ToFallible, return_value@),
    {
        set_fallibility(return_value, true, self.into_instruction())
    }
}

impl Pure for ToInfallible {
    fn perform(self, return_value: Value) -> (r: Result<Outcome>)
        ensures
            outcome_result(r) == pure_spec(PureView::ToInfallible, return_value@),
    {
        set_fallibility(return_value, false, self.into_instruction())
    }
}

impl Pure for Not {
    fn perform(self, return_value: Value) -> (r: Result<Outcome>)
        ensures
            outcome_result(r) == pure_spec(PureView::Not, return_value@),
    {
        match return_value {
            Value::Bool(value) => Ok(Outcome::Value(Value::Bool(!value))),
            other => Err(Error::WrongInstructionInput(other, self.into_instruction())),
        }
    }
}

impl IntoInstruction for Debug {
    open spec fn instruction(self) -> InstructionView {
        InstructionView::Pure(PureView::Debug)
    }

    fn into_instruction(self) -> (r: Instruction) {
        Instruction::Pure(super::Pure::Debug(self))
    }
}

impl IntoInstruction for Sleep {
    open spec fn instruction(self) -> InstructionView {
        InstructionView::Pure(PureView::Sleep)
    }

    fn into_instruction(self) -> (r: Instruction) {
        Instruction::Pure(super::Pure::Sleep(self))
    }
}

impl IntoInstruction for Cond {
    open spec fn instruction(self) -> InstructionView {
        InstructionView::Pure(PureView::Cond { if_true: self.if_true@, if_false: self.if_false@ })
    }

    fn into_instruction(self) -> (r: Instruction) {
        Instruction::Pure(super::Pure::Cond(self))
    }
}

impl IntoInstruction for Put {
    open spec fn instruction(self) -> InstructionView {
        InstructionView::Pure(PureView::Put(self.0@))
    }

    fn into_instruction(self) -> (r: Instruction) {
        Instruction::Pure(super::Pure::Put(self))
    }
}

impl IntoInstruction for Coerce {
    open spec fn instruction(self) -> InstructionView {
        InstructionView::Pure(PureView::Coerce(self.0))
    }

    fn into_instruction(self) -> (r: Instruction) {
        Instruction::Pure(super::Pure::Coerce(self))
    }
}

impl IntoInstruction for Parse {
    open spec fn instruction(self) -> InstructionView {
        InstructionView::Pure(PureView::Parse(self.0))
    }

    fn into_instruction(self) -> (r: Instruction) {
        Instruction::Pure(super::Pure::Parse(self))
    }
}

impl IntoInstruction for Op {
    open spec fn instruction(self) -> InstructionView {
        InstructionView::Pure(PureView::Op(self.0, self.1@))
    }

    fn into_instruction(self) -> (r: Instruction) {
        Instruction::Pure(super::Pure::Op(self))
    }
}

impl IntoInstruction for ToFallible {
    open spec fn instruction(self) -> InstructionView {
        InstructionView::Pure(PureView::ToFallible)
    }

    fn into_instruction(self) -> (r: Instruction) {
        Instruction::Pure(super::Pure::ToFallible(self))
    }
}

impl IntoInstruction for ToInfallible {
    open spec fn instruction(self) -> InstructionView {
        InstructionView::Pure(PureView::ToInfallible)
    }

    fn into_instruction(self) -> (r: Instruction) {
        Instruction::Pure(super::Pure::ToInfallible(self))
    }
}

impl IntoInstruction for Not {
    open spec fn instruction(self) -> InstructionView {
        InstructionView::Pure(PureView::Not)
    }

    fn into_instruction(self) -> (r: Instruction) {
        Instruction::Pure(super::Pure::Not(self))
    }
}

/// The instruction that applies `Add` to the return value and `value`.
#[must_use]
pub fn add(value: Value) -> (r: Op)
    ensures
        r.0 == Operation::Add,
        r.1 == value,
{
    Op(Operation::Add, value)
}

/// The instruction that applies `Sub` to the return value and `value`.
#[must_use]
pub fn sub(value: Value) -> (r: Op)
    ensures
        r.0 == Operation::Sub,
        r.1 == value,
{
    Op(Operation::Sub, value)
}

/// The instruction that applies `Mul` to the return value and `value`.
#[must_use]
pub fn mul(value: Value) -> (r: Op)
    ensures
        r.0 == Operation::Mul,
        r.1 == value,
{
    Op(Operation::Mul, value)
}

/// The instruction that applies `Div` to the return value and `value`.
#[must_use]
pub fn div(value: Value) -> (r: Op)
    ensures
        r.0 == Operation::Div,
        r.1 == value,
{
    Op(Operation::Div, value)
}

/// The instruction that applies `Eq` to the return value and `value`.
#[must_use]
pub fn eq(value: Value) -> (r: Op)
    ensures
        r.0 == Operation::Eq,
        r.1 == value,
{
    Op(Operation::Eq, value)
}

/// The instruction that applies `Lt` to the return value and `value`.
#[must_use]
pub fn lt(value: Value) -> (r: Op)
    ensures
        r.0 == Operation::Lt,
        r.1 == value,
{
    Op(Operation::Lt, value)
}

/// The instruction that applies `Le` to the return value and `value`.
#[must_use]
pub fn le(value: Value) -> (r: Op)
    ensures
        r.0 == Operation::Le,
        r.1 == value,
{
    Op(Operation::Le, value)
}

/// The instruction that applies `Gt` to the return value and `value`.
#[must_use]
pub fn gt(value: Value) -> (r: Op)
    ensures
        r.0 == Operation::Gt,
        r.1 == value,
{
    Op(Operation::Gt, value)
}

/// The instruction that applies `Ge` to the return value and `value`.
#[must_use]
pub fn ge(value: Value) -> (r: Op)
    ensures
        r.0 == Operation::Ge,
        r.1 == value,
{
    Op(Operation::Ge, value)
}

/// The instruction that applies `And` to the return value and `value`.
#[must_use]
pub fn and(value: Value) -> (r: Op)
    ensures
        r.0 == Operation::And,
        r.1 == value,
{
    Op(Operation::And, value)
}

/// The instruction that applies `Or` to the return value and `value`.
#[must_use]
pub fn or(value: Value) -> (r: Op)
    ensures
        r.0 == Operation::Or,
        r.1 == value,
{
    Op(Operation::Or, value)
}

} // verus!
