//! A small virtual machine for a stack-executed instruction tree.
//!
//! A [`program::Program`] bundles a root [`instruction::Instruction`] with its
//! [`variable::Variables`]. Running it threads one [`value::Value`], the return value,
//! through the instructions that an explicit stack hands out. The machine itself only
//! decides: whatever needs the world around it (printing, sleeping, floating-point
//! arithmetic, loading, sub-programs) is handed to the host as a [`host::Request`].

use vstd::prelude::*;

pub mod dict;
pub mod float;
pub mod host;
pub mod instruction;
pub mod laws;
pub mod program;
mod share;
pub mod text;
pub mod value;
pub mod variable;

use instruction::{Instruction, InstructionView};
use value::{Operation, Type, Value, ValueView};
use variable::Id;

verus! {

/// Result alias used in the library.
pub type Result<T> = std::result::Result<T, Error>;

/// Error type in use by the library.
#[derive(Debug, PartialEq)]
pub enum Error {
    /// An attempt to get access to a variable through an id that names none.
    UnknownVariable(Id),
    /// An attempt to get read-write access to a read-only variable.
    WriteToReadOnly(Id),
    /// A perform instruction met a return value that is no instruction.
    PerformOnNonInstruction(Value),
    /// An operation was applied to two values that it does not accept.
    UnsuppurtedOperation(Operation, Value, Value),
    /// An integer was divided by zero.
    ZeroDiv(Value, Value),
    /// An integer operation left the range of 64-bit signed integers.
    IntegerOverOrUnderFlow { op: Operation, lhs: Value, rhs: Value },
    /// A cast failed on this value.
    FailedCast(Value, Type),
    /// The text does not write a value of the type.
    FailedParse(Type, Value),
    /// No cast leads from the first type to the second.
    InvalidCast(Type, Type, Value),
    /// Nothing can be parsed into this type.
    InvalidParse(Type),
    /// Only text can be parsed.
    NonStringParse(Value),
    /// The key is not in the container.
    InvalidAcces { key: Value, map: Value },
    /// The key is of the wrong type for a container of this type.
    WrongKeyType(Value, Type),
    /// The instruction does not accept this return value as its input.
    WrongInstructionInput(Value, Instruction),
    /// The loader does not load this value.
    UnloadableValue(Value),
}

/// The model of an [`Error`].
pub enum ErrorView {
    UnknownVariable(Id),
    WriteToReadOnly(Id),
    PerformOnNonInstruction(ValueView),
    UnsuppurtedOperation(Operation, ValueView, ValueView),
    ZeroDiv(ValueView, ValueView),
    IntegerOverOrUnderFlow { op: Operation, lhs: ValueView, rhs: ValueView },
    FailedCast(ValueView, Type),
    FailedParse(Type, ValueView),
    InvalidCast(Type, Type, ValueView),
    InvalidParse(Type),
    NonStringParse(ValueView),
    InvalidAcces { key: ValueView, map: ValueView },
    WrongKeyType(ValueView, Type),
    WrongInstructionInput(ValueView, InstructionView),
    UnloadableValue(ValueView),
}

impl View for Error {
    type V = ErrorView;

    open spec fn view(&self) -> ErrorView {
        match self {
            Error::UnknownVariable(id) => ErrorView::UnknownVariable(*id),
            Error::WriteToReadOnly(id) => ErrorView::WriteToReadOnly(*id),
            Error::PerformOnNonInstruction(v) => ErrorView::PerformOnNonInstruction(v@),
            Error::UnsuppurtedOperation(op, l, r) => ErrorView::UnsuppurtedOperation(*op, l@, r@),
            Error::ZeroDiv(l, r) => ErrorView::ZeroDiv(l@, r@),
            Error::IntegerOverOrUnderFlow { op, lhs, rhs } => ErrorView::IntegerOverOrUnderFlow {
                op: *op,
                lhs: lhs@,
                rhs: rhs@,
            },
            Error::FailedCast(v, t) => ErrorView::FailedCast(v@, *t),
            Error::FailedParse(t, v) => ErrorView::FailedParse(*t, v@),
            Error::InvalidCast(from, to, v) => ErrorView::InvalidCast(*from, *to, v@),
            Error::InvalidParse(t) => ErrorView::InvalidParse(*t),
            Error::NonStringParse(v) => ErrorView::NonStringParse(v@),
            Error::InvalidAcces { key, map } => ErrorView::InvalidAcces { key: key@, map: map@ },
            Error::WrongKeyType(k, t) => ErrorView::WrongKeyType(k@, *t),
            Error::WrongInstructionInput(v, i) => ErrorView::WrongInstructionInput(v@, i@),
            Error::UnloadableValue(v) => ErrorView::UnloadableValue(v@),
        }
    }
}

impl Clone for Error {
    fn clone(&self) -> (r: Self)
        ensures
            r@ == self@,
    {
        match self {
            Error::UnknownVariable(id) => Error::UnknownVariable(*id),
            Error::WriteToReadOnly(id) => Error::WriteToReadOnly(*id),
            Error::PerformOnNonInstruction(v) => Error::PerformOnNonInstruction(v.clone()),
            Error::UnsuppurtedOperation(op, l, r) => Error::UnsuppurtedOperation(
                *op,
                l.clone(),
                r.clone(),
            ),
            Error::ZeroDiv(l, r) => Error::ZeroDiv(l.clone(), r.clone()),
            Error::IntegerOverOrUnderFlow { op, lhs, rhs } => Error::IntegerOverOrUnderFlow {
                op: *op,
                lhs: lhs.clone(),
                rhs: rhs.clone(),
            },
            Error::FailedCast(v, t) => Error::FailedCast(v.clone(), *t),
            Error::FailedParse(t, v) => Error::FailedParse(*t, v.clone()),
            Error::InvalidCast(from, to, v) => Error::InvalidCast(*from, *to, v.clone()),
            Error::InvalidParse(t) => Error::InvalidParse(*t),
            Error::NonStringParse(v) => Error::NonStringParse(v.clone()),
            Error::InvalidAcces { key, map } => Error::InvalidAcces {
                key: key.clone(),
                map: map.clone(),
            },
            Error::WrongKeyType(k, t) => Error::WrongKeyType(k.clone(), *t),
            Error::WrongInstructionInput(v, i) => Error::WrongInstructionInput(
                v.clone(),
                i.clone(),
            ),
            Error::UnloadableValue(v) => Error::UnloadableValue(v.clone()),
        }
    }
}

/// The model of a result that carries a value.
pub type ValueModel = std::result::Result<ValueView, ErrorView>;

/// The model of a result that carries a value.
pub open spec fn value_result(r: Result<Value>) -> ValueModel {
    match r {
        Ok(v) => Ok(v@),
        Err(e) => Err(e@),
    }
}

} // verus!
