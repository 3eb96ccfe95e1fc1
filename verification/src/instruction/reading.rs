//! Instructions that read the variables.

use vstd::prelude::*;

use super::traits::Reading;
use super::{Instruction, InstructionView, IntoInstruction};
use crate::host::{done, outcome_result, Outcome, OutcomeModel};
use crate::value::{apply_spec, get_spec, Operation, Value};
use crate::variable::{read_spec, Id, Variables, VariablesView};
use crate::Result;

verus! {

/// Gives a copy of a variable.
#[derive(Debug, Clone, Copy, PartialEq, Eq, Structural)]
pub struct Clone(pub Id);

/// Looks the return value up, as a key or an index, in a variable and gives a copy of
/// what it finds.
#[derive(Debug, Clone, Copy, PartialEq, Eq, Structural)]
pub struct GetClone(pub Id);

/// Applies an operation to the return value and a copy of a variable.
#[derive(Debug, Clone, Copy, PartialEq, Eq, Structural)]
pub struct OpClone(pub Operation, pub Id);

/// What a reading instruction comes to on a return value and the variables.
pub open spec fn reading_spec(
    instruction: super::Reading,
    value: crate::value::ValueView,
    variables: VariablesView,
) -> OutcomeModel {
    match instruction {
        super::Reading::Clone(i) => match read_spec(variables, i.0) {
            Ok(v) => done(v),
            Err(e) => Err(e),
        },
        super::Reading::GetClone(i) => match read_spec(variables, i.0) {
            Ok(container) => match get_spec(container, value) {
                Ok(v) => done(v),
                Err(e) => Err(e),
            },
            Err(e) => Err(e),
        },
        super::Reading::OpClone(i) => match read_spec(variables, i.1) {
            Ok(v) => apply_spec(i.0, value, v),
            Err(e) => Err(e),
        },
    }
}

impl Reading for Clone {
    fn perform(self, return_value: Value, variables: &Variables) -> (r: Result<Outcome>)
        ensures
            outcome_result(r) == reading_spec(
                super::Reading::Clone(self),
                return_value@,
                variables@,
            ),
    {
        match variables.read(self.0) {
            Ok(v) => Ok(Outcome::Value(v.clone())),
            Err(e) => Err(e),
        }
    }
}

impl Reading for GetClone {
    fn perform(self, return_value: Value, variables: &Variables) -> (r: Result<Outcome>)
        ensures
            outcome_result(r) == reading_spec(
                super::Reading::GetClone(self),
                return_value@,
                variables@,
            ),
    {
        match variables.read(self.0) {
            Ok(container) => match container.get(return_value) {
                Ok(v) => Ok(Outcome::Value(v.clone())),
                Err(e) => Err(e),
            },
            Err(e) => Err(e),
        }
    }
}

impl Reading for OpClone {
    fn perform(self, return_value: Value, variables: &Variables) -> (r: Result<Outcome>)
        ensures
            outcome_result(r) == reading_spec(
                super::Reading::OpClone(self),
                return_value@,
                variables@,
            ),
    {
        match variables.read(self.1) {
            Ok(v) => self.0.apply(return_value, v.clone()),
            Err(e) => Err(e),
        }
    }
}

impl IntoInstruction for Clone {
    open spec fn instruction(self) -> InstructionView {
        InstructionView::Reading(super::Reading::Clone(self))
    }

    fn into_instruction(self) -> (r: Instruction) {
        Instruction::Reading(super::Reading::Clone(self))
    }
}

impl IntoInstruction for GetClone {
    open spec fn instruction(self) -> InstructionView {
        InstructionView::Reading(super::Reading::GetClone(self))
    }

    fn into_instruction(self) -> (r: Instruction) {
        Instruction::Reading(super::Reading::GetClone(self))
    }
}

impl IntoInstruction for OpClone {
    open spec fn instruction(self) -> InstructionView {
        InstructionView::Reading(super::Reading::OpClone(self))
    }

    fn into_instruction(self) -> (r: Instruction) {
        Instruction::Reading(super::Reading::OpClone(self))
    }
}

/// The instruction that applies `Add` to the return value and a copy of a variable.
#[must_use]
pub fn add_clone(id: Id) -> (r: OpClone)
    ensures
        r == OpClone(Operation::Add, id),
{
    OpClone(Operation::Add, id)
}

/// The instruction that applies `Sub` to the return value and a copy of a variable.
#[must_use]
pub fn sub_clone(id: Id) -> (r: OpClone)
    ensures
        r == OpClone(Operation::Sub, id),
{
    OpClone(Operation::Sub, id)
}

/// The instruction that applies `Mul` to the return value and a copy of a variable.
#[must_use]
pub fn mul_clone(id: Id) -> (r: OpClone)
    ensures
        r == OpClone(Operation::Mul, id),
{
    OpClone(Operation::Mul, id)
}

/// The instruction that applies `Div` to the return value and a copy of a variable.
#[must_use]
pub fn div_clone(id: Id) -> (r: OpClone)
    ensures
        r == OpClone(Operation::Div, id),
{
    OpClone(Operation::Div, id)
}

/// The instruction that applies `Eq` to the return value and a copy of a variable.
#[must_use]
pub fn eq_clone(id: Id) -> (r: OpClone)
    ensures
        r == OpClone(Operation::Eq, id),
{
    OpClone(Operation::Eq, id)
}

/// The instruction that applies `Lt` to the return value and a copy of a variable.
#[must_use]
pub fn lt_clone(id: Id) -> (r: OpClone)
    ensures
        r == OpClone(Operation::Lt, id),
{
    OpClone(Operation::Lt, id)
}

/// The instruction that applies `Le` to the return value and a copy of a variable.
#[must_use]
pub fn le_clone(id: Id) -> (r: OpClone)
    ensures
        r == OpClone(Operation::Le, id),
{
    OpClone(Operation::Le, id)
}

/// The instruction that applies `Gt` to the return value and a copy of a variable.
#[must_use]
pub fn gt_clone(id: Id) -> (r: OpClone)
    ensures
        r == OpClone(Operation::Gt, id),
{
    OpClone(Operation::Gt, id)
}

/// The instruction that applies `Ge` to the return value and a copy of a variable.
#[must_use]
pub fn ge_clone(id: Id) -> (r: OpClone)
    ensures
        r == OpClone(Operation::Ge, id),
{
    OpClone(Operation::Ge, id)
}

/// The instruction that applies `And` to the return value and a copy of a variable.
#[must_use]
pub fn and_clone(id: Id) -> (r: OpClone)
    ensures
        r == OpClone(Operation::And, id),
{
    OpClone(Operation::And, id)
}

/// The instruction that applies `Or` to the return value and a copy of a variable.
#[must_use]
pub fn or_clone(id: Id) -> (r: OpClone)
    ensures
        r == OpClone(Operation::Or, id),
{
    OpClone(Operation::Or, id)
}

} // verus!
