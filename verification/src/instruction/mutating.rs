//! Instructions that change the variables.

use vstd::prelude::*;

use super::traits::Mutating;
use super::{Instruction, InstructionView, IntoInstruction, MutatingView};
use crate::host::{Outcome, OutcomeView};
use crate::value::{apply_spec, get_mut_spec, stored_spec, taken_spec, Operation, Value, ValueView};
use crate::variable::{maybe_read_spec, read_mut_spec, written_spec, Id, Variables, VariablesView};
use crate::{ErrorView, Result};

verus! {

/// Takes a variable's value out and leaves `Nil` in its place.
#[derive(Debug, Clone, Copy, PartialEq, Eq, Structural)]
pub struct Take(pub Id);

/// Stores the return value in a variable.
#[derive(Debug, Clone, Copy, PartialEq, Eq, Structural)]
pub struct Assign(pub Id);

/// Stores the return value in a variable and gives what was there.
#[derive(Debug, Clone, Copy, PartialEq, Eq, Structural)]
pub struct Swap(pub Id);

/// Looks the return value up, as a key or an index, in a variable and takes out what
/// it finds.
#[derive(Debug, Clone, Copy, PartialEq, Eq, Structural)]
pub struct GetTake(pub Id);

/// Stores the return value under a key inside a variable.
#[derive(Debug, PartialEq)]
pub struct MapAssign {
    pub map: Id,
    pub key: Value,
}

/// Applies an operation to the return value and the value taken out of a variable.
#[derive(Debug, Clone, Copy, PartialEq, Eq, Structural)]
pub struct OpTake(pub Operation, pub Id);

impl Clone for MapAssign {
    fn clone(&self) -> (r: Self)
        ensures
            r.map == self.map,
            r.key@ == self.key@,
        decreases self,
    {
        MapAssign { map: self.map, key: self.key.clone() }
    }
}

/// The model of what a mutating instruction gives: an outcome and the variables after
/// it, or an error.
pub type MutatingModel = std::result::Result<(OutcomeView, VariablesView), ErrorView>;

/// The model of the result of a mutating instruction.
pub open spec fn mutating_result(r: Result<(Outcome, Variables)>) -> MutatingModel {
    match r {
        Ok((o, v)) => Ok((o@, v@)),
        Err(e) => Err(e@),
    }
}

/// What taking the container's element at a key out of a variable comes to.
pub open spec fn get_take_spec(
    id: Id,
    value: ValueView,
    variables: VariablesView,
) -> MutatingModel {
    match maybe_read_spec(variables, value) {
        Ok(key) => match read_mut_spec(variables, id) {
            Ok(container) => match get_mut_spec(container, key) {
                Ok(v) => Ok(
                    (
                        OutcomeView::Value(v),
                        written_spec(variables, id, taken_spec(container, key)),
                    ),
                ),
                Err(e) => Err(e),
            },
            Err(e) => Err(e),
        },
        Err(e) => Err(e),
    }
}

/// What storing a value at a key inside a variable comes to.
pub open spec fn map_assign_spec(
    map: Id,
    key: ValueView,
    value: ValueView,
    variables: VariablesView,
) -> MutatingModel {
    match maybe_read_spec(variables, key) {
        Ok(key) => match read_mut_spec(variables, map) {
            Ok(container) => match get_mut_spec(container, key) {
                Ok(_) => Ok(
                    (
                        OutcomeView::Value(ValueView::Nil),
                        written_spec(variables, map, stored_spec(container, key, value)),
                    ),
                ),
                Err(e) => Err(e),
            },
            Err(e) => Err(e),
        },
        Err(e) => Err(e),
    }
}

/// What a mutating instruction comes to on a return value and the variables.
pub open spec fn mutating_spec(
    instruction: MutatingView,
    value: ValueView,
    variables: VariablesView,
) -> MutatingModel {
    match instruction {
        MutatingView::Take(id) => match read_mut_spec(variables, id) {
            Ok(v) => Ok((OutcomeView::Value(v), written_spec(variables, id, ValueView::Nil))),
            Err(e) => Err(e),
        },
        MutatingView::Assign(id) => match read_mut_spec(variables, id) {
            Ok(_) => Ok((OutcomeView::Value(ValueView::Nil), written_spec(variables, id, value))),
            Err(e) => Err(e),
        },
        MutatingView::Swap(id) => match read_mut_spec(variables, id) {
            Ok(v) => Ok((OutcomeView::Value(v), written_spec(variables, id, value))),
            Err(e) => Err(e),
        },
        MutatingView::GetTake(id) => get_take_spec(id, value, variables),
        MutatingView::MapAssign { map, key } => map_assign_spec(map, key, value, variables),
        MutatingView::OpTake(op, id) => match read_mut_spec(variables, id) {
            Ok(v) => match apply_spec(op, value, v) {
                Ok(o) => Ok((o, written_spec(variables, id, ValueView::Nil))),
                Err(e) => Err(e),
            },
            Err(e) => Err(e),
        },
    }
}

/// Puts `value` in the place of a variable and gives what was there.
fn exchange(variables: Variables, id: Id, value: Value) -> (r: Result<(Value, Variables)>)
    ensures
        match r {
            Ok((v, after)) => read_mut_spec(variables@, id) == Ok::<ValueView, ErrorView>(v@)
                && after@ == written_spec(variables@, id, value@),
            Err(e) => read_mut_spec(variables@, id) == Err::<ValueView, ErrorView>(e@),
        },
{
    let mut variables = variables;
    let mut value = value;
    match variables.read_mut(id) {
        Ok(slot) => {
            std::mem::swap(slot, &mut value);
        },
        Err(e) => {
            return Err(e);
        },
    }
    Ok((value, variables))
}

impl Mutating for Take {
    fn perform(self, return_value: Value, variables: Variables) -> (r: Result<
        (Outcome, Variables),
    >)
        ensures
            mutating_result(r) == mutating_spec(
                MutatingView::Take(self.0),
                return_value@,
                variables@,
            ),
    {
        match exchange(variables, self.0, Value::Nil) {
            Ok((v, variables)) => Ok((Outcome::Value(v), variables)),
            Err(e) => Err(e),
        }
    }
}

impl Mutating for Assign {
    fn perform(self, return_value: Value, variables: Variables) -> (r: Result<
        (Outcome, Variables),
    >)
        ensures
            mutating_result(r) == mutating_spec(
                MutatingView::Assign(self.0),
                return_value@,
                variables@,
            ),
    {
        match exchange(variables, self.0, return_value) {
            Ok((_, variables)) => Ok((Outcome::Value(Value::Nil), variables)),
            Err(e) => Err(e),
        }
    }
}

impl Mutating for Swap {
    fn perform(self, return_value: Value, variables: Variables) -> (r: Result<
        (Outcome, Variables),
    >)
        ensures
            mutating_result(r) == mutating_spec(
                MutatingView::Swap(self.0),
                return_value@,
                variables@,
            ),
    {
        match exchange(variables, self.0, return_value) {
            Ok((v, variables)) => Ok((Outcome::Value(v), variables)),
            Err(e) => Err(e),
        }
    }
}

impl Mutating for GetTake {
    fn perform(self, return_value: Value, variables: Variables) -> (r: Result<
        (Outcome, Variables),
    >)
        ensures
            mutating_result(r) == mutating_spec(
                MutatingView::GetTake(self.0),
                return_value@,
                variables@,
            ),
    {
        let mut variables = variables;
        let key = match variables.maybe_read(return_value) {
            Ok(key) => key,
            Err(e) => {
                return Err(e);
            },
        };
        let taken = match variables.read_mut(self.0) {
            Ok(container) => container.get_take(key),
            Err(e) => {
                return Err(e);
            },
        };
        match taken {
            Ok(v) => Ok((Outcome::Value(v), variables)),
            Err(e) => Err(e),
        }
    }
}

impl Mutating for MapAssign {
    fn perform(self, return_value: Value, variables: Variables) -> (r: Result<
        (Outcome, Variables),
    >)
        ensures
            mutating_result(r) == mutating_spec(
                MutatingView::MapAssign { map: self.map, key: self.key@ },
                return_value@,
                variables@,
            ),
    {
        let mut variables = variables;
        let key = match variables.maybe_read(self.key) {
            Ok(key) => key,
            Err(e) => {
                return Err(e);
            },
        };
        match variables.read_mut(self.map) {
            Ok(container) => match container.get_mut(key) {
                Ok(slot) => {
                    *slot = return_value;
                },
                Err(e) => {
                    return Err(e);
                },
            },
            Err(e) => {
                return Err(e);
            },
        }
        Ok((Outcome::Value(Value::Nil), variables))
    }
}

impl Mutating for OpTake {
    fn perform(self, return_value: Value, variables: Variables) -> (r: Result<
        (Outcome, Variables),
    >)
        ensures
            mutating_result(r) == mutating_spec(
                MutatingView::OpTake(self.0, self.1),
                return_value@,
                variables@,
            ),
    {
        match exchange(variables, self.1, Value::Nil) {
            Ok((v, variables)) => match self.0.apply(return_value, v) {
                Ok(o) => Ok((o, variables)),
                Err(e) => Err(e),
            },
            Err(e) => Err(e),
        }
    }
}

impl IntoInstruction for Take {
    open spec fn instruction(self) -> InstructionView {
        InstructionView::Mutating(MutatingView::Take(self.0))
    }

    fn into_instruction(self) -> (r: Instruction) {
        Instruction::Mutating(super::Mutating::Take(self))
    }
}

impl IntoInstruction for Assign {
    open spec fn instruction(self) -> InstructionView {
        InstructionView::Mutating(MutatingView::Assign(self.0))
    }

    fn into_instruction(self) -> (r: Instruction) {
        Instruction::Mutating(super::Mutating::Assign(self))
    }
}

impl IntoInstruction for Swap {
    open spec fn instruction(self) -> InstructionView {
        InstructionView::Mutating(MutatingView::Swap(self.0))
    }

    fn into_instruction(self) -> (r: Instruction) {
        Instruction::Mutating(super::Mutating::Swap(self))
    }
}

impl IntoInstruction for GetTake {
    open spec fn instruction(self) -> InstructionView {
        InstructionView::Mutating(MutatingView::GetTake(self.0))
    }

    fn into_instruction(self) -> (r: Instruction) {
        Instruction::Mutating(super::Mutating::GetTake(self))
    }
}

impl IntoInstruction for MapAssign {
    open spec fn instruction(self) -> InstructionView {
        InstructionView::Mutating(MutatingView::MapAssign { map: self.map, key: self.key@ })
    }

    fn into_instruction(self) -> (r: Instruction) {
        Instruction::Mutating(super::Mutating::MapAssign(self))
    }
}

impl IntoInstruction for OpTake {
    open spec fn instruction(self) -> InstructionView {
        InstructionView::Mutating(MutatingView::OpTake(self.0, self.1))
    }

    fn into_instruction(self) -> (r: Instruction) {
        Instruction::Mutating(super::Mutating::OpTake(self))
    }
}

/// The instruction that applies `Add` to the return value and the value taken out of a
/// variable.
#[must_use]
pub fn add_take(id: Id) -> (r: OpTake)
    ensures
        r == OpTake(Operation::Add, id),
{
    OpTake(Operation::Add, id)
}

/// The instruction that applies `Sub` to the return value and the value taken out of a
/// variable.
#[must_use]
pub fn sub_take(id: Id) -> (r: OpTake)
    ensures
        r == OpTake(Operation::Sub, id),
{
    OpTake(Operation::Sub, id)
}

/// The instruction that applies `Mul` to the return value and the value taken out of a
/// variable.
#[must_use]
pub fn mul_take(id: Id) -> (r: OpTake)
    ensures
        r == OpTake(Operation::Mul, id),
{
    OpTake(Operation::Mul, id)
}

/// The instruction that applies `Div` to the return value and the value taken out of a
/// variable.
#[must_use]
pub fn div_take(id: Id) -> (r: OpTake)
    ensures
        r == OpTake(Operation::Div, id),
{
    OpTake(Operation::Div, id)
}

/// The instruction that applies `Eq` to the return value and the value taken out of a
/// variable.
#[must_use]
pub fn eq_take(id: Id) -> (r: OpTake)
    ensures
        r == OpTake(Operation::Eq, id),
{
    OpTake(Operation::Eq, id)
}

/// The instruction that applies `Lt` to the return value and the value taken out of a
/// variable.
#[must_use]
pub fn lt_take(id: Id) -> (r: OpTake)
    ensures
        r == OpTake(Operation::Lt, id),
{
    OpTake(Operation::Lt, id)
}

/// The instruction that applies `Le` to the return value and the value taken out of a
/// variable.
#[must_use]
pub fn le_take(id: Id) -> (r: OpTake)
    ensures
        r == OpTake(Operation::Le, id),
{
    OpTake(Operation::Le, id)
}

/// The instruction that applies `Gt` to the return value and the value taken out of a
/// variable.
#[must_use]
pub fn gt_take(id: Id) -> (r: OpTake)
    ensures
        r == OpTake(Operation::Gt, id),
{
    OpTake(Operation::Gt, id)
}

/// The instruction that applies `Ge` to the return value and the value taken out of a
/// variable.
#[must_use]
pub fn ge_take(id: Id) -> (r: OpTake)
    ensures
        r == OpTake(Operation::Ge, id),
{
    OpTake(Operation::Ge, id)
}

/// The instruction that applies `And` to the return value and the value taken out of a
/// variable.
#[must_use]
pub fn and_take(id: Id) -> (r: OpTake)
    ensures
        r == OpTake(Operation::And, id),
{
    OpTake(Operation::And, id)
}

/// The instruction that applies `Or` to the return value and the value taken out of a
/// variable.
#[must_use]
pub fn or_take(id: Id) -> (r: OpTake)
    ensures
        r == OpTake(Operation::Or, id),
{
    OpTake(Operation::Or, id)
}

} // verus!
