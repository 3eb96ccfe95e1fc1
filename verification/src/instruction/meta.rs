//! Instructions that change the stack.

use vstd::prelude::*;

use super::traits::Meta;
use super::{
    instructions_view, pure, Instruction, InstructionView, IntoInstruction, MetaView, PureView,
    Stack,
};
use crate::value::{Value, ValueView};
use crate::variable::{read_mut_spec, read_spec, written_spec, Id, Variables, VariablesView};
use crate::{Error, ErrorView, Result};

verus! {

/// Runs its instructions from the first to the last.
#[derive(Debug, PartialEq)]
pub struct List(pub Vec<Instruction>);

/// Ends the run with the return value as it is.
#[derive(Debug, Clone, Copy, PartialEq, Eq, Structural)]
pub struct Return;

/// Runs the instruction that is the return value, and then hands on its own value.
#[derive(Debug, PartialEq)]
pub struct Perform(pub Value);

/// Like [`Perform`], with a copy of a variable as the value handed on.
#[derive(Debug, Clone, Copy, PartialEq, Eq, Structural)]
pub struct PerformClone(pub Id);

/// Like [`Perform`], with the value taken out of a variable as the value handed on.
#[derive(Debug, Clone, Copy, PartialEq, Eq, Structural)]
pub struct PerformTake(pub Id);

impl Clone for List {
    fn clone(&self) -> (r: Self)
        ensures
            instructions_view(r.0@) == instructions_view(self.0@),
        decreases self,
    {
        List(super::clone_instructions(&self.0))
    }
}

impl Clone for Perform {
    fn clone(&self) -> (r: Self)
        ensures
            r.0@ == self.0@,
        decreases self,
    {
        Perform(self.0.clone())
    }
}

/// The model of what a meta instruction gives: the return value, the variables and
/// the stack after it, or an error.
pub type MetaModel = std::result::Result<
    (ValueView, VariablesView, Seq<InstructionView>),
    ErrorView,
>;

/// The model of the result of a meta instruction.
pub open spec fn meta_result(r: Result<(Value, Variables, Stack)>) -> MetaModel {
    match r {
        Ok((value, variables, stack)) => Ok((value@, variables@, stack@)),
        Err(e) => Err(e@),
    }
}

/// The stack that runs the instruction `body` next and then hands on the value
/// `bound`.
pub open spec fn performing(
    stack: Seq<InstructionView>,
    bound: ValueView,
    body: InstructionView,
) -> Seq<InstructionView> {
    stack.push(InstructionView::Pure(PureView::Put(bound))).push(body)
}

/// What a meta instruction comes to on a return value, the variables and the stack.
pub open spec fn meta_spec(
    instruction: MetaView,
    value: ValueView,
    variables: VariablesView,
    stack: Seq<InstructionView>,
) -> MetaModel {
    match instruction {
        MetaView::List(list) => Ok((ValueView::Nil, variables, stack + list.reverse())),
        MetaView::Return => Ok((value, variables, Seq::empty())),
        MetaView::Perform(bound) => match value {
            ValueView::Instruction(body) => Ok(
                (ValueView::Nil, variables, performing(stack, bound, *body)),
            ),
            _ => Err(ErrorView::PerformOnNonInstruction(value)),
        },
        MetaView::PerformClone(id) => match value {
            ValueView::Instruction(body) => match read_spec(variables, id) {
                Ok(bound) => Ok((ValueView::Nil, variables, performing(stack, bound, *body))),
                Err(e) => Err(e),
            },
            _ => Err(ErrorView::PerformOnNonInstruction(value)),
        },
        MetaView::PerformTake(id) => match value {
            ValueView::Instruction(body) => match read_mut_spec(variables, id) {
                Ok(bound) => Ok(
                    (
                        ValueView::Nil,
                        written_spec(variables, id, ValueView::Nil),
                        performing(stack, bound, *body),
                    ),
                ),
                Err(e) => Err(e),
            },
            _ => Err(ErrorView::PerformOnNonInstruction(value)),
        },
    }
}

/// Puts on the stack what a perform instruction asks for.
fn start(stack: Stack, bound: Value, body: Instruction) -> (r: Stack)
    ensures
        r@ == performing(stack@, bound@, body@),
{
    let mut stack = stack;
    stack.push(pure::Put(bound));
    stack.push(body);
    stack
}

impl Meta for List {
    fn perform(self, return_value: Value, variables: Variables, instruction_stack: Stack) -> (r:
        Result<(Value, Variables, Stack)>)
        ensures
            meta_result(r) == meta_spec(
                MetaView::List(instructions_view(self.0@)),
                return_value@,
                variables@,
                instruction_stack@,
            ),
    {
        let mut stack = instruction_stack;
        stack.extend_reversed(self.0);
        Ok((Value::Nil, variables, stack))
    }
}

impl Meta for Return {
    fn perform(self, return_value: Value, variables: Variables, instruction_stack: Stack) -> (r:
        Result<(Value, Variables, Stack)>)
        ensures
            meta_result(r) == meta_spec(
                MetaView::Return,
                return_value@,
                variables@,
                instruction_stack@,
            ),
    {
        let mut stack = instruction_stack;
        stack.clear();
        Ok((return_value, variables, stack))
    }
}

impl Meta for Perform {
    fn perform(self, return_value: Value, variables: Variables, instruction_stack: Stack) -> (r:
        Result<(Value, Variables, Stack)>)
        ensures
            meta_result(r) == meta_spec(
                MetaView::Perform(self.0@),
                return_value@,
                variables@,
                instruction_stack@,
            ),
    {
        match return_value {
            Value::Instruction(instruction) => Ok(
                (Value::Nil, variables, start(instruction_stack, self.0, *instruction)),
            ),
            value => Err(Error::PerformOnNonInstruction(value)),
        }
    }
}

impl Meta for PerformClone {
    fn perform(self, return_value: Value, variables: Variables, instruction_stack: Stack) -> (r:
        Result<(Value, Variables, Stack)>)
        ensures
            meta_result(r) == meta_spec(
                MetaView::PerformClone(self.0),
                return_value@,
                variables@,
                instruction_stack@,
            ),
    {
        match return_value {
            Value::Instruction(instruction) => {
                let bound = match variables.read(self.0) {
                    Ok(v) => v.clone(),
                    Err(e) => {
                        return Err(e);
                    },
                };
                Ok((Value::Nil, variables, start(instruction_stack, bound, *instruction)))
            },
            value => Err(Error::PerformOnNonInstruction(value)),
        }
    }
}

impl Meta for PerformTake {
    fn perform(self, return_value: Value, variables: Variables, instruction_stack: Stack) -> (r:
        Result<(Value, Variables, Stack)>)
        ensures
            meta_result(r) == meta_spec(
                MetaView::PerformTake(self.0),
                return_value@,
                variables@,
                instruction_stack@,
            ),
    {
        match return_value {
            Value::Instruction(instruction) => {
                let mut variables = variables;
                let mut bound = Value::Nil;
                match variables.read_mut(self.0) {
                    Ok(slot) => {
                        std::mem::swap(slot, &mut bound);
                    },
                    Err(e) => {
                        return Err(e);
                    },
                }
                Ok((Value::Nil, variables, start(instruction_stack, bound, *instruction)))
            },
            value => Err(Error::PerformOnNonInstruction(value)),
        }
    }
}

impl IntoInstruction for List {
    open spec fn instruction(self) -> InstructionView {
        InstructionView::Meta(MetaView::List(instructions_view(self.0@)))
    }

    fn into_instruction(self) -> (r: Instruction) {
        Instruction::Meta(super::Meta::List(self))
    }
}

impl IntoInstruction for Return {
    open spec fn instruction(self) -> InstructionView {
        InstructionView::Meta(MetaView::Return)
    }

    fn into_instruction(self) -> (r: Instruction) {
        Instruction::Meta(super::Meta::Return(self))
    }
}

impl IntoInstruction for Perform {
    open spec fn instruction(self) -> InstructionView {
        InstructionView::Meta(MetaView::Perform(self.0@))
    }

    fn into_instruction(self) -> (r: Instruction) {
        Instruction::Meta(super::Meta::Perform(self))
    }
}

impl IntoInstruction for PerformClone {
    open spec fn instruction(self) -> InstructionView {
        InstructionView::Meta(MetaView::PerformClone(self.0))
    }

    fn into_instruction(self) -> (r: Instruction) {
        Instruction::Meta(super::Meta::PerformClone(self))
    }
}

impl IntoInstruction for PerformTake {
    open spec fn instruction(self) -> InstructionView {
        InstructionView::Meta(MetaView::PerformTake(self.0))
    }

    fn into_instruction(self) -> (r: Instruction) {
        Instruction::Meta(super::Meta::PerformTake(self))
    }
}

} // verus!
