//! Instructions that ask the host for a value.

use std::sync::Arc;
use vstd::prelude::*;

use super::traits::Loading;
use super::{Instruction, InstructionView, IntoInstruction, LoadingView};
use crate::host::{ask, outcome_result, Outcome, OutcomeModel, Request, RequestView};
use crate::program;
use crate::share::share;
use crate::value::{Value, ValueView};
use crate::Result;

verus! {

/// Runs a sub-program on the return value.
#[derive(Debug, PartialEq)]
pub struct Program(pub Arc<program::Program>);

/// Has the loader of the host turn the return value into another.
#[derive(Debug, Clone, Copy, PartialEq, Eq, Structural)]
pub struct Load;

impl Clone for Program {
    /// The copy shares the sub-program.
    fn clone(&self) -> (r: Self)
        ensures
            r.0 == self.0,
    {
        Program(share(&self.0))
    }
}

/// What a loading instruction comes to on a return value: work for the host.
pub open spec fn loading_spec(instruction: LoadingView, value: ValueView) -> OutcomeModel {
    match instruction {
        LoadingView::Program(p) => ask(RequestView::Run(*p, value)),
        LoadingView::Load => ask(RequestView::Load(value)),
    }
}

impl Loading for Program {
    fn perform(self, return_value: Value) -> (r: Result<Outcome>)
        ensures
            outcome_result(r) == loading_spec(
                LoadingView::Program(Box::new(self.0@)),
                return_value@,
            ),
    {
        Ok(Outcome::Request(Request::Run(program::unshare(self.0), return_value)))
    }
}

impl Loading for Load {
    fn perform(self, return_value: Value) -> (r: Result<Outcome>)
        ensures
            outcome_result(r) == loading_spec(LoadingView::Load, return_value@),
    {
        Ok(Outcome::Request(Request::Load(return_value)))
    }
}

impl IntoInstruction for Program {
    open spec fn instruction(self) -> InstructionView {
        InstructionView::Loading(LoadingView::Program(Box::new(self.0@)))
    }

    fn into_instruction(self) -> (r: Instruction) {
        Instruction::Loading(super::Loading::Program(self))
    }
}

impl IntoInstruction for Load {
    open spec fn instruction(self) -> InstructionView {
        InstructionView::Loading(LoadingView::Load)
    }

    fn into_instruction(self) -> (r: Instruction) {
        Instruction::Loading(super::Loading::Load(self))
    }
}

} // verus!
