//! What an instruction of each family can do, and what a host supplies.

use vstd::prelude::*;

use super::Stack;
use crate::host::Outcome;
use crate::value::Value;
use crate::variable::Variables;
use crate::Result;

verus! {

/// An instruction that sees nothing but the return value.
pub trait Pure {
    fn perform(self, return_value: Value) -> Result<Outcome>;
}

/// An instruction that asks the host for a value.
pub trait Loading {
    fn perform(self, return_value: Value) -> Result<Outcome>;
}

/// An instruction that reads the variables.
pub trait Reading {
    fn perform(self, return_value: Value, variables: &Variables) -> Result<Outcome>;
}

/// An instruction that changes the variables.
pub trait Mutating {
    fn perform(self, return_value: Value, variables: Variables) -> Result<(Outcome, Variables)>;
}

/// An instruction that changes the stack.
pub trait Meta {
    fn perform(
        self,
        return_value: Value,
        variables: Variables,
        instruction_stack: Stack,
    ) -> Result<(Value, Variables, Stack)>;
}

/// An instruction that the host defines. It takes and gives back the whole state of
/// the machine.
pub trait External: std::fmt::Debug {
    fn perform(
        &self,
        return_value: Value,
        variables: Variables,
        instruction_stack: Stack,
    ) -> Result<(Value, Variables, Stack)>;
}

/// What answers a load instruction.
pub trait Loader {
    fn load(&self, value: Value) -> Result<Value>;
}

} // verus!
