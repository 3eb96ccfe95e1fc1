//! The stack of instructions that are still to run.

use vstd::prelude::*;
use vstd::std_specs::convert::{FromSpec, FromSpecImpl};

use super::{instructions_view, Instruction, InstructionView, IntoInstruction};

verus! {

/// The instructions that are still to run; the last one runs next.
#[derive(Debug, PartialEq)]
pub struct Stack(pub(crate) Vec<Instruction>);

impl View for Stack {
    type V = Seq<InstructionView>;

    closed spec fn view(&self) -> Seq<InstructionView> {
        instructions_view(self.0@)
    }
}

impl Default for Stack {
    fn default() -> (r: Self)
        ensures
            r@ =~= Seq::empty(),
    {
        Stack(Vec::new())
    }
}

impl Clone for Stack {
    fn clone(&self) -> (r: Self)
        ensures
            r@ == self@,
    {
        Stack(super::clone_instructions(&self.0))
    }
}

impl From<Vec<Instruction>> for Stack {
    /// The stack that runs the instructions of a row from its last to its first.
    fn from(value: Vec<Instruction>) -> (r: Self) {
        Stack(value)
    }
}

impl FromSpecImpl<Vec<Instruction>> for Stack {
    open spec fn obeys_from_spec() -> bool {
        true
    }

    closed spec fn from_spec(value: Vec<Instruction>) -> Self {
        Stack(value)
    }
}

/// The stack made from a row of instructions holds them in their order.
pub proof fn lemma_stack_from(value: Vec<Instruction>)
    ensures
        <Stack as FromSpec<Vec<Instruction>>>::from_spec(value)@ == instructions_view(value@),
{
}

impl Stack {
    /// The empty stack.
    #[must_use]
    pub fn new() -> (r: Self)
        ensures
            r@ =~= Seq::empty(),
    {
        Stack(Vec::new())
    }

    /// The stack that runs the instructions of a row from its last to its first.
    pub fn from_vec(value: Vec<Instruction>) -> (r: Self)
        ensures
            r@ == instructions_view(value@),
    {
        Stack(value)
    }

    /// The number of instructions on the stack.
    pub fn len(&self) -> (n: usize)
        ensures
            n == self@.len(),
    {
        self.0.len()
    }

    /// Takes every instruction off the stack.
    pub fn clear(&mut self) -> (r: &mut Self)
        ensures
            r@ =~= Seq::empty(),
            *final(self) == *final(r),
    {
        self.0.clear();
        self
    }

    /// Puts an instruction on the stack: it runs next.
    pub fn push<I: IntoInstruction>(&mut self, instr: I) -> (r: &mut Self)
        ensures
            r@ == old(self)@.push(instr.instruction()),
            *final(self) == *final(r),
    {
        let instruction = instr.into_instruction();
        self.0.push(instruction);
        self
    }

    /// Puts the instructions of a row on the stack, from its first to its last: the
    /// last one runs next.
    pub fn extend(&mut self, instrs: Vec<Instruction>) -> (r: &mut Self)
        ensures
            r@ == old(self)@ + instructions_view(instrs@),
            *final(self) == *final(r),
    {
        let mut instrs = instrs;
        self.0.append(&mut instrs);
        self
    }

    /// Puts the instructions of a row on the stack, from its last to its first: the
    /// first one runs next.
    pub fn extend_reversed(&mut self, instrs: Vec<Instruction>) -> (r: &mut Self)
        ensures
            r@ == old(self)@ + instructions_view(instrs@).reverse(),
            *final(self) == *final(r),
    {
        super::push_reversed(&mut self.0, instrs);
        self
    }

    /// Takes the instruction that runs next off the stack.
    pub fn pop(&mut self) -> (r: Option<Instruction>)
        ensures
            r is Some == (old(self)@.len() > 0),
            r matches Some(i) ==> i@ == old(self)@.last() && final(self)@ == old(
                self,
            )@.drop_last(),
            r is None ==> final(self)@ == old(self)@,
    {
        let r = self.0.pop();
        r
    }
}

} // verus!
