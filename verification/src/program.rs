//! Programs, their builder, and the state of a run.

use std::sync::Arc;
use vstd::prelude::*;
use vstd::std_specs::cmp::PartialEqSpecImpl;

use crate::host::{
    fits, fulfil_spec, Answer, AnswerView, Outcome, OutcomeView, Request, RequestView,
};
use crate::instruction::loading::loading_spec;
use crate::instruction::meta::{meta_spec, List};
use crate::instruction::mutating::mutating_spec;
use crate::instruction::pure::pure_spec;
use crate::instruction::reading::reading_spec;
use crate::instruction::{
    clone_instructions, eq_instruction, instructions_view, Instruction, InstructionView,
    IntoInstruction, MetaView, Stack,
};
use crate::value::{eq_values, Value, ValueView};
use crate::variable::{Variables, VariablesView};
use crate::{value_result, ErrorView, Result, ValueModel};

verus! {

/// A root instruction with its variables; a fallible program gives `Nil` where its run
/// fails.
#[derive(Debug)]
pub struct Program {
    variables: Variables,
    instruction: Instruction,
    is_fallible: bool,
}

/// The model of a [`Program`].
pub struct ProgramView {
    pub variables: VariablesView,
    pub instruction: InstructionView,
    pub is_fallible: bool,
}

impl View for Program {
    type V = ProgramView;

    open spec fn view(&self) -> ProgramView {
        self.model()
    }
}

impl Program {
    /// The model of the program; `@` gives the same.
    pub closed spec fn model(&self) -> ProgramView
        decreases self,
    {
        ProgramView {
            variables: self.variables.model(),
            instruction: self.instruction.model(),
            is_fallible: self.is_fallible,
        }
    }
}

/// Equality of programs: equal variables, equal instructions, the same fallibility.
pub open spec fn eq_program(a: ProgramView, b: ProgramView) -> bool
    decreases a,
{
    &&& eq_values(a.variables.rw, b.variables.rw)
    &&& eq_values(a.variables.ro, b.variables.ro)
    &&& eq_instruction(a.instruction, b.instruction)
    &&& a.is_fallible == b.is_fallible
}

impl Clone for Program {
    fn clone(&self) -> (r: Self)
        ensures
            r@ == self@,
        decreases self,
    {
        Program {
            variables: self.variables.clone(),
            instruction: self.instruction.clone(),
            is_fallible: self.is_fallible,
        }
    }
}

impl Program {
    /// Whether the two programs are equal.
    pub fn equals(&self, other: &Program) -> (r: bool)
        ensures
            r == eq_program(self@, other@),
        decreases self,
    {
        self.variables.equals(&other.variables) && self.instruction.equals(&other.instruction)
            && self.is_fallible == other.is_fallible
    }
}

impl PartialEq for Program {
    fn eq(&self, other: &Self) -> (r: bool) {
        self.equals(other)
    }
}

impl PartialEqSpecImpl for Program {
    open spec fn obeys_eq_spec() -> bool {
        true
    }

    open spec fn eq_spec(&self, other: &Self) -> bool {
        eq_program(self@, other@)
    }
}

/// `Arc::unwrap_or_clone`, taken on trust: it gives the shared program itself where
/// nothing else shares it, and a copy made by `Program::clone` where something does.
/// Either has the model of the shared program; for the copy this is what `clone`
/// ensures.
#[verifier::external_body]
pub(crate) fn unshare(program: Arc<Program>) -> (r: Program)
    ensures
        r@ == program@,
{
    Arc::unwrap_or_clone(program)
}

impl Default for Program {
    /// The program that does nothing: no variables, `Noop`, not fallible.
    fn default() -> (r: Self)
        ensures
            r@.variables.rw =~= Seq::empty(),
            r@.variables.ro =~= Seq::empty(),
            r@.instruction == InstructionView::Noop,
            !r@.is_fallible,
    {
        Program {
            variables: Variables::default(),
            instruction: Instruction::Noop,
            is_fallible: false,
        }
    }
}

impl Program {
    /// The program with these parts.
    pub fn from_parts(variables: Variables, instruction: Instruction, is_fallible: bool) -> (r:
        Self)
        ensures
            r@ == (ProgramView { variables: variables@, instruction: instruction@, is_fallible }),
    {
        Program { variables, instruction, is_fallible }
    }

    /// The variables of the program.
    pub fn variables(&self) -> (r: &Variables)
        ensures
            r@ == self@.variables,
    {
        &self.variables
    }

    /// The root instruction of the program.
    pub fn instruction(&self) -> (r: &Instruction)
        ensures
            r@ == self@.instruction,
    {
        &self.instruction
    }

    /// The same program, fallible: where its run fails it gives `Nil`.
    #[must_use]
    pub fn into_fallible(self) -> (r: Self)
        ensures
            r@ == (ProgramView { is_fallible: true, ..self@ }),
    {
        Program { variables: self.variables, instruction: self.instruction, is_fallible: true }
    }

    /// The same program, infallible: where its run fails it gives the error.
    #[must_use]
    pub fn into_infallible(self) -> (r: Self)
        ensures
            r@ == (ProgramView { is_fallible: false, ..self@ }),
    {
        Program { variables: self.variables, instruction: self.instruction, is_fallible: false }
    }

    /// Whether the program is fallible.
    #[must_use]
    pub fn is_fallible(&self) -> (r: bool)
        ensures
            r == self@.is_fallible,
    {
        self.is_fallible
    }
}

/// The state of a run.
#[derive(Debug, PartialEq)]
pub enum Running {
    /// The run goes on with these variables, this stack and this return value.
    Active(Variables, Stack, Value),
    /// The run waits for the host to answer a request.
    Suspended(Variables, Stack, Request),
    /// The run is over.
    Finished(Result<Value>),
}

/// The model of a [`Running`].
pub enum RunningView {
    Active(VariablesView, Seq<InstructionView>, ValueView),
    Suspended(VariablesView, Seq<InstructionView>, RequestView),
    Finished(ValueModel),
}

impl View for Running {
    type V = RunningView;

    open spec fn view(&self) -> RunningView {
        match self {
            Running::Active(variables, stack, value) => RunningView::Active(
                variables@,
                stack@,
                value@,
            ),
            Running::Suspended(variables, stack, request) => RunningView::Suspended(
                variables@,
                stack@,
                request@,
            ),
            Running::Finished(result) => RunningView::Finished(value_result(*result)),
        }
    }
}

/// The model of what one instruction gives: an outcome, with the variables and the
/// stack after it, or an error.
pub type StepModel = std::result::Result<
    (OutcomeView, VariablesView, Seq<InstructionView>),
    ErrorView,
>;

/// The model of the result of one instruction.
pub open spec fn step_result(r: Result<(Outcome, Variables, Stack)>) -> StepModel {
    match r {
        Ok((outcome, variables, stack)) => Ok((outcome@, variables@, stack@)),
        Err(e) => Err(e@),
    }
}

/// What one instruction comes to on a return value, the variables and the stack.
/// `Noop` changes nothing; an instruction of the host is handed to the host.
pub open spec fn step_spec(
    instruction: InstructionView,
    value: ValueView,
    variables: VariablesView,
    stack: Seq<InstructionView>,
) -> StepModel {
    match instruction {
        InstructionView::Noop => Ok((OutcomeView::Value(value), variables, stack)),
        InstructionView::Pure(i) => match pure_spec(i, value) {
            Ok(outcome) => Ok((outcome, variables, stack)),
            Err(e) => Err(e),
        },
        InstructionView::Reading(i) => match reading_spec(i, value, variables) {
            Ok(outcome) => Ok((outcome, variables, stack)),
            Err(e) => Err(e),
        },
        InstructionView::Mutating(i) => match mutating_spec(i, value, variables) {
            Ok((outcome, variables)) => Ok((outcome, variables, stack)),
            Err(e) => Err(e),
        },
        InstructionView::Meta(i) => match meta_spec(i, value, variables, stack) {
            Ok((value, variables, stack)) => Ok((OutcomeView::Value(value), variables, stack)),
            Err(e) => Err(e),
        },
        InstructionView::Loading(i) => match loading_spec(i, value) {
            Ok(outcome) => Ok((outcome, variables, stack)),
            Err(e) => Err(e),
        },
        InstructionView::External(e) => Ok(
            (OutcomeView::Request(RequestView::External(e, value)), variables, stack),
        ),
    }
}

/// The state after one step: an active run with an empty stack is over, with its
/// return value; otherwise it performs the instruction on top of its stack. Any other
/// state stays as it is.
pub open spec fn progress_spec(state: RunningView) -> RunningView {
    match state {
        RunningView::Active(variables, stack, value) => if stack.len() == 0 {
            RunningView::Finished(Ok(value))
        } else {
            match step_spec(stack.last(), value, variables, stack.drop_last()) {
                Ok((OutcomeView::Value(v), variables, stack)) => RunningView::Active(
                    variables,
                    stack,
                    v,
                ),
                Ok((OutcomeView::Request(q), variables, stack)) => RunningView::Suspended(
                    variables,
                    stack,
                    q,
                ),
                Err(e) => RunningView::Finished(Err(e)),
            }
        },
        _ => state,
    }
}

/// The state after the host has answered: a run that waits for an answer of this kind
/// goes on with the value that the answer gives, or is over with its error. Any other
/// state stays as it is.
pub open spec fn resume_spec(state: RunningView, answer: AnswerView) -> RunningView {
    match state {
        RunningView::Suspended(variables, stack, request) => if fits(request, answer) {
            match fulfil_spec(request, answer) {
                Ok(v) => RunningView::Active(variables, stack, v),
                Err(e) => RunningView::Finished(Err(e)),
            }
        } else {
            state
        },
        _ => state,
    }
}

/// What a finished run gives to the host: a fallible program gives `Nil` in place of
/// an error.
pub open spec fn conclude_spec(is_fallible: bool, outcome: ValueModel) -> ValueModel {
    if is_fallible && outcome is Err {
        Ok(ValueView::Nil)
    } else {
        outcome
    }
}

/// The state in which a run of a program starts.
pub open spec fn run_spec(program: ProgramView, input: ValueView) -> RunningView {
    RunningView::Active(program.variables, seq![program.instruction], input)
}

/// A host, as the machine sees it: what a run that waits goes on as, once the host
/// has done the work that the run waits for.
pub type HostModel = spec_fn(RunningView) -> RunningView;

/// One turn of a run with a host: a step of the machine, and where the run then
/// waits, the work of the host.
pub open spec fn turn_spec(state: RunningView, host: HostModel) -> RunningView {
    let stepped = progress_spec(state);
    if stepped is Suspended {
        host(stepped)
    } else {
        stepped
    }
}

/// The state of a run after a number of turns.
pub open spec fn turns_spec(state: RunningView, host: HostModel, turns: nat) -> RunningView
    decreases turns,
{
    if turns == 0 {
        state
    } else {
        turns_spec(turn_spec(state, host), host, (turns - 1) as nat)
    }
}

/// What the host has from the run of a program on an input after a number of turns:
/// nothing while the run goes on, and what the program gives once the run is over.
pub open spec fn result_spec(
    program: ProgramView,
    input: ValueView,
    host: HostModel,
    turns: nat,
) -> Option<ValueModel> {
    match turns_spec(run_spec(program, input), host, turns) {
        RunningView::Finished(outcome) => Some(conclude_spec(program.is_fallible, outcome)),
        _ => None,
    }
}

impl Default for Running {
    fn default() -> (r: Self)
        ensures
            r@ == RunningView::Finished(Ok(ValueView::Nil)),
    {
        Running::Finished(Ok(Value::Nil))
    }
}

impl Running {
    /// Performs one instruction.
    fn handle_instruction(
        instr: Instruction,
        value: Value,
        variables: Variables,
        stack: Stack,
    ) -> (r: Result<(Outcome, Variables, Stack)>)
        ensures
            step_result(r) == step_spec(instr@, value@, variables@, stack@),
    {
        match instr {
            Instruction::Noop => Ok((Outcome::Value(value), variables, stack)),
            Instruction::Pure(instr) => match instr.perform(value) {
                Ok(outcome) => Ok((outcome, variables, stack)),
                Err(e) => Err(e),
            },
            Instruction::Reading(instr) => match instr.perform(value, &variables) {
                Ok(outcome) => Ok((outcome, variables, stack)),
                Err(e) => Err(e),
            },
            Instruction::Mutating(instr) => match instr.perform(value, variables) {
                Ok((outcome, variables)) => Ok((outcome, variables, stack)),
                Err(e) => Err(e),
            },
            Instruction::Meta(instr) => match instr.perform(value, variables, stack) {
                Ok((value, variables, stack)) => Ok((Outcome::Value(value), variables, stack)),
                Err(e) => Err(e),
            },
            Instruction::Loading(instr) => match instr.perform(value) {
                Ok(outcome) => Ok((outcome, variables, stack)),
                Err(e) => Err(e),
            },
            Instruction::External(instr) => Ok(
                (Outcome::Request(Request::External(instr, value)), variables, stack),
            ),
        }
    }

    /// Takes one step of the run.
    #[must_use]
    pub fn progress(self) -> (r: Self)
        ensures
            r@ == progress_spec(self@),
    {
        match self {
            Running::Active(variables, stack, value) => {
                let mut stack = stack;
                match stack.pop() {
                    None => Running::Finished(Ok(value)),
                    Some(instr) => match Self::handle_instruction(instr, value, variables, stack) {
                        Ok((Outcome::Value(value), variables, stack)) => Running::Active(
                            variables,
                            stack,
                            value,
                        ),
                        Ok((Outcome::Request(request), variables, stack)) => Running::Suspended(
                            variables,
                            stack,
                            request,
                        ),
                        Err(err) => Running::Finished(Err(err)),
                    },
                }
            },
            other => other,
        }
    }

    /// Takes one step of the run, in place.
    pub fn progress_in_place(&mut self)
        ensures
            final(self)@ == progress_spec(old(self)@),
    {
        let mut state = Running::default();
        std::mem::swap(self, &mut state);
        *self = state.progress();
    }

    /// Goes on with the answer of the host to the request that the run waits for.
    #[must_use]
    pub fn resume(self, answer: Answer) -> (r: Self)
        ensures
            r@ == resume_spec(self@, answer@),
    {
        match self {
            Running::Suspended(variables, stack, request) => match request.fulfil(answer) {
                Ok(Ok(value)) => Running::Active(variables, stack, value),
                Ok(Err(err)) => Running::Finished(Err(err)),
                Err(request) => Running::Suspended(variables, stack, request),
            },
            other => other,
        }
    }

    /// The state after an instruction of the host has been performed: the run goes on
    /// with what the instruction gave back, or is over with its error.
    #[must_use]
    pub fn after_external(result: Result<(Value, Variables, Stack)>) -> (r: Self)
        ensures
            r@ == (match result {
                Ok((value, variables, stack)) => RunningView::Active(variables@, stack@, value@),
                Err(e) => RunningView::Finished(Err(e@)),
            }),
    {
        match result {
            Ok((value, variables, stack)) => Running::Active(variables, stack, value),
            Err(err) => Running::Finished(Err(err)),
        }
    }
}

impl Program {
    /// Starts a run of the program on an input.
    #[must_use]
    pub fn run(self, input: Value) -> (r: Running)
        ensures
            r@ == run_spec(self@, input@),
    {
        let mut stack = Stack::new();
        stack.push(self.instruction);
        Running::Active(self.variables, stack, input)
    }

    /// What a finished run gives to the host: a fallible program gives `Nil` in place
    /// of an error.
    pub fn conclude(is_fallible: bool, outcome: Result<Value>) -> (r: Result<Value>)
        ensures
            value_result(r) == conclude_spec(is_fallible, value_result(outcome)),
    {
        match outcome {
            Ok(value) => Ok(value),
            Err(err) => if is_fallible {
                Ok(Value::Nil)
            } else {
                Err(err)
            },
        }
    }
}

/// Collects the instructions of a program before it is built.
#[derive(Debug)]
pub struct Builder {
    instruction_vec: Vec<Instruction>,
    is_fallible: bool,
}

/// The root instruction of a program with these instructions: `Noop` for none, the
/// instruction itself for one, a list for more.
pub open spec fn root_spec(instructions: Seq<InstructionView>) -> InstructionView {
    if instructions.len() == 0 {
        InstructionView::Noop
    } else if instructions.len() == 1 {
        instructions[0]
    } else {
        InstructionView::Meta(MetaView::List(instructions))
    }
}

impl Clone for Builder {
    fn clone(&self) -> (r: Self)
        ensures
            r.instructions() == self.instructions(),
            r.fallible() == self.fallible(),
    {
        Builder {
            instruction_vec: clone_instructions(&self.instruction_vec),
            is_fallible: self.is_fallible,
        }
    }
}

impl Default for Builder {
    fn default() -> (r: Self)
        ensures
            r.instructions() =~= Seq::empty(),
            !r.fallible(),
    {
        Builder { instruction_vec: Vec::new(), is_fallible: false }
    }
}

impl Builder {
    /// The instructions collected so far.
    pub closed spec fn instructions(&self) -> Seq<InstructionView> {
        instructions_view(self.instruction_vec@)
    }

    /// Whether the program will be fallible.
    pub closed spec fn fallible(&self) -> bool {
        self.is_fallible
    }

    /// A builder without instructions, for a program that is not fallible.
    #[must_use]
    pub fn new() -> (r: Self)
        ensures
            r.instructions() =~= Seq::empty(),
            !r.fallible(),
    {
        Builder { instruction_vec: Vec::new(), is_fallible: false }
    }

    /// Adds an instruction after those collected so far.
    pub fn push_instruction(&mut self, instruction: Instruction) -> (r: &mut Self)
        ensures
            r.instructions() == old(self).instructions().push(instruction@),
            r.fallible() == old(self).fallible(),
            *final(self) == *final(r),
    {
        self.instruction_vec.push(instruction);
        self
    }

    /// Says whether the program will be fallible.
    pub fn is_fallible(&mut self, is_fallible: bool) -> (r: &mut Self)
        ensures
            r.instructions() == old(self).instructions(),
            r.fallible() == is_fallible,
            *final(self) == *final(r),
    {
        self.is_fallible = is_fallible;
        self
    }

    /// The program of the instructions collected, with these variables.
    #[must_use]
    pub fn build(self, variable_map: Variables) -> (r: Program)
        ensures
            r@ == (ProgramView {
                variables: variable_map@,
                instruction: root_spec(self.instructions()),
                is_fallible: self.fallible(),
            }),
    {
        let Builder { mut instruction_vec, is_fallible } = self;
        let instruction = if instruction_vec.len() == 0 {
            Instruction::Noop
        } else if instruction_vec.len() == 1 {
            let only = instruction_vec.pop().unwrap();
            only
        } else {
            List(instruction_vec).into_instruction()
        };
        Program { is_fallible, variables: variable_map, instruction }
    }
}

} // verus!
