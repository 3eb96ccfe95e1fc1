//! The instructions of the machine, in five families, and one that the host defines.

use std::sync::Arc;
use vstd::prelude::*;
use vstd::std_specs::cmp::PartialEqSpecImpl;

pub mod loading;
pub mod meta;
pub mod mutating;
pub mod pure;
pub mod reading;
pub mod traits;

mod stack;

pub use stack::Stack;

use crate::host::{outcome_result, Outcome};
use crate::program::{eq_program, ProgramView};
use crate::value::{eq_value, Operation, Type, Value, ValueView};
use crate::variable::{Id, Variables};
use crate::{value_result, Error, ErrorView, Result};

verus! {

/// An instruction.
#[derive(Debug)]
pub enum Instruction {
    /// Does nothing.
    Noop,
    Pure(Pure),
    Reading(Reading),
    Mutating(Mutating),
    Meta(Meta),
    Loading(Loading),
    External(External),
}

/// The instructions that see nothing but the return value.
#[derive(Debug)]
pub enum Pure {
    Sleep(pure::Sleep),
    Debug(pure::Debug),
    Cond(pure::Cond),
    Put(pure::Put),
    Coerce(pure::Coerce),
    Parse(pure::Parse),
    Op(pure::Op),
    ToFallible(pure::ToFallible),
    ToInfallible(pure::ToInfallible),
    Not(pure::Not),
}

/// The instructions that read the variables.
#[derive(Debug, Clone, Copy, PartialEq, Eq, Structural)]
pub enum Reading {
    Clone(reading::Clone),
    GetClone(reading::GetClone),
    OpClone(reading::OpClone),
}

/// The instructions that change the variables.
#[derive(Debug)]
pub enum Mutating {
    Take(mutating::Take),
    Assign(mutating::Assign),
    Swap(mutating::Swap),
    GetTake(mutating::GetTake),
    MapAssign(mutating::MapAssign),
    OpTake(mutating::OpTake),
}

/// The instructions that change the stack.
#[derive(Debug)]
pub enum Meta {
    List(meta::List),
    Return(meta::Return),
    Perform(meta::Perform),
    PerformClone(meta::PerformClone),
    PerformTake(meta::PerformTake),
}

/// The instructions that ask the host for a value.
#[derive(Debug)]
pub enum Loading {
    Program(loading::Program),
    Load(loading::Load),
}

/// An instruction that the host defines. The machine carries it and hands it back to
/// the host when its turn comes; it never looks inside, and the verifier does not
/// either: to it the object behind the pointer is opaque.
#[verifier::external_body]
#[derive(Debug)]
pub struct External(pub Arc<dyn traits::External>);

/// The model of a [`Pure`] instruction.
pub enum PureView {
    Sleep,
    Debug,
    Cond { if_true: ValueView, if_false: ValueView },
    Put(ValueView),
    Coerce(Type),
    Parse(Type),
    Op(Operation, ValueView),
    ToFallible,
    ToInfallible,
    Not,
}

/// The model of a [`Mutating`] instruction.
pub enum MutatingView {
    Take(Id),
    Assign(Id),
    Swap(Id),
    GetTake(Id),
    MapAssign { map: Id, key: ValueView },
    OpTake(Operation, Id),
}

/// The model of a [`Meta`] instruction.
pub enum MetaView {
    List(Seq<InstructionView>),
    Return,
    Perform(ValueView),
    PerformClone(Id),
    PerformTake(Id),
}

/// The model of a [`Loading`] instruction.
pub enum LoadingView {
    Program(Box<ProgramView>),
    Load,
}

/// The model of an [`Instruction`].
pub enum InstructionView {
    Noop,
    Pure(PureView),
    Reading(Reading),
    Mutating(MutatingView),
    Meta(MetaView),
    Loading(LoadingView),
    External(External),
}

/// The models of a row of instructions.
pub open spec fn instructions_view(xs: Seq<Instruction>) -> Seq<InstructionView>
    decreases xs,
{
    Seq::new(
        xs.len(),
        |i: int|
            if 0 <= i < xs.len() {
                xs[i].model()
            } else {
                InstructionView::Noop
            },
    )
}

impl View for Instruction {
    type V = InstructionView;

    open spec fn view(&self) -> InstructionView {
        self.model()
    }
}

impl Instruction {
    /// The model of the instruction; `@` gives the same.
    pub open spec fn model(&self) -> InstructionView
        decreases self,
    {
        match self {
            Instruction::Noop => InstructionView::Noop,
            Instruction::Pure(i) => InstructionView::Pure(i.model()),
            Instruction::Reading(i) => InstructionView::Reading(*i),
            Instruction::Mutating(i) => InstructionView::Mutating(i.model()),
            Instruction::Meta(i) => InstructionView::Meta(i.model()),
            Instruction::Loading(i) => InstructionView::Loading(i.model()),
            Instruction::External(e) => InstructionView::External(*e),
        }
    }
}

impl View for Pure {
    type V = PureView;

    open spec fn view(&self) -> PureView {
        self.model()
    }
}

impl Pure {
    /// The model of the instruction; `@` gives the same.
    pub open spec fn model(&self) -> PureView
        decreases self,
    {
        match self {
            Pure::Sleep(_) => PureView::Sleep,
            Pure::Debug(_) => PureView::Debug,
            Pure::Cond(c) => PureView::Cond {
                if_true: c.if_true.model(),
                if_false: c.if_false.model(),
            },
            Pure::Put(p) => PureView::Put(p.0.model()),
            Pure::Coerce(c) => PureView::Coerce(c.0),
            Pure::Parse(p) => PureView::Parse(p.0),
            Pure::Op(o) => PureView::Op(o.0, o.1.model()),
            Pure::ToFallible(_) => PureView::ToFallible,
            Pure::ToInfallible(_) => PureView::ToInfallible,
            Pure::Not(_) => PureView::Not,
        }
    }
}

impl View for Mutating {
    type V = MutatingView;

    open spec fn view(&self) -> MutatingView {
        self.model()
    }
}

impl Mutating {
    /// The model of the instruction; `@` gives the same.
    pub open spec fn model(&self) -> MutatingView
        decreases self,
    {
        match self {
            Mutating::Take(i) => MutatingView::Take(i.0),
            Mutating::Assign(i) => MutatingView::Assign(i.0),
            Mutating::Swap(i) => MutatingView::Swap(i.0),
            Mutating::GetTake(i) => MutatingView::GetTake(i.0),
            Mutating::MapAssign(i) => MutatingView::MapAssign { map: i.map, key: i.key.model() },
            Mutating::OpTake(i) => MutatingView::OpTake(i.0, i.1),
        }
    }
}

impl View for Meta {
    type V = MetaView;

    open spec fn view(&self) -> MetaView {
        self.model()
    }
}

impl Meta {
    /// The model of the instruction; `@` gives the same.
    pub open spec fn model(&self) -> MetaView
        decreases self,
    {
        match self {
            Meta::List(l) => MetaView::List(instructions_view(l.0@)),
            Meta::Return(_) => MetaView::Return,
            Meta::Perform(p) => MetaView::Perform(p.0.model()),
            Meta::PerformClone(p) => MetaView::PerformClone(p.0),
            Meta::PerformTake(p) => MetaView::PerformTake(p.0),
        }
    }
}

impl View for Loading {
    type V = LoadingView;

    open spec fn view(&self) -> LoadingView {
        self.model()
    }
}

impl Loading {
    /// The model of the instruction; `@` gives the same.
    pub open spec fn model(&self) -> LoadingView
        decreases self,
    {
        match self {
            Loading::Program(p) => LoadingView::Program(Box::new(p.0.model())),
            Loading::Load(_) => LoadingView::Load,
        }
    }
}

/// Equality of instructions: by kind and content. An instruction of the host equals
/// nothing, itself included.
pub open spec fn eq_instruction(a: InstructionView, b: InstructionView) -> bool
    decreases a,
{
    match (a, b) {
        (InstructionView::Noop, InstructionView::Noop) => true,
        (InstructionView::Pure(x), InstructionView::Pure(y)) => eq_pure(x, y),
        (InstructionView::Reading(x), InstructionView::Reading(y)) => x == y,
        (InstructionView::Mutating(x), InstructionView::Mutating(y)) => eq_mutating(x, y),
        (InstructionView::Meta(x), InstructionView::Meta(y)) => eq_meta(x, y),
        (InstructionView::Loading(x), InstructionView::Loading(y)) => eq_loading(x, y),
        _ => false,
    }
}

/// Equality of two rows of instructions: place by place.
pub open spec fn eq_instructions(a: Seq<InstructionView>, b: Seq<InstructionView>) -> bool
    decreases a,
{
    &&& a.len() == b.len()
    &&& forall|i: int| 0 <= i < a.len() ==> eq_instruction(#[trigger] a[i], b[i])
}

/// Equality of pure instructions.
pub open spec fn eq_pure(a: PureView, b: PureView) -> bool
    decreases a,
{
    match (a, b) {
        (PureView::Sleep, PureView::Sleep) => true,
        (PureView::Debug, PureView::Debug) => true,
        (
            PureView::Cond { if_true: t1, if_false: f1 },
            PureView::Cond { if_true: t2, if_false: f2 },
        ) => eq_value(t1, t2) && eq_value(f1, f2),
        (PureView::Put(x), PureView::Put(y)) => eq_value(x, y),
        (PureView::Coerce(x), PureView::Coerce(y)) => x == y,
        (PureView::Parse(x), PureView::Parse(y)) => x == y,
        (PureView::Op(o1, x), PureView::Op(o2, y)) => o1 == o2 && eq_value(x, y),
        (PureView::ToFallible, PureView::ToFallible) => true,
        (PureView::ToInfallible, PureView::ToInfallible) => true,
        (PureView::Not, PureView::Not) => true,
        _ => false,
    }
}

/// Equality of mutating instructions.
pub open spec fn eq_mutating(a: MutatingView, b: MutatingView) -> bool
    decreases a,
{
    match (a, b) {
        (
            MutatingView::MapAssign { map: m1, key: k1 },
            MutatingView::MapAssign { map: m2, key: k2 },
        ) => m1 == m2 && eq_value(k1, k2),
        (MutatingView::MapAssign { .. }, _) => false,
        (_, MutatingView::MapAssign { .. }) => false,
        _ => a == b,
    }
}

/// Equality of meta instructions.
pub open spec fn eq_meta(a: MetaView, b: MetaView) -> bool
    decreases a,
{
    match (a, b) {
        (MetaView::List(x), MetaView::List(y)) => eq_instructions(x, y),
        (MetaView::Return, MetaView::Return) => true,
        (MetaView::Perform(x), MetaView::Perform(y)) => eq_value(x, y),
        (MetaView::PerformClone(x), MetaView::PerformClone(y)) => x == y,
        (MetaView::PerformTake(x), MetaView::PerformTake(y)) => x == y,
        _ => false,
    }
}

/// Equality of loading instructions.
pub open spec fn eq_loading(a: LoadingView, b: LoadingView) -> bool
    decreases a,
{
    match (a, b) {
        (LoadingView::Program(x), LoadingView::Program(y)) => eq_program(*x, *y),
        (LoadingView::Load, LoadingView::Load) => true,
        _ => false,
    }
}

/// `Arc::clone` on the pointer inside, taken on trust: the result is claimed to be one
/// more handle on the same instruction of the host.
#[verifier::external_body]
fn share(external: &External) -> (r: External)
    ensures
        r == *external,
{
    External(external.0.clone())
}

impl Clone for External {
    fn clone(&self) -> (r: External)
        ensures
            r == *self,
    {
        share(self)
    }
}

impl PartialEq for External {
    /// No instruction of the host equals another, or itself.
    fn eq(&self, other: &Self) -> (r: bool) {
        false
    }
}

impl PartialEqSpecImpl for External {
    open spec fn obeys_eq_spec() -> bool {
        true
    }

    open spec fn eq_spec(&self, other: &Self) -> bool {
        false
    }
}

impl Default for Instruction {
    fn default() -> (r: Self)
        ensures
            r == Instruction::Noop,
    {
        Instruction::Noop
    }
}

/// The list of these instructions, as an instruction.
pub fn instruction_list(instructions: Vec<Instruction>) -> (r: Instruction)
    ensures
        r@ == InstructionView::Meta(MetaView::List(instructions_view(instructions@))),
{
    Instruction::Meta(Meta::List(meta::List(instructions)))
}

/// The instruction that `value` makes, or `Noop` where there is none.
pub fn from_option<T: IntoInstruction>(value: Option<T>) -> (r: Instruction)
    ensures
        r@ == (match value {
            Some(i) => i.instruction(),
            None => InstructionView::Noop,
        }),
{
    match value {
        Some(value) => value.into_instruction(),
        None => Instruction::Noop,
    }
}

/// Copies a row of instructions.
pub fn clone_instructions(xs: &Vec<Instruction>) -> (out: Vec<Instruction>)
    ensures
        instructions_view(out@) == instructions_view(xs@),
    decreases xs,
{
    let mut out: Vec<Instruction> = Vec::new();
    let mut i: usize = 0;
    while i < xs.len()
        invariant
            i <= xs@.len(),
            out@.len() == i,
            forall|j: int| 0 <= j < i ==> out@[j]@ == xs@[j]@,
        decreases xs@.len() - i,
    {
        let x = xs[i].clone();
        out.push(x);
        i = i + 1;
    }
    out
}

/// Compares two rows of instructions place by place.
pub fn equal_instructions(xs: &Vec<Instruction>, ys: &Vec<Instruction>) -> (r: bool)
    ensures
        r == eq_instructions(instructions_view(xs@), instructions_view(ys@)),
    decreases xs,
{
    if xs.len() != ys.len() {
        return false;
    }
    let mut i: usize = 0;
    while i < xs.len()
        invariant
            i <= xs@.len(),
            xs@.len() == ys@.len(),
            forall|j: int| 0 <= j < i ==> eq_instruction(xs@[j]@, ys@[j]@),
        decreases xs@.len() - i,
    {
        if !xs[i].equals(&ys[i]) {
            assert(instructions_view(xs@)[i as int] == xs@[i as int]@);
            return false;
        }
        i = i + 1;
    }
    true
}

impl Clone for Instruction {
    fn clone(&self) -> (r: Self)
        ensures
            r@ == self@,
        decreases self,
    {
        match self {
            Instruction::Noop => Instruction::Noop,
            Instruction::Pure(i) => Instruction::Pure(i.clone()),
            Instruction::Reading(i) => Instruction::Reading(*i),
            Instruction::Mutating(i) => Instruction::Mutating(i.clone()),
            Instruction::Meta(i) => Instruction::Meta(i.clone()),
            Instruction::Loading(i) => Instruction::Loading(i.clone()),
            Instruction::External(e) => Instruction::External(e.clone()),
        }
    }
}

impl Instruction {
    /// Whether the two instructions are equal.
    pub fn equals(&self, other: &Instruction) -> (r: bool)
        ensures
            r == eq_instruction(self@, other@),
        decreases self,
    {
        match (self, other) {
            (Instruction::Noop, Instruction::Noop) => true,
            (Instruction::Pure(x), Instruction::Pure(y)) => x.equals(y),
            (Instruction::Reading(x), Instruction::Reading(y)) => *x == *y,
            (Instruction::Mutating(x), Instruction::Mutating(y)) => x.equals(y),
            (Instruction::Meta(x), Instruction::Meta(y)) => x.equals(y),
            (Instruction::Loading(x), Instruction::Loading(y)) => x.equals(y),
            _ => false,
        }
    }

    /// Whether the instruction is `Noop`.
    pub fn is_noop(&self) -> (r: bool)
        ensures
            r == (self@ is Noop),
    {
        match self {
            Instruction::Noop => true,
            _ => false,
        }
    }
}

impl PartialEq for Instruction {
    fn eq(&self, other: &Self) -> (r: bool) {
        self.equals(other)
    }
}

impl PartialEqSpecImpl for Instruction {
    open spec fn obeys_eq_spec() -> bool {
        true
    }

    open spec fn eq_spec(&self, other: &Self) -> bool {
        eq_instruction(self@, other@)
    }
}

impl Clone for Pure {
    fn clone(&self) -> (r: Self)
        ensures
            r@ == self@,
        decreases self,
    {
        match self {
            Pure::Sleep(i) => Pure::Sleep(*i),
            Pure::Debug(i) => Pure::Debug(*i),
            Pure::Cond(c) => Pure::Cond(c.clone()),
            Pure::Put(p) => Pure::Put(p.clone()),
            Pure::Coerce(i) => Pure::Coerce(*i),
            Pure::Parse(i) => Pure::Parse(*i),
            Pure::Op(o) => Pure::Op(o.clone()),
            Pure::ToFallible(i) => Pure::ToFallible(*i),
            Pure::ToInfallible(i) => Pure::ToInfallible(*i),
            Pure::Not(i) => Pure::Not(*i),
        }
    }
}

impl Pure {
    /// Whether the two instructions are equal.
    pub fn equals(&self, other: &Pure) -> (r: bool)
        ensures
            r == eq_pure(self@, other@),
        decreases self,
    {
        match (self, other) {
            (Pure::Sleep(_), Pure::Sleep(_)) => true,
            (Pure::Debug(_), Pure::Debug(_)) => true,
            (Pure::Cond(x), Pure::Cond(y)) => x.if_true.equals(&y.if_true) && x.if_false.equals(
                &y.if_false,
            ),
            (Pure::Put(x), Pure::Put(y)) => x.0.equals(&y.0),
            (Pure::Coerce(x), Pure::Coerce(y)) => x.0 == y.0,
            (Pure::Parse(x), Pure::Parse(y)) => x.0 == y.0,
            (Pure::Op(x), Pure::Op(y)) => x.0 == y.0 && x.1.equals(&y.1),
            (Pure::ToFallible(_), Pure::ToFallible(_)) => true,
            (Pure::ToInfallible(_), Pure::ToInfallible(_)) => true,
            (Pure::Not(_), Pure::Not(_)) => true,
            _ => false,
        }
    }
}

impl Clone for Mutating {
    fn clone(&self) -> (r: Self)
        ensures
            r@ == self@,
        decreases self,
    {
        match self {
            Mutating::Take(i) => Mutating::Take(*i),
            Mutating::Assign(i) => Mutating::Assign(*i),
            Mutating::Swap(i) => Mutating::Swap(*i),
            Mutating::GetTake(i) => Mutating::GetTake(*i),
            Mutating::MapAssign(i) => Mutating::MapAssign(i.clone()),
            Mutating::OpTake(i) => Mutating::OpTake(*i),
        }
    }
}

impl Mutating {
    /// Whether the two instructions are equal.
    pub fn equals(&self, other: &Mutating) -> (r: bool)
        ensures
            r == eq_mutating(self@, other@),
        decreases self,
    {
        match (self, other) {
            (Mutating::Take(x), Mutating::Take(y)) => x.0 == y.0,
            (Mutating::Assign(x), Mutating::Assign(y)) => x.0 == y.0,
            (Mutating::Swap(x), Mutating::Swap(y)) => x.0 == y.0,
            (Mutating::GetTake(x), Mutating::GetTake(y)) => x.0 == y.0,
            (Mutating::MapAssign(x), Mutating::MapAssign(y)) => x.map == y.map && x.key.equals(
                &y.key,
            ),
            (Mutating::OpTake(x), Mutating::OpTake(y)) => x.0 == y.0 && x.1 == y.1,
            _ => false,
        }
    }
}

impl Clone for Meta {
    fn clone(&self) -> (r: Self)
        ensures
            r@ == self@,
        decreases self,
    {
        match self {
            Meta::List(l) => Meta::List(l.clone()),
            Meta::Return(i) => Meta::Return(*i),
            Meta::Perform(p) => Meta::Perform(p.clone()),
            Meta::PerformClone(i) => Meta::PerformClone(*i),
            Meta::PerformTake(i) => Meta::PerformTake(*i),
        }
    }
}

impl Meta {
    /// Whether the two instructions are equal.
    pub fn equals(&self, other: &Meta) -> (r: bool)
        ensures
            r == eq_meta(self@, other@),
        decreases self,
    {
        match (self, other) {
            (Meta::List(x), Meta::List(y)) => equal_instructions(&x.0, &y.0),
            (Meta::Return(_), Meta::Return(_)) => true,
            (Meta::Perform(x), Meta::Perform(y)) => x.0.equals(&y.0),
            (Meta::PerformClone(x), Meta::PerformClone(y)) => x.0 == y.0,
            (Meta::PerformTake(x), Meta::PerformTake(y)) => x.0 == y.0,
            _ => false,
        }
    }
}

impl Clone for Loading {
    fn clone(&self) -> (r: Self)
        ensures
            r@ == self@,
        decreases self,
    {
        match self {
            Loading::Program(p) => Loading::Program(p.clone()),
            Loading::Load(i) => Loading::Load(*i),
        }
    }
}

impl Loading {
    /// Whether the two instructions are equal.
    pub fn equals(&self, other: &Loading) -> (r: bool)
        ensures
            r == eq_loading(self@, other@),
        decreases self,
    {
        match (self, other) {
            (Loading::Program(x), Loading::Program(y)) => (*x.0).equals(&*y.0),
            (Loading::Load(_), Loading::Load(_)) => true,
            _ => false,
        }
    }
}

/// What can be made into an instruction.
pub trait IntoInstruction: Sized {
    /// The model of the instruction that `self` makes.
    spec fn instruction(self) -> InstructionView;

    fn into_instruction(self) -> (r: Instruction)
        ensures
            r@ == self.instruction(),
    ;
}

impl IntoInstruction for Instruction {
    open spec fn instruction(self) -> InstructionView {
        self@
    }

    fn into_instruction(self) -> (r: Instruction) {
        self
    }
}

impl Pure {
    /// Performs the instruction on a return value.
    pub fn perform(self, rval: Value) -> (r: Result<Outcome>)
        ensures
            outcome_result(r) == pure::pure_spec(self@, rval@),
    {
        match self {
            Pure::Sleep(i) => traits::Pure::perform(i, rval),
            Pure::Debug(i) => traits::Pure::perform(i, rval),
            Pure::Cond(i) => traits::Pure::perform(i, rval),
            Pure::Put(i) => traits::Pure::perform(i, rval),
            Pure::Coerce(i) => traits::Pure::perform(i, rval),
            Pure::Parse(i) => traits::Pure::perform(i, rval),
            Pure::Op(i) => traits::Pure::perform(i, rval),
            Pure::ToFallible(i) => traits::Pure::perform(i, rval),
            Pure::ToInfallible(i) => traits::Pure::perform(i, rval),
            Pure::Not(i) => traits::Pure::perform(i, rval),
        }
    }
}

impl Reading {
    /// Performs the instruction on a return value and the variables.
    pub fn perform(self, rval: Value, map: &Variables) -> (r: Result<Outcome>)
        ensures
            outcome_result(r) == reading::reading_spec(self, rval@, map@),
    {
        match self {
            Reading::Clone(i) => traits::Reading::perform(i, rval, map),
            Reading::GetClone(i) => traits::Reading::perform(i, rval, map),
            Reading::OpClone(i) => traits::Reading::perform(i, rval, map),
        }
    }
}

impl Mutating {
    /// Performs the instruction on a return value and the variables.
    pub fn perform(self, rval: Value, map: Variables) -> (r: Result<(Outcome, Variables)>)
        ensures
            mutating::mutating_result(r) == mutating::mutating_spec(self@, rval@, map@),
    {
        match self {
            Mutating::Take(i) => traits::Mutating::perform(i, rval, map),
            Mutating::Assign(i) => traits::Mutating::perform(i, rval, map),
            Mutating::Swap(i) => traits::Mutating::perform(i, rval, map),
            Mutating::GetTake(i) => traits::Mutating::perform(i, rval, map),
            Mutating::MapAssign(i) => traits::Mutating::perform(i, rval, map),
            Mutating::OpTake(i) => traits::Mutating::perform(i, rval, map),
        }
    }
}

impl Meta {
    /// Performs the instruction on a return value, the variables and the stack.
    pub fn perform(self, rval: Value, map: Variables, stack: Stack) -> (r: Result<
        (Value, Variables, Stack),
    >)
        ensures
            meta::meta_result(r) == meta::meta_spec(self@, rval@, map@, stack@),
    {
        match self {
            Meta::List(i) => traits::Meta::perform(i, rval, map, stack),
            Meta::Return(i) => traits::Meta::perform(i, rval, map, stack),
            Meta::Perform(i) => traits::Meta::perform(i, rval, map, stack),
            Meta::PerformClone(i) => traits::Meta::perform(i, rval, map, stack),
            Meta::PerformTake(i) => traits::Meta::perform(i, rval, map, stack),
        }
    }
}

impl Loading {
    /// Performs the instruction on a return value: it hands the work to the host.
    pub fn perform(self, rval: Value) -> (r: Result<Outcome>)
        ensures
            outcome_result(r) == loading::loading_spec(self@, rval@),
    {
        match self {
            Loading::Program(i) => traits::Loading::perform(i, rval),
            Loading::Load(i) => traits::Loading::perform(i, rval),
        }
    }
}

/// The loader that loads nothing.
#[derive(Clone, Copy, Debug)]
pub struct DefaultLoader;

impl traits::Loader for DefaultLoader {
    fn load(&self, value: Value) -> (r: Result<Value>)
        ensures
            value_result(r) == Err::<ValueView, ErrorView>(ErrorView::UnloadableValue(value@)),
    {
        Err(Error::UnloadableValue(value))
    }
}

/// Whether the instruction is a list, and of what.
pub open spec fn listed(i: InstructionView) -> Option<Seq<InstructionView>> {
    match i {
        InstructionView::Meta(MetaView::List(xs)) => Some(xs),
        _ => None,
    }
}

/// The instructions of a row in their order, with each list among them replaced by
/// the leaves of its own instructions.
pub open spec fn leaves(xs: Seq<InstructionView>) -> Seq<InstructionView>
    decreases xs,
{
    if xs.len() == 0 {
        Seq::empty()
    } else {
        leaves(xs.drop_last()) + (match xs.last() {
            InstructionView::Meta(MetaView::List(ys)) => leaves(ys),
            other => seq![other],
        })
    }
}

/// The number of instructions in a row, those inside its lists counted too.
pub open spec fn weight(xs: Seq<InstructionView>) -> nat
    decreases xs,
{
    if xs.len() == 0 {
        0
    } else {
        weight(xs.drop_last()) + 1 + (match xs.last() {
            InstructionView::Meta(MetaView::List(ys)) => weight(ys),
            _ => 0,
        })
    }
}

/// The instruction without lists inside lists: a list becomes `Noop` if it has no
/// leaves, its one leaf if it has one, and the list of its leaves otherwise. Any other
/// instruction stays as it is.
pub open spec fn flatten_spec(i: InstructionView) -> InstructionView {
    match i {
        InstructionView::Meta(MetaView::List(xs)) => {
            let flat = leaves(xs);
            if flat.len() == 0 {
                InstructionView::Noop
            } else if flat.len() == 1 {
                flat[0]
            } else {
                InstructionView::Meta(MetaView::List(flat))
            }
        },
        _ => i,
    }
}

/// The leaves and the weight of two rows joined are those of the rows, joined and
/// added.
pub proof fn lemma_leaves_of_joined(a: Seq<InstructionView>, b: Seq<InstructionView>)
    ensures
        leaves(a + b) == leaves(a) + leaves(b),
        weight(a + b) == weight(a) + weight(b),
    decreases b.len(),
{
    if b.len() > 0 {
        lemma_leaves_of_joined(a, b.drop_last());
        assert((a + b).drop_last() =~= a + b.drop_last());
    }
}

/// The leaves and the weight of a row with one instruction.
pub proof fn lemma_leaves_of_one(x: InstructionView)
    ensures
        leaves(seq![x]) == (match x {
            InstructionView::Meta(MetaView::List(ys)) => leaves(ys),
            other => seq![other],
        }),
        weight(seq![x]) == 1 + (match x {
            InstructionView::Meta(MetaView::List(ys)) => weight(ys),
            _ => 0,
        }),
{
    let one = seq![x];
    assert(one.drop_last() =~= Seq::empty());
    assert(leaves(Seq::<InstructionView>::empty()) =~= Seq::empty());
    assert(weight(Seq::<InstructionView>::empty()) == 0);
}

/// Puts the instructions of a row on a stack, from its last to its first.
pub(crate) fn push_reversed(stack: &mut Vec<Instruction>, list: Vec<Instruction>)
    ensures
        instructions_view(final(stack)@) == instructions_view(old(stack)@) + instructions_view(
            list@,
        ).reverse(),
{
    let mut list = list;
    let ghost all = instructions_view(list@);
    let ghost below = instructions_view(stack@);
    while list.len() > 0
        invariant
            list@.len() <= all.len(),
            instructions_view(list@) == all.take(list@.len() as int),
            instructions_view(stack@) == below + all.skip(list@.len() as int).reverse(),
        decreases list@.len(),
    {
        let ghost rest = instructions_view(list@);
        let ghost before = stack@;
        let instruction = list.pop().unwrap();
        proof {
            assert(rest.last() == instruction@);
        }
        stack.push(instruction);
        assert(instructions_view(stack@) =~= instructions_view(before).push(instruction@));
    }
}

impl Instruction {
    /// The list inside the instruction, if it is one.
    fn into_list(self) -> (r: std::result::Result<Vec<Instruction>, Instruction>)
        ensures
            match r {
                Ok(list) => listed(self@) == Some(instructions_view(list@)),
                Err(other) => listed(self@) is None && other == self,
            },
    {
        match self {
            Instruction::Meta(Meta::List(meta::List(list))) => Ok(list),
            other => Err(other),
        }
    }

    /// Collapses lists inside lists.
    #[must_use]
    pub fn flatten(self) -> (r: Self)
        ensures
            r@ == flatten_spec(self@),
            listed(self@) is None ==> r == self,
    {
        let list = match self.into_list() {
            Ok(list) => list,
            Err(other) => {
                return other;
            },
        };
        let ghost all = instructions_view(list@);
        let mut out: Vec<Instruction> = Vec::new();
        let mut stack: Vec<Instruction> = Vec::new();
        push_reversed(&mut stack, list);
        let ghost mut pending = all;
        while stack.len() > 0
            invariant
                instructions_view(stack@) == pending.reverse(),
                instructions_view(out@) + leaves(pending) == leaves(all),
            decreases weight(pending),
        {
            let ghost before = pending;
            let ghost below = stack@;
            let instruction = stack.pop().unwrap();
            proof {
                assert(instructions_view(below).last() == instruction@);
                assert(instructions_view(stack@) =~= instructions_view(below).drop_last());
                assert(before =~= seq![before[0]] + before.skip(1));
                lemma_leaves_of_joined(seq![before[0]], before.skip(1));
                lemma_leaves_of_one(before[0]);
            }
            match instruction.into_list() {
                Ok(inner) => {
                    let ghost inside = instructions_view(inner@);
                    push_reversed(&mut stack, inner);
                    proof {
                        pending = inside + before.skip(1);
                        lemma_leaves_of_joined(inside, before.skip(1));
                    }
                },
                Err(leaf) => {
                    out.push(leaf);
                    proof {
                        pending = before.skip(1);
                    }
                },
            }
        }
        if out.len() == 0 {
            Instruction::Noop
        } else if out.len() == 1 {
            let only = out.pop().unwrap();
            only
        } else {
            Instruction::Meta(Meta::List(meta::List(out)))
        }
    }
}

} // verus!
