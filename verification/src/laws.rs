//! Laws of the machine: what holds of its operations for every input.

use vstd::prelude::*;

use crate::dict::{
    entries_get, entries_has, entries_map, entries_merge, entries_sorted, lemma_merge, Entries,
};
use crate::float::Float;
use crate::host::{ask, done, OutcomeModel, RequestView};
use crate::instruction::meta::meta_spec;
use crate::instruction::mutating::mutating_spec;
use crate::instruction::reading::{self, reading_spec};
use crate::instruction::{
    flatten_spec, lemma_leaves_of_one, listed, InstructionView, MetaView, MutatingView, Reading,
};
use crate::program::{result_spec, turns_spec, HostModel, ProgramView, RunningView};
use crate::value::{
    add_spec, cast_spec, div_spec, parse_spec, type_of, Operation, Type, ValueView,
};
use crate::variable::{read_mut_spec, read_spec, Id, Slot, VariablesView};
use crate::{ErrorView, ValueModel};

verus! {

/// A cast of a value to its own type gives the value, and so does parsing a text into
/// text.
pub proof fn law_same_type(v: ValueView, t: Type)
    requires
        type_of(v) == t,
    ensures
        cast_spec(v, t) == done(v),
        v is String ==> parse_spec(v, t) == done(v),
{
}

/// A cast to `Nil` gives `Nil`. A cast to `Type` gives the type of the value, unless
/// the value is itself a type: a type stays as it is, so only the type of types is
/// cast to the type of itself.
pub proof fn law_cast_to_type_and_nil(v: ValueView)
    ensures
        cast_spec(v, Type::Nil) == done(ValueView::Nil),
        (v is Type ==> v == ValueView::Type(Type::Type)) <==> cast_spec(v, Type::Type) == done(
            ValueView::Type(type_of(v)),
        ),
        v is Type ==> cast_spec(v, Type::Type) == done(v),
{
}

/// A list puts its instructions on the stack so that they are taken off, and run, in
/// their order: the first of them is on top, the second below it, and so on.
pub proof fn law_list_runs_in_order(
    list: Seq<InstructionView>,
    value: ValueView,
    variables: VariablesView,
    stack: Seq<InstructionView>,
    k: int,
)
    requires
        0 <= k < list.len(),
    ensures
        meta_spec(MetaView::List(list), value, variables, stack) matches Ok(after) && {
            &&& after.0 == ValueView::Nil
            &&& after.1 == variables
            &&& after.2.len() == stack.len() + list.len()
            &&& after.2.take(stack.len() as int) == stack
            &&& after.2[after.2.len() - 1 - k] == list[k]
        },
{
}

/// The list of these instructions.
pub open spec fn list_of(instructions: Seq<InstructionView>) -> InstructionView {
    InstructionView::Meta(MetaView::List(instructions))
}

/// A list that holds nothing but a list of one instruction flattens to what that
/// instruction flattens to. This is the instruction itself where the instruction is
/// its own flattening, as every instruction is that is no list, and only there. A
/// list of nothing flattens to `Noop`.
pub proof fn law_flatten(i: InstructionView)
    ensures
        flatten_spec(list_of(seq![list_of(seq![i])])) == flatten_spec(i),
        flatten_spec(list_of(seq![list_of(seq![i])])) == i <==> flatten_spec(i) == i,
        listed(i) is None ==> flatten_spec(i) == i,
        flatten_spec(list_of(Seq::empty())) == InstructionView::Noop,
{
    let inner = list_of(seq![i]);
    lemma_leaves_of_one(inner);
    lemma_leaves_of_one(i);
}

/// With whatever host and after however many turns, the run of a program made
/// fallible gives no error; and where the run of the program gives a value, the run of
/// the program made fallible gives the same value.
pub proof fn law_fallible(p: ProgramView, x: ValueView, host: HostModel, turns: nat, y: ValueView)
    ensures
        !(result_spec(ProgramView { is_fallible: true, ..p }, x, host, turns) matches Some(
            Err(_),
        )),
        result_spec(p, x, host, turns) == Some(Ok::<ValueView, ErrorView>(y)) ==> result_spec(
            ProgramView { is_fallible: true, ..p },
            x,
            host,
            turns,
        ) == Some(Ok::<ValueView, ErrorView>(y)),
{
}

/// A run that is over stays as it is, whatever the host and however many turns follow.
pub proof fn law_finished_stays(outcome: ValueModel, host: HostModel, turns: nat)
    ensures
        turns_spec(RunningView::Finished(outcome), host, turns) == RunningView::Finished(outcome),
    decreases turns,
{
    if turns > 0 {
        law_finished_stays(outcome, host, (turns - 1) as nat);
    }
}

/// A read-write variable is read where its index is one of the read-write part, and
/// nowhere else; no read-only variable is handed out to be changed.
pub proof fn law_variable_access(variables: VariablesView, n: usize)
    ensures
        read_spec(variables, Id(Slot::Rw(n))) is Ok <==> n < variables.rw.len(),
        read_mut_spec(variables, Id(Slot::Ro(n))) == Err::<ValueView, ErrorView>(
            ErrorView::WriteToReadOnly(Id(Slot::Ro(n))),
        ),
{
}

/// After a variable was taken, a copy of it is `Nil`.
pub proof fn law_take_then_clone(
    id: Id,
    value: ValueView,
    variables: VariablesView,
    next: ValueView,
)
    requires
        mutating_spec(MutatingView::Take(id), value, variables) is Ok,
    ensures
        reading_spec(
            Reading::Clone(reading::Clone(id)),
            next,
            mutating_spec(MutatingView::Take(id), value, variables)->Ok_0.1,
        ) == done(ValueView::Nil),
{
}

/// The instruction fails with this error.
pub open spec fn failed(e: ErrorView) -> OutcomeModel {
    Err(e)
}

/// The sum of two integers that is no 64-bit integer is an error of overflow; an
/// integer divided by zero is an error of division by zero; a float divided by a
/// float is no error, whatever the floats: it is left to the host.
pub proof fn law_arithmetic(a: i64, b: i64, x: Float, y: Float)
    ensures
        !(i64::MIN <= a + b <= i64::MAX) ==> add_spec(ValueView::Int(a), ValueView::Int(b))
            == failed(
            ErrorView::IntegerOverOrUnderFlow {
                op: Operation::Add,
                lhs: ValueView::Int(a),
                rhs: ValueView::Int(b),
            },
        ),
        div_spec(ValueView::Int(a), ValueView::Int(0)) == failed(
            ErrorView::ZeroDiv(ValueView::Int(a), ValueView::Int(0)),
        ),
        div_spec(ValueView::Float(x), ValueView::Float(y)) == ask(
            RequestView::Arithmetic(Operation::Div, x, y),
        ),
{
}

/// The sum of two dictionaries is sorted by its keys; a key of the right one has the
/// value of the right one, any other key what the left one gives it.
pub proof fn law_dict_sum(a: Entries, b: Entries, key: Seq<char>)
    requires
        entries_sorted(a),
        entries_sorted(b),
    ensures
        add_spec(ValueView::Dict(a), ValueView::Dict(b)) == done(
            ValueView::Dict(entries_merge(a, b)),
        ),
        entries_sorted(entries_merge(a, b)),
        entries_get(entries_merge(a, b), key) == if entries_has(b, key) {
            entries_get(b, key)
        } else {
            entries_get(a, key)
        },
        entries_map(entries_merge(a, b)) == entries_map(a).union_prefer_right(entries_map(b)),
{
    lemma_merge(a, b, key);
    let merged = entries_map(entries_merge(a, b));
    let united = entries_map(a).union_prefer_right(entries_map(b));
    assert forall|k: Seq<char>| #[trigger] merged.dom().contains(k) == united.dom().contains(k) by {
        lemma_merge(a, b, k);
    }
    assert forall|k: Seq<char>| merged.dom().contains(k) implies #[trigger] merged[k]
        == united[k] by {
        lemma_merge(a, b, k);
    }
}

/// The order of floats: equality is symmetric; no float is below itself; of two floats
/// neither of which is a NaN, one is below the other or they are equal, and never
/// both.
pub proof fn law_float_order(a: Float, b: Float)
    ensures
        a.same(b) == b.same(a),
        !a.below(a),
        !(a.below(b) && b.below(a)),
        !(a.below(b) && a.same(b)),
        a.comparable(b) ==> (a.below(b) || a.same(b) || b.below(a)),
        !a.comparable(b) ==> !a.below(b) && !a.same(b) && !b.below(a),
{
}

} // verus!
