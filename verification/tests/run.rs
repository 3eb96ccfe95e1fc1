use std::sync::Arc;

use bookmark_language::dict::Dict;
use bookmark_language::float::Float;
use bookmark_language::host::{Answer, Outcome, Request};
use bookmark_language::instruction::traits::Loader;
use bookmark_language::instruction::{
    instruction_list, loading, meta, mutating, pure, reading, traits, DefaultLoader, External,
    Instruction, IntoInstruction, Stack,
};
use bookmark_language::program::{Builder, Program, Running};
use bookmark_language::value::{Operation, Type, Value};
use bookmark_language::variable::{Id, MapBuilder, Slot, Variables};
use bookmark_language::Error;

fn float(x: f64) -> Float {
    Float::from_bits(x.to_bits())
}

fn number(f: Float) -> f64 {
    f64::from_bits(f.to_bits())
}

fn text(s: &str) -> Value {
    Value::string(s)
}

/// What a host answers; it keeps what it was asked to show.
fn answer(request: &Request, loader: &dyn Loader, shown: &mut Vec<Value>) -> Answer {
    match request {
        Request::Debug(v) => {
            shown.push(v.clone());
            Answer::Done
        }
        Request::Sleep(seconds) => {
            assert!(number(*seconds) >= 0.0);
            Answer::Done
        }
        Request::Arithmetic(op, a, b) => {
            let (a, b) = (number(*a), number(*b));
            Answer::Float(float(match op {
                Operation::Add => a + b,
                Operation::Sub => a - b,
                Operation::Mul => a * b,
                Operation::Div => a / b,
                other => panic!("{other:?} is no arithmetic"),
            }))
        }
        Request::IntToFloat(i) => Answer::Float(float(*i as f64)),
        Request::FloatToInt(f) => Answer::Int(number(*f).round() as i64),
        Request::FloatToText(f) => Answer::Text(number(*f).to_string()),
        Request::TextToFloat(s) => Answer::Parsed(s.parse::<f64>().ok().map(float)),
        Request::Load(v) => Answer::Value(loader.load(v.clone())),
        Request::Run(p, v) => Answer::Value(run_with(p.clone(), v.clone(), loader, shown)),
        Request::External(..) => unreachable!(),
    }
}

fn run_with(
    program: Program,
    input: Value,
    loader: &dyn Loader,
    shown: &mut Vec<Value>,
) -> Result<Value, Error> {
    let is_fallible = program.is_fallible();
    let mut running = program.run(input);
    loop {
        running = match running.progress() {
            Running::Finished(result) => return Program::conclude(is_fallible, result),
            Running::Suspended(variables, stack, Request::External(external, value)) => {
                Running::after_external(external.0.perform(value, variables, stack))
            }
            Running::Suspended(variables, stack, request) => {
                let answer = answer(&request, loader, shown);
                Running::Suspended(variables, stack, request).resume(answer)
            }
            active => active,
        };
    }
}

fn run(program: Program, input: Value) -> Result<Value, Error> {
    run_with(program, input, &DefaultLoader, &mut Vec::new())
}

fn program(instructions: Vec<Instruction>, variables: Variables) -> Program {
    let mut builder = Builder::new();
    for i in instructions {
        builder.push_instruction(i);
    }
    builder.build(variables)
}

fn run_all(instructions: Vec<Instruction>, input: Value) -> Result<Value, Error> {
    run(program(instructions, Variables::default()), input)
}

fn put(v: Value) -> Instruction {
    pure::put(v).into_instruction()
}

#[test]
fn builder_picks_the_root() {
    let empty = Builder::new().build(Variables::default());
    assert_eq!(empty.instruction(), &Instruction::Noop);
    assert!(!empty.is_fallible());
    assert!(empty == Program::default());

    let mut one = Builder::default();
    one.push_instruction(put(Value::Int(1)));
    assert_eq!(one.build(Variables::default()).instruction(), &put(Value::Int(1)));

    let mut two = Builder::new();
    two.push_instruction(put(Value::Int(1))).push_instruction(put(Value::Int(2))).is_fallible(true);
    let built = two.build(Variables::default());
    assert_eq!(
        built.instruction(),
        &instruction_list(vec![put(Value::Int(1)), put(Value::Int(2))])
    );
    assert!(built.is_fallible());
    assert!(!built.clone().into_infallible().is_fallible());
    assert!(built.variables() == &Variables::default());
}

#[test]
fn empty_program_gives_its_input() {
    assert_eq!(run(Program::default(), Value::Int(5)), Ok(Value::Int(5)));
    assert_eq!(run_all(vec![Instruction::Noop], Value::Int(5)), Ok(Value::Int(5)));
}

#[test]
fn steps_of_a_run() {
    let p = program(vec![put(Value::Int(1)), pure::Not.into_instruction()], Variables::default());
    let start = p.run(Value::Nil);
    let root = instruction_list(vec![put(Value::Int(1)), pure::Not.into_instruction()]);
    assert_eq!(
        start,
        Running::Active(Variables::default(), Stack::from_vec(vec![root]), Value::Nil)
    );
    let listed = start.progress();
    assert_eq!(
        listed,
        Running::Active(
            Variables::default(),
            Stack::from_vec(vec![pure::Not.into_instruction(), put(Value::Int(1))]),
            Value::Nil
        )
    );
    let mut state = listed.progress();
    assert_eq!(
        state,
        Running::Active(
            Variables::default(),
            Stack::from_vec(vec![pure::Not.into_instruction()]),
            Value::Int(1)
        )
    );
    state.progress_in_place();
    let failed = Running::Finished(Err(Error::WrongInstructionInput(
        Value::Int(1),
        pure::Not.into_instruction(),
    )));
    assert_eq!(state, failed);
    assert_eq!(state.progress(), failed);
    assert_eq!(Running::default(), Running::Finished(Ok(Value::Nil)));
    let over = Running::Active(Variables::default(), Stack::new(), Value::Int(3)).progress();
    assert_eq!(over, Running::Finished(Ok(Value::Int(3))));
}

#[test]
fn list_runs_in_forward_order() {
    let mut shown = Vec::new();
    let p = program(
        vec![
            put(Value::Int(1)),
            pure::Debug.into_instruction(),
            instruction_list(vec![
                put(Value::Int(2)),
                pure::Debug.into_instruction(),
                put(Value::Int(3)),
                pure::Debug.into_instruction(),
            ]),
            pure::Debug.into_instruction(),
            put(Value::Int(4)),
            pure::Debug.into_instruction(),
        ],
        Variables::default(),
    );
    assert_eq!(run_with(p, Value::Nil, &DefaultLoader, &mut shown), Ok(Value::Int(4)));
    assert_eq!(
        shown,
        vec![Value::Int(1), Value::Int(2), Value::Int(3), Value::Int(3), Value::Int(4)]
    );
}

#[test]
fn list_resets_the_return_value() {
    assert_eq!(run_all(vec![instruction_list(vec![])], Value::Int(5)), Ok(Value::Nil));
    let (value, _, stack) = traits::Meta::perform(
        meta::List(vec![put(Value::Int(1)), put(Value::Int(2)), put(Value::Int(3))]),
        Value::Int(9),
        Variables::default(),
        Stack::from_vec(vec![Instruction::Noop]),
    )
    .unwrap();
    assert_eq!(value, Value::Nil);
    assert_eq!(
        stack,
        Stack::from_vec(vec![
            Instruction::Noop,
            put(Value::Int(3)),
            put(Value::Int(2)),
            put(Value::Int(1))
        ])
    );
}

#[test]
fn return_clears_the_stack() {
    assert_eq!(
        run_all(
            vec![put(Value::Int(1)), meta::Return.into_instruction(), put(Value::Int(2))],
            Value::Nil
        ),
        Ok(Value::Int(1))
    );
}

#[test]
fn stack_operations() {
    let mut stack = Stack::new();
    assert_eq!(stack.len(), 0);
    assert_eq!(stack.pop(), None);
    stack.push(pure::Debug).push(Instruction::Noop);
    stack.extend(vec![put(Value::Int(1)), put(Value::Int(2))]);
    assert_eq!(stack.len(), 4);
    assert_eq!(stack.pop(), Some(put(Value::Int(2))));
    assert_eq!(stack.pop(), Some(put(Value::Int(1))));
    assert_eq!(stack.pop(), Some(Instruction::Noop));
    assert_eq!(stack.clone().pop(), Some(pure::Debug.into_instruction()));
    stack.clear();
    assert_eq!(stack, Stack::default());
}

#[test]
fn fibonacci_loop_overflows() {
    for is_fallible in [true, false] {
        let mut p_builder = Builder::new();
        let mut v_builder = MapBuilder::new();

        let sleep_duration = Value::Float(float(0.0));

        let a = v_builder.insert_rw(Value::Int(1));
        let b = v_builder.insert_rw(Value::Int(1));
        let l = v_builder.reserve_ro();

        let sleep_print_1 = instruction_list(vec![
            put(sleep_duration.clone()),
            pure::Sleep.into_instruction(),
            put(Value::Int(1)),
            pure::Debug.into_instruction(),
        ]);

        p_builder.push_instruction(instruction_list(vec![
            put(text("starting seq")),
            pure::Debug.into_instruction(),
            sleep_print_1.clone(),
            sleep_print_1,
            reading::Clone(l).into_instruction(),
            meta::Perform(Value::Nil).into_instruction(),
        ]));

        let loop_body = instruction_list(vec![
            put(sleep_duration),
            pure::Sleep.into_instruction(),
            mutating::Take(a).into_instruction(),
            reading::add_clone(b).into_instruction(),
            pure::Debug.into_instruction(),
            mutating::Swap(b).into_instruction(),
            mutating::Swap(a).into_instruction(),
            reading::Clone(l).into_instruction(),
            meta::Perform(Value::Nil).into_instruction(),
        ]);

        v_builder.set(l, Value::from(loop_body)).unwrap();
        p_builder.is_fallible(is_fallible);

        let program = p_builder.build(v_builder.build());
        let mut shown = Vec::new();
        let result = run_with(program, Value::Nil, &DefaultLoader, &mut shown);

        // 1, 1, 2, 3, 5, ...: the numbers shown after the start are the sums
        let mut expected = vec![text("starting seq"), Value::Int(1), Value::Int(1)];
        let (mut x, mut y) = (1i64, 1i64);
        let overflow = loop {
            match x.checked_add(y) {
                Some(sum) => {
                    expected.push(Value::Int(sum));
                    x = y;
                    y = sum;
                }
                None => break (x, y),
            }
        };
        assert_eq!(shown, expected);
        if is_fallible {
            assert_eq!(result, Ok(Value::Nil));
        } else {
            assert_eq!(
                result,
                Err(Error::IntegerOverOrUnderFlow {
                    op: Operation::Add,
                    lhs: Value::Int(overflow.0),
                    rhs: Value::Int(overflow.1),
                })
            );
        }
    }
}

#[test]
fn coercion_round_trip() {
    // text comes back to an integer by parsing it
    assert_eq!(
        run_all(
            vec![
                put(Value::Int(42)),
                pure::Coerce(Type::String).into_instruction(),
                pure::Parse(Type::Int).into_instruction(),
            ],
            Value::Nil
        ),
        Ok(Value::Int(42))
    );
    // no cast leads from text to an integer
    assert_eq!(
        run_all(
            vec![
                put(Value::Int(42)),
                pure::Coerce(Type::String).into_instruction(),
                pure::Coerce(Type::Int).into_instruction(),
            ],
            Value::Nil
        ),
        Err(Error::InvalidCast(Type::String, Type::Int, text("42")))
    );
    assert_eq!(
        run_all(
            vec![
                put(Value::Int(42)),
                pure::Coerce(Type::Float).into_instruction(),
                pure::Coerce(Type::String).into_instruction(),
                pure::Parse(Type::Float).into_instruction(),
                pure::Coerce(Type::Int).into_instruction(),
            ],
            Value::Nil
        ),
        Ok(Value::Int(42))
    );
}

#[test]
fn parse_failure() {
    assert_eq!(
        run_all(vec![put(text("abc")), pure::Parse(Type::Int).into_instruction()], Value::Nil),
        Err(Error::FailedParse(Type::Int, text("abc")))
    );
    assert_eq!(
        run_all(vec![put(text("abc")), pure::Parse(Type::Float).into_instruction()], Value::Nil),
        Err(Error::FailedParse(Type::Float, text("abc")))
    );
}

#[test]
fn perform_runs_the_body_then_hands_on_the_bound_value() {
    // the body runs first, the bound value is what its successor gets
    assert_eq!(
        run_all(
            vec![
                put(Value::Instruction(Box::new(pure::Debug.into_instruction()))),
                meta::Perform(Value::Int(99)).into_instruction(),
            ],
            Value::Nil
        ),
        Ok(Value::Int(99))
    );
    let mut shown = Vec::new();
    let body_puts = program(
        vec![
            put(Value::Instruction(Box::new(instruction_list(vec![
                put(Value::Int(7)),
                pure::Debug.into_instruction(),
            ])))),
            meta::Perform(Value::Int(99)).into_instruction(),
        ],
        Variables::default(),
    );
    assert_eq!(run_with(body_puts, Value::Nil, &DefaultLoader, &mut shown), Ok(Value::Int(99)));
    assert_eq!(shown, vec![Value::Int(7)]);
    assert_eq!(
        run_all(vec![meta::Perform(Value::Int(99)).into_instruction()], Value::Int(1)),
        Err(Error::PerformOnNonInstruction(Value::Int(1)))
    );
}

#[test]
fn perform_pushes_bound_value_below_the_body() {
    let (value, _, stack) = traits::Meta::perform(
        meta::Perform(Value::Int(99)),
        Value::Instruction(Box::new(put(Value::Int(7)))),
        Variables::default(),
        Stack::new(),
    )
    .unwrap();
    assert_eq!(value, Value::Nil);
    assert_eq!(stack, Stack::from_vec(vec![put(Value::Int(99)), put(Value::Int(7))]));
}

#[test]
fn perform_clone_and_take() {
    let mut builder = MapBuilder::new();
    let x = builder.insert_rw(Value::Int(5));
    let r = builder.insert_ro(Value::Int(6));
    let variables = builder.build();
    let body = Value::Instruction(Box::new(Instruction::Noop));

    let (_, after, stack) = traits::Meta::perform(
        meta::PerformClone(x),
        body.clone(),
        variables.clone(),
        Stack::new(),
    )
    .unwrap();
    assert_eq!(stack, Stack::from_vec(vec![put(Value::Int(5)), Instruction::Noop]));
    assert_eq!(after.read(x), Ok(&Value::Int(5)));

    let (_, after, stack) =
        traits::Meta::perform(meta::PerformTake(x), body.clone(), variables.clone(), Stack::new())
            .unwrap();
    assert_eq!(stack, Stack::from_vec(vec![put(Value::Int(5)), Instruction::Noop]));
    assert_eq!(after.read(x), Ok(&Value::Nil));

    assert_eq!(
        traits::Meta::perform(meta::PerformTake(r), body.clone(), variables.clone(), Stack::new()),
        Err(Error::WriteToReadOnly(r))
    );
    assert_eq!(
        traits::Meta::perform(
            meta::PerformClone(Id(Slot::Rw(4))),
            body,
            variables.clone(),
            Stack::new()
        ),
        Err(Error::UnknownVariable(Id(Slot::Rw(4))))
    );
    assert_eq!(
        traits::Meta::perform(meta::PerformClone(x), Value::Nil, variables, Stack::new()),
        Err(Error::PerformOnNonInstruction(Value::Nil))
    );
}

#[test]
fn read_only_write_rejected() {
    let mut builder = MapBuilder::new();
    let id = builder.insert_ro(Value::Nil);
    for input in [Value::Nil, Value::Int(1), text("x")] {
        let p = program(vec![mutating::Assign(id).into_instruction()], builder.clone().build());
        assert_eq!(run(p, input), Err(Error::WriteToReadOnly(id)));
    }
}

#[test]
fn take_then_clone_yields_nil() {
    let mut builder = MapBuilder::new();
    let id = builder.insert_rw(Value::Int(5));
    let p = program(
        vec![mutating::Take(id).into_instruction(), reading::Clone(id).into_instruction()],
        builder.build(),
    );
    assert_eq!(run(p, Value::Int(1)), Ok(Value::Nil));
}

#[test]
fn mutating_instructions() {
    let mut builder = MapBuilder::new();
    let x = builder.insert_rw(Value::Int(5));
    let list = builder.insert_rw(Value::List(vec![Value::Int(10), Value::Int(20)]));
    let mut d = Dict::new();
    d.insert("k".to_string(), Value::Int(1));
    let map = builder.insert_rw(Value::Dict(d));
    let key = builder.insert_ro(text("k"));
    let variables = builder.build();
    let done = |v: Value| Outcome::Value(v);

    let (out, after) =
        traits::Mutating::perform(mutating::Take(x), Value::Int(1), variables.clone()).unwrap();
    assert_eq!((out, after.read(x)), (done(Value::Int(5)), Ok(&Value::Nil)));

    let (out, after) =
        traits::Mutating::perform(mutating::Assign(x), Value::Int(1), variables.clone()).unwrap();
    assert_eq!((out, after.read(x)), (done(Value::Nil), Ok(&Value::Int(1))));

    let (out, after) =
        traits::Mutating::perform(mutating::Swap(x), Value::Int(1), variables.clone()).unwrap();
    assert_eq!((out, after.read(x)), (done(Value::Int(5)), Ok(&Value::Int(1))));

    let (out, after) =
        traits::Mutating::perform(mutating::GetTake(list), Value::Int(0), variables.clone())
            .unwrap();
    assert_eq!(
        (out, after.read(list)),
        (done(Value::Int(10)), Ok(&Value::List(vec![Value::Int(20)])))
    );

    let (out, after) =
        traits::Mutating::perform(mutating::GetTake(map), Value::Id(key), variables.clone())
            .unwrap();
    assert_eq!((out, after.read(map)), (done(Value::Int(1)), Ok(&Value::Dict(Dict::new()))));

    let assign = mutating::MapAssign { map, key: Value::Id(key) };
    let (out, after) =
        traits::Mutating::perform(assign, Value::Int(9), variables.clone()).unwrap();
    let mut expected = Dict::new();
    expected.insert("k".to_string(), Value::Int(9));
    assert_eq!((out, after.read(map)), (done(Value::Nil), Ok(&Value::Dict(expected))));

    let assign = mutating::MapAssign { map: list, key: Value::Int(1) };
    let (_, after) = traits::Mutating::perform(assign, Value::Nil, variables.clone()).unwrap();
    assert_eq!(after.read(list), Ok(&Value::List(vec![Value::Int(10), Value::Nil])));

    let missing = mutating::MapAssign { map, key: text("none") };
    assert_eq!(
        traits::Mutating::perform(missing, Value::Nil, variables.clone()),
        Err(Error::InvalidAcces { key: text("none"), map: Value::Type(Type::Dict) })
    );

    let (out, after) =
        traits::Mutating::perform(mutating::sub_take(x), Value::Int(7), variables.clone())
            .unwrap();
    assert_eq!((out, after.read(x)), (done(Value::Int(2)), Ok(&Value::Nil)));
    assert_eq!(mutating::sub_take(x), mutating::OpTake(Operation::Sub, x));

    assert_eq!(
        traits::Mutating::perform(mutating::Take(key), Value::Nil, variables.clone()),
        Err(Error::WriteToReadOnly(key))
    );
    assert_eq!(
        traits::Mutating::perform(mutating::GetTake(x), Value::Int(0), variables),
        Err(Error::WrongKeyType(Value::Int(0), Type::Int))
    );
}

#[test]
fn reading_instructions() {
    let mut builder = MapBuilder::new();
    let x = builder.insert_rw(Value::Int(5));
    let list = builder.insert_ro(Value::List(vec![Value::Int(10), Value::Int(20)]));
    let variables = builder.build();
    let done = |v: Value| Ok(Outcome::Value(v));

    assert_eq!(
        traits::Reading::perform(reading::Clone(x), Value::Nil, &variables),
        done(Value::Int(5))
    );
    assert_eq!(
        traits::Reading::perform(reading::GetClone(list), Value::Int(1), &variables),
        done(Value::Int(20))
    );
    assert_eq!(
        traits::Reading::perform(reading::GetClone(list), Value::Int(2), &variables),
        Err(Error::InvalidAcces {
            key: Value::Int(2),
            map: Value::List(vec![Value::Int(10), Value::Int(20)])
        })
    );
    assert_eq!(
        traits::Reading::perform(reading::sub_clone(x), Value::Int(7), &variables),
        done(Value::Int(2))
    );
    assert_eq!(
        traits::Reading::perform(reading::lt_clone(x), Value::Int(7), &variables),
        done(Value::Bool(false))
    );
    assert_eq!(
        traits::Reading::perform(reading::Clone(Id(Slot::Ro(3))), Value::Nil, &variables),
        Err(Error::UnknownVariable(Id(Slot::Ro(3))))
    );
    assert_eq!(variables.read(x), Ok(&Value::Int(5)));
}

#[test]
fn pure_instructions() {
    let done = |v: Value| Ok(Outcome::Value(v));
    assert_eq!(
        traits::Pure::perform(pure::Debug, Value::Int(1)),
        Ok(Outcome::Request(Request::Debug(Value::Int(1))))
    );
    assert_eq!(
        traits::Pure::perform(pure::Sleep, Value::Float(float(0.5))),
        Ok(Outcome::Request(Request::Sleep(float(0.5))))
    );
    assert_eq!(
        traits::Pure::perform(pure::Sleep, Value::Int(1)),
        Err(Error::WrongInstructionInput(Value::Int(1), pure::Sleep.into_instruction()))
    );
    let cond = pure::Cond { if_true: Value::Int(1), if_false: Value::Int(2) };
    assert_eq!(traits::Pure::perform(cond.clone(), Value::Bool(true)), done(Value::Int(1)));
    assert_eq!(traits::Pure::perform(cond.clone(), Value::Bool(false)), done(Value::Int(2)));
    assert_eq!(
        traits::Pure::perform(cond.clone(), Value::Nil),
        Err(Error::WrongInstructionInput(Value::Nil, cond.into_instruction()))
    );
    assert_eq!(traits::Pure::perform(pure::put(7i64), Value::Int(1)), done(Value::Int(7)));
    assert_eq!(traits::Pure::perform(pure::Not, Value::Bool(true)), done(Value::Bool(false)));
    assert_eq!(
        traits::Pure::perform(pure::Not, Value::Int(0)),
        Err(Error::WrongInstructionInput(Value::Int(0), pure::Not.into_instruction()))
    );
    assert_eq!(traits::Pure::perform(pure::sub(Value::Int(2)), Value::Int(7)), done(Value::Int(5)));
    assert_eq!(
        traits::Pure::perform(pure::div(Value::Int(2)), Value::Int(7)),
        done(Value::Int(3))
    );
    assert_eq!(
        traits::Pure::perform(pure::lt(Value::Int(2)), Value::Int(7)),
        done(Value::Bool(false))
    );
    assert_eq!(
        traits::Pure::perform(pure::Coerce(Type::Bool), Value::Int(7)),
        done(Value::Bool(true))
    );
    assert_eq!(
        traits::Pure::perform(pure::Parse(Type::Int), text("7")),
        done(Value::Int(7))
    );
}

#[test]
fn float_arithmetic_through_the_host() {
    let run_op = |op: Operation, a: f64, b: f64| {
        run_all(
            vec![
                put(Value::Float(float(a))),
                pure::Op(op, Value::Float(float(b))).into_instruction(),
            ],
            Value::Nil,
        )
    };
    assert_eq!(run_op(Operation::Add, 1.5, 2.0), Ok(Value::Float(float(3.5))));
    assert_eq!(run_op(Operation::Sub, 1.5, 2.0), Ok(Value::Float(float(-0.5))));
    assert_eq!(run_op(Operation::Mul, 1.5, 2.0), Ok(Value::Float(float(3.0))));
    assert_eq!(run_op(Operation::Div, 1.5, 2.0), Ok(Value::Float(float(0.75))));
    assert_eq!(run_op(Operation::Div, 1.0, 0.0), Ok(Value::Float(float(f64::INFINITY))));
    assert_eq!(run_op(Operation::Div, -1.0, 0.0), Ok(Value::Float(float(f64::NEG_INFINITY))));
    match run_op(Operation::Div, 0.0, 0.0) {
        Ok(Value::Float(f)) => assert!(f.is_nan()),
        other => panic!("{other:?}"),
    }
    assert_eq!(
        run_all(
            vec![put(Value::Float(float(2.5))), pure::Coerce(Type::Int).into_instruction()],
            Value::Nil
        ),
        Ok(Value::Int(3))
    );
    assert_eq!(
        run_all(
            vec![put(Value::Float(float(1.5))), pure::Coerce(Type::String).into_instruction()],
            Value::Nil
        ),
        Ok(text("1.5"))
    );
}

#[test]
fn fallible_program_swallows_errors() {
    let failing = || program(vec![pure::Not.into_instruction()], Variables::default());
    let working = || program(vec![put(Value::Int(1))], Variables::default());
    assert_eq!(
        run(failing(), Value::Int(0)),
        Err(Error::WrongInstructionInput(Value::Int(0), pure::Not.into_instruction()))
    );
    assert_eq!(run(failing().into_fallible(), Value::Int(0)), Ok(Value::Nil));
    assert_eq!(run(failing().into_fallible().into_infallible(), Value::Int(0)).is_err(), true);
    assert_eq!(run(working(), Value::Nil), Ok(Value::Int(1)));
    assert_eq!(run(working().into_fallible(), Value::Nil), Ok(Value::Int(1)));
    assert_eq!(Program::conclude(true, Err(Error::InvalidParse(Type::Nil))), Ok(Value::Nil));
    assert_eq!(
        Program::conclude(false, Err(Error::InvalidParse(Type::Nil))),
        Err(Error::InvalidParse(Type::Nil))
    );
    assert_eq!(Program::conclude(true, Ok(Value::Int(2))), Ok(Value::Int(2)));
    assert_eq!(failing().into_fallible().run(Value::Nil), failing().run(Value::Nil));
}

#[test]
fn sub_programs() {
    let inner = program(vec![pure::Not.into_instruction()], Variables::default());
    let call = |p: Program| loading::Program(Arc::new(p)).into_instruction();
    assert_eq!(
        run_all(vec![put(Value::Int(1)), call(inner.clone())], Value::Nil),
        Err(Error::WrongInstructionInput(Value::Int(1), pure::Not.into_instruction()))
    );
    assert_eq!(
        run_all(vec![put(Value::Bool(true)), call(inner.clone())], Value::Nil),
        Ok(Value::Bool(false))
    );
    assert_eq!(
        run_all(
            vec![
                put(Value::Int(1)),
                call(inner.clone().into_fallible()),
                pure::Debug.into_instruction(),
            ],
            Value::Nil
        ),
        Ok(Value::Nil)
    );
    let adds = program(vec![pure::add(Value::Int(1)).into_instruction()], Variables::default());
    assert_eq!(
        run_all(vec![put(Value::Int(1)), call(adds.clone()), call(adds)], Value::Nil),
        Ok(Value::Int(3))
    );
    // the program as a value, made fallible, then performed
    assert_eq!(
        run_all(
            vec![
                put(Value::Instruction(Box::new(call(inner.clone())))),
                pure::ToFallible.into_instruction(),
                meta::Perform(Value::Int(4)).into_instruction(),
            ],
            Value::Nil
        ),
        Ok(Value::Int(4))
    );
    assert_eq!(
        traits::Pure::perform(pure::ToFallible, Value::Instruction(Box::new(call(inner.clone())))),
        Ok(Outcome::Value(Value::Instruction(Box::new(call(inner.clone().into_fallible())))))
    );
    assert_eq!(
        traits::Pure::perform(
            pure::ToInfallible,
            Value::Instruction(Box::new(call(inner.clone().into_fallible())))
        ),
        Ok(Outcome::Value(Value::Instruction(Box::new(call(inner.clone())))))
    );
    assert_eq!(
        traits::Pure::perform(pure::ToFallible, Value::Instruction(Box::new(Instruction::Noop))),
        Err(Error::WrongInstructionInput(
            Value::Instruction(Box::new(Instruction::Noop)),
            pure::ToFallible.into_instruction()
        ))
    );
    assert_eq!(
        traits::Pure::perform(pure::ToInfallible, Value::Int(1)),
        Err(Error::WrongInstructionInput(Value::Int(1), pure::ToInfallible.into_instruction()))
    );
    assert_eq!(
        traits::Loading::perform(loading::Program(Arc::new(inner.clone())), Value::Int(1)),
        Ok(Outcome::Request(Request::Run(inner, Value::Int(1))))
    );
}

#[derive(Debug)]
struct Doubling;

impl Loader for Doubling {
    fn load(&self, value: Value) -> Result<Value, Error> {
        match Operation::Mul.apply(value, Value::Int(2))? {
            Outcome::Value(v) => Ok(v),
            Outcome::Request(_) => Err(Error::UnloadableValue(Value::Nil)),
        }
    }
}

#[test]
fn load_asks_the_loader() {
    let load = || vec![put(Value::Int(4)), loading::Load.into_instruction()];
    assert_eq!(run_all(load(), Value::Nil), Err(Error::UnloadableValue(Value::Int(4))));
    assert_eq!(DefaultLoader.load(text("x")), Err(Error::UnloadableValue(text("x"))));
    let p = program(load(), Variables::default());
    assert_eq!(run_with(p, Value::Nil, &Doubling, &mut Vec::new()), Ok(Value::Int(8)));
    assert_eq!(
        traits::Loading::perform(loading::Load, Value::Int(1)),
        Ok(Outcome::Request(Request::Load(Value::Int(1))))
    );
}

#[derive(Debug)]
struct PushTwice;

impl traits::External for PushTwice {
    fn perform(
        &self,
        return_value: Value,
        variables: Variables,
        mut instruction_stack: Stack,
    ) -> Result<(Value, Variables, Stack), Error> {
        if return_value == Value::Nil {
            return Err(Error::UnloadableValue(return_value));
        }
        instruction_stack.push(pure::add(return_value.clone()));
        instruction_stack.push(pure::add(return_value));
        Ok((Value::Int(0), variables, instruction_stack))
    }
}

#[test]
fn external_instruction_is_handed_to_the_host() {
    let external = External(Arc::new(PushTwice));
    let instruction = Instruction::External(external.clone());
    assert_eq!(
        run_all(vec![put(Value::Int(4)), instruction.clone()], Value::Nil),
        Ok(Value::Int(8))
    );
    assert_eq!(
        run_all(vec![put(Value::Nil), instruction.clone()], Value::Nil),
        Err(Error::UnloadableValue(Value::Nil))
    );
    assert!(instruction != instruction.clone());
    assert!(external != external);
    let suspended = Running::Active(
        Variables::default(),
        Stack::from_vec(vec![instruction]),
        Value::Int(1),
    )
    .progress();
    match &suspended {
        Running::Suspended(_, stack, Request::External(_, value)) => {
            assert_eq!((stack.len(), value), (0, &Value::Int(1)));
        }
        other => panic!("{other:?}"),
    }
    // no answer fits an instruction of the host: the run keeps waiting
    match suspended.resume(Answer::Done) {
        Running::Suspended(_, _, Request::External(..)) => {}
        other => panic!("{other:?}"),
    }
    assert_eq!(
        Running::after_external(Err(Error::InvalidParse(Type::Nil))),
        Running::Finished(Err(Error::InvalidParse(Type::Nil)))
    );
}

#[test]
fn answers_that_do_not_fit_change_nothing() {
    let waiting = || {
        Running::Suspended(
            Variables::default(),
            Stack::from_vec(vec![Instruction::Noop]),
            Request::FloatToInt(float(1.0)),
        )
    };
    for wrong in [
        Answer::Done,
        Answer::Float(float(1.0)),
        Answer::Text("1".to_string()),
        Answer::Parsed(None),
        Answer::Value(Ok(Value::Int(1))),
    ] {
        assert!(!Request::FloatToInt(float(1.0)).fits(&wrong));
        assert_eq!(
            Request::FloatToInt(float(1.0)).fulfil(wrong),
            Err(Request::FloatToInt(float(1.0)))
        );
    }
    assert_eq!(waiting().resume(Answer::Done), waiting());
    assert_eq!(waiting().progress(), waiting());
    assert_eq!(
        waiting().resume(Answer::Int(1)),
        Running::Active(
            Variables::default(),
            Stack::from_vec(vec![Instruction::Noop]),
            Value::Int(1)
        )
    );
    assert_eq!(Request::Debug(Value::Int(3)).fulfil(Answer::Done), Ok(Ok(Value::Int(3))));
    assert_eq!(Request::Sleep(float(0.0)).fulfil(Answer::Done), Ok(Ok(Value::Nil)));
    assert_eq!(
        Request::TextToFloat("x".to_string()).fulfil(Answer::Parsed(None)),
        Ok(Err(Error::FailedParse(Type::Float, text("x"))))
    );
    assert_eq!(
        Request::Load(Value::Nil).fulfil(Answer::Value(Err(Error::UnloadableValue(Value::Nil)))),
        Ok(Err(Error::UnloadableValue(Value::Nil)))
    );
    let active = Running::Active(Variables::default(), Stack::new(), Value::Nil);
    assert_eq!(
        active.resume(Answer::Done),
        Running::Active(Variables::default(), Stack::new(), Value::Nil)
    );
}

#[test]
fn stack_from_a_row_of_instructions() {
    let row = vec![put(Value::Int(1)), put(Value::Int(2))];
    let mut stack = Stack::from(row.clone());
    assert_eq!(stack, Stack::from_vec(row));
    assert_eq!(stack.pop(), Some(put(Value::Int(2))));
    let mut reversed = Stack::new();
    reversed.extend_reversed(vec![put(Value::Int(1)), put(Value::Int(2))]);
    assert_eq!(reversed.pop(), Some(put(Value::Int(1))));
}

#[test]
fn copies_equal_what_they_copy() {
    let inner = program(vec![pure::Not.into_instruction()], Variables::default());
    let instructions = vec![
        Instruction::Noop,
        pure::Cond { if_true: Value::Int(1), if_false: text("x") }.into_instruction(),
        pure::Op(Operation::Add, Value::List(vec![Value::Nil])).into_instruction(),
        mutating::MapAssign { map: Id(Slot::Rw(0)), key: text("k") }.into_instruction(),
        meta::Perform(Value::Bool(true)).into_instruction(),
        instruction_list(vec![
            put(Value::Int(1)),
            reading::GetClone(Id(Slot::Ro(1))).into_instruction(),
        ]),
        loading::Program(Arc::new(inner.clone())).into_instruction(),
        loading::Load.into_instruction(),
    ];
    for i in &instructions {
        assert_eq!(&i.clone(), i);
        assert!(i.equals(&i.clone()));
        let error = Error::WrongInstructionInput(Value::from(i.clone()), i.clone());
        assert_eq!(error.clone(), error);
        let request = Request::Run(inner.clone(), Value::from(i.clone()));
        assert_eq!(request.clone(), request);
        assert_eq!(Outcome::Request(request.clone()).clone(), Outcome::Request(request));
    }
    for (i, a) in instructions.iter().enumerate() {
        for (j, b) in instructions.iter().enumerate() {
            assert_eq!(a == b, i == j);
        }
    }
    let shared = loading::Program(Arc::new(inner));
    assert!(Arc::ptr_eq(&shared.0, &shared.clone().0));
    let mut builder = Builder::new();
    builder.push_instruction(Instruction::Noop).is_fallible(true);
    assert!(builder.clone().build(Variables::default()) == builder.build(Variables::default()));
}
