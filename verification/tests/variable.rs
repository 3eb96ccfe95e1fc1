use bookmark_language::value::{Type, Value};
use bookmark_language::variable::{Id, MapBuilder, Slot, Variables};
use bookmark_language::Error;

fn sample() -> (Variables, Id, Id, Id) {
    let mut builder = MapBuilder::new();
    let a = builder.insert_rw(Value::Int(1));
    let b = builder.reserve_rw();
    let c = builder.insert_ro(Value::Bool(true));
    (builder.build(), a, b, c)
}

#[test]
fn builder_hands_out_ids_in_order() {
    let mut builder = MapBuilder::new();
    assert_eq!(builder.insert_rw(Value::Int(1)), Id(Slot::Rw(0)));
    assert_eq!(builder.reserve_rw(), Id(Slot::Rw(1)));
    assert_eq!(builder.insert_ro(Value::Int(2)), Id(Slot::Ro(0)));
    assert_eq!(builder.reserve_ro(), Id(Slot::Ro(1)));
    assert_eq!(builder.insert_rw(Value::Int(3)), Id(Slot::Rw(2)));
    let variables = builder.build();
    assert_eq!(variables.rw(), &vec![Value::Int(1), Value::Nil, Value::Int(3)]);
    assert_eq!(variables.ro(), &vec![Value::Int(2), Value::Nil]);
}

#[test]
fn builder_set() {
    let mut builder = MapBuilder::default();
    let rw = builder.reserve_rw();
    let ro = builder.reserve_ro();
    assert_eq!(builder.set(rw, Value::Int(1)), Ok(()));
    assert_eq!(builder.set(ro, Value::Int(2)), Ok(()));
    assert_eq!(
        builder.set(Id(Slot::Rw(1)), Value::Nil),
        Err(Error::UnknownVariable(Id(Slot::Rw(1))))
    );
    assert_eq!(
        builder.set(Id(Slot::Ro(7)), Value::Nil),
        Err(Error::UnknownVariable(Id(Slot::Ro(7))))
    );
    let variables = builder.build();
    assert_eq!(variables.read(rw), Ok(&Value::Int(1)));
    assert_eq!(variables.read(ro), Ok(&Value::Int(2)));
}

#[test]
fn read_succeeds_within_range_only() {
    let (variables, a, b, c) = sample();
    assert_eq!(variables.read(a), Ok(&Value::Int(1)));
    assert_eq!(variables.read(b), Ok(&Value::Nil));
    assert_eq!(variables.read(c), Ok(&Value::Bool(true)));
    for n in 0..5 {
        assert_eq!(variables.read(Id(Slot::Rw(n))).is_ok(), n < 2);
        assert_eq!(variables.read(Id(Slot::Ro(n))).is_ok(), n < 1);
    }
    assert_eq!(
        variables.read(Id(Slot::Rw(2))),
        Err(Error::UnknownVariable(Id(Slot::Rw(2))))
    );
    assert_eq!(
        variables.read(Id(Slot::Ro(1))),
        Err(Error::UnknownVariable(Id(Slot::Ro(1))))
    );
}

#[test]
fn read_mut_rejects_read_only() {
    let (mut variables, a, _, c) = sample();
    *variables.read_mut(a).unwrap() = Value::Type(Type::Int);
    assert_eq!(variables.read(a), Ok(&Value::Type(Type::Int)));
    assert_eq!(variables.read_mut(c), Err(Error::WriteToReadOnly(c)));
    assert_eq!(
        variables.read_mut(Id(Slot::Ro(100))),
        Err(Error::WriteToReadOnly(Id(Slot::Ro(100))))
    );
    assert_eq!(
        variables.read_mut(Id(Slot::Rw(2))),
        Err(Error::UnknownVariable(Id(Slot::Rw(2))))
    );
    assert_eq!(variables.read(c), Ok(&Value::Bool(true)));
}

#[test]
fn maybe_read_follows_ids_only() {
    let (variables, a, _, c) = sample();
    assert_eq!(variables.maybe_read(Value::Id(a)), Ok(Value::Int(1)));
    assert_eq!(variables.maybe_read(Value::Id(c)), Ok(Value::Bool(true)));
    assert_eq!(variables.maybe_read(Value::Int(9)), Ok(Value::Int(9)));
    assert_eq!(
        variables.maybe_read(Value::Id(Id(Slot::Rw(9)))),
        Err(Error::UnknownVariable(Id(Slot::Rw(9))))
    );
}

#[test]
fn clones_share_the_read_only_part() {
    let (variables, a, _, c) = sample();
    let mut copy = variables.clone();
    *copy.read_mut(a).unwrap() = Value::Int(5);
    assert_eq!(variables.read(a), Ok(&Value::Int(1)));
    assert_eq!(copy.read(a), Ok(&Value::Int(5)));
    assert!(std::ptr::eq(variables.ro(), copy.ro()));
    assert_eq!(copy.read(c), Ok(&Value::Bool(true)));
    assert!(variables != copy);
    assert!(variables == variables.clone());
    let empty = Variables::default();
    assert!(empty.rw().is_empty() && empty.ro().is_empty());
}
