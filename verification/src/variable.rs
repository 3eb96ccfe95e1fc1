//! The variables of a program: read-write slots and shared read-only slots.

use std::sync::Arc;
use vstd::prelude::*;
use vstd::std_specs::cmp::PartialEqSpecImpl;

use crate::share::share;
use crate::value::{clone_values, eq_values, equal_values, values_view, Value, ValueView};
use crate::{value_result, Error, ErrorView, Result, ValueModel};

verus! {

/// Where a variable lives: in the read-write or in the read-only part, and at which
/// index.
#[derive(Debug, Clone, Copy, PartialEq, Eq, Structural)]
pub enum Slot {
    Rw(usize),
    Ro(usize),
}

/// The handle of a variable.
#[derive(Debug, Clone, Copy, PartialEq, Eq, Structural)]
pub struct Id(pub Slot);

/// The variables of a running program. The read-write part belongs to the run; the
/// read-only part is shared and never written.
#[derive(Debug)]
pub struct Variables {
    rw: Vec<Value>,
    ro: Arc<Vec<Value>>,
}

/// The model of [`Variables`].
pub struct VariablesView {
    pub rw: Seq<ValueView>,
    pub ro: Seq<ValueView>,
}

impl View for Variables {
    type V = VariablesView;

    open spec fn view(&self) -> VariablesView {
        self.model()
    }
}

impl Variables {
    /// The model of the variables; `@` gives the same.
    pub closed spec fn model(&self) -> VariablesView
        decreases self,
    {
        VariablesView { rw: values_view(self.rw@), ro: values_view(self.ro@) }
    }
}

/// Collects the variables of a program before it is built.
#[derive(Debug)]
pub struct MapBuilder {
    rw: Vec<Value>,
    ro: Vec<Value>,
}

impl Clone for Variables {
    /// Copies the read-write part; the copy shares the read-only part.
    fn clone(&self) -> (r: Self)
        ensures
            r@ == self@,
        decreases self,
    {
        Variables { rw: clone_values(&self.rw), ro: share(&self.ro) }
    }
}

impl Variables {
    /// Whether both parts hold equal values.
    pub fn equals(&self, other: &Variables) -> (r: bool)
        ensures
            r == (eq_values(self@.rw, other@.rw) && eq_values(self@.ro, other@.ro)),
        decreases self,
    {
        equal_values(&self.rw, &other.rw) && equal_values(&self.ro, &other.ro)
    }
}

/// What reading the variable of an id comes to: its value, if the id's index is one
/// of its part.
pub open spec fn read_spec(variables: VariablesView, id: Id) -> ValueModel {
    match id.0 {
        Slot::Rw(n) => if n < variables.rw.len() {
            Ok(variables.rw[n as int])
        } else {
            Err(ErrorView::UnknownVariable(id))
        },
        Slot::Ro(n) => if n < variables.ro.len() {
            Ok(variables.ro[n as int])
        } else {
            Err(ErrorView::UnknownVariable(id))
        },
    }
}

/// What reaching for the variable of an id, to change it, comes to: no read-only
/// variable is handed out.
pub open spec fn read_mut_spec(variables: VariablesView, id: Id) -> ValueModel {
    match id.0 {
        Slot::Rw(_) => read_spec(variables, id),
        Slot::Ro(_) => Err(ErrorView::WriteToReadOnly(id)),
    }
}

/// The variables with `value` in the read-write variable of an id.
pub open spec fn written_spec(variables: VariablesView, id: Id, value: ValueView) -> VariablesView {
    match id.0 {
        Slot::Rw(n) => VariablesView { rw: variables.rw.update(n as int, value), ro: variables.ro },
        Slot::Ro(_) => variables,
    }
}

/// The value itself, or the value of the variable that it refers to.
pub open spec fn maybe_read_spec(variables: VariablesView, value: ValueView) -> ValueModel {
    match value {
        ValueView::Id(id) => read_spec(variables, id),
        _ => Ok(value),
    }
}

/// The variables with `value` in the variable of an id, of either part.
pub open spec fn set_spec(variables: VariablesView, id: Id, value: ValueView) -> VariablesView {
    match id.0 {
        Slot::Rw(n) => VariablesView { rw: variables.rw.update(n as int, value), ro: variables.ro },
        Slot::Ro(n) => VariablesView { rw: variables.rw, ro: variables.ro.update(n as int, value) },
    }
}

impl Default for Variables {
    /// No variables.
    fn default() -> (r: Self)
        ensures
            r@.rw =~= Seq::empty(),
            r@.ro =~= Seq::empty(),
    {
        Variables { rw: Vec::new(), ro: Arc::new(Vec::new()) }
    }
}

impl Variables {
    /// The read-write variables.
    pub fn rw(&self) -> (r: &Vec<Value>)
        ensures
            values_view(r@) == self@.rw,
    {
        &self.rw
    }

    /// The read-only variables.
    pub fn ro(&self) -> (r: &Vec<Value>)
        ensures
            values_view(r@) == self@.ro,
    {
        &self.ro
    }

    /// The variable of an id.
    pub fn read(&self, id: Id) -> (r: Result<&Value>)
        ensures
            r matches Ok(v) ==> read_spec(self@, id) == Ok::<ValueView, ErrorView>(v@),
            r matches Err(e) ==> read_spec(self@, id) == Err::<ValueView, ErrorView>(e@),
    {
        match id.0 {
            Slot::Rw(n) => {
                if n < self.rw.len() {
                    Ok(&self.rw[n])
                } else {
                    Err(Error::UnknownVariable(id))
                }
            },
            Slot::Ro(n) => {
                if n < self.ro.len() {
                    Ok(&self.ro[n])
                } else {
                    Err(Error::UnknownVariable(id))
                }
            },
        }
    }

    /// The variable of an id, to be changed in place.
    pub fn read_mut(&mut self, id: Id) -> (r: Result<&mut Value>)
        ensures
            r matches Ok(v) ==> read_mut_spec(old(self)@, id) == Ok::<ValueView, ErrorView>(v@)
                && final(self)@ == written_spec(old(self)@, id, final(v)@),
            r matches Err(e) ==> read_mut_spec(old(self)@, id) == Err::<ValueView, ErrorView>(
                e@,
            ) && final(self)@ == old(self)@,
    {
        match id.0 {
            Slot::Rw(n) => {
                if n < self.rw.len() {
                    let ghost before = self.rw@;
                    let slot = &mut self.rw[n];
                    proof {
                        assert(values_view(before.update(n as int, *final(slot))) =~= values_view(
                            before,
                        ).update(n as int, final(slot)@));
                    }
                    Ok(slot)
                } else {
                    Err(Error::UnknownVariable(id))
                }
            },
            Slot::Ro(_) => Err(Error::WriteToReadOnly(id)),
        }
    }

    /// The value itself, or a copy of the variable that it refers to.
    pub fn maybe_read(&self, value: Value) -> (r: Result<Value>)
        ensures
            value_result(r) == maybe_read_spec(self@, value@),
    {
        match value {
            Value::Id(id) => match self.read(id) {
                Ok(v) => Ok(v.clone()),
                Err(e) => Err(e),
            },
            other => Ok(other),
        }
    }
}

impl PartialEq for Variables {
    fn eq(&self, other: &Self) -> (r: bool) {
        self.equals(other)
    }
}

impl PartialEqSpecImpl for Variables {
    open spec fn obeys_eq_spec() -> bool {
        true
    }

    open spec fn eq_spec(&self, other: &Self) -> bool {
        eq_values(self@.rw, other@.rw) && eq_values(self@.ro, other@.ro)
    }
}

impl View for MapBuilder {
    type V = VariablesView;

    closed spec fn view(&self) -> VariablesView {
        VariablesView { rw: values_view(self.rw@), ro: values_view(self.ro@) }
    }
}

impl Clone for MapBuilder {
    fn clone(&self) -> (r: Self)
        ensures
            r@ == self@,
    {
        MapBuilder { rw: clone_values(&self.rw), ro: clone_values(&self.ro) }
    }
}

impl Default for MapBuilder {
    fn default() -> (r: Self)
        ensures
            r@.rw =~= Seq::empty(),
            r@.ro =~= Seq::empty(),
    {
        MapBuilder { rw: Vec::new(), ro: Vec::new() }
    }
}

impl MapBuilder {
    /// A builder without variables.
    #[must_use]
    pub fn new() -> (r: Self)
        ensures
            r@.rw =~= Seq::empty(),
            r@.ro =~= Seq::empty(),
    {
        MapBuilder { rw: Vec::new(), ro: Vec::new() }
    }

    /// Adds a read-write variable and gives its id.
    #[must_use]
    pub fn insert_rw(&mut self, init: Value) -> (id: Id)
        ensures
            id == Id(Slot::Rw(old(self)@.rw.len() as usize)),
            final(self)@.rw == old(self)@.rw.push(init@),
            final(self)@.ro == old(self)@.ro,
    {
        let id = Id(Slot::Rw(self.rw.len()));
        self.rw.push(init);
        id
    }

    /// Adds a read-write variable that holds `Nil` and gives its id.
    #[must_use]
    pub fn reserve_rw(&mut self) -> (id: Id)
        ensures
            id == Id(Slot::Rw(old(self)@.rw.len() as usize)),
            final(self)@.rw == old(self)@.rw.push(ValueView::Nil),
            final(self)@.ro == old(self)@.ro,
    {
        self.insert_rw(Value::Nil)
    }

    /// Adds a read-only variable and gives its id.
    #[must_use]
    pub fn insert_ro(&mut self, init: Value) -> (id: Id)
        ensures
            id == Id(Slot::Ro(old(self)@.ro.len() as usize)),
            final(self)@.ro == old(self)@.ro.push(init@),
            final(self)@.rw == old(self)@.rw,
    {
        let id = Id(Slot::Ro(self.ro.len()));
        self.ro.push(init);
        id
    }

    /// Adds a read-only variable that holds `Nil` and gives its id.
    #[must_use]
    pub fn reserve_ro(&mut self) -> (id: Id)
        ensures
            id == Id(Slot::Ro(old(self)@.ro.len() as usize)),
            final(self)@.ro == old(self)@.ro.push(ValueView::Nil),
            final(self)@.rw == old(self)@.rw,
    {
        self.insert_ro(Value::Nil)
    }

    /// Gives the variable of an id, of either part, a new value.
    pub fn set(&mut self, id: Id, value: Value) -> (r: Result<()>)
        ensures
            r is Ok == (read_spec(old(self)@, id) is Ok),
            r is Ok ==> final(self)@ == set_spec(old(self)@, id, value@),
            r matches Err(e) ==> e@ == ErrorView::UnknownVariable(id) && final(self)@ == old(
                self,
            )@,
    {
        match id.0 {
            Slot::Rw(n) => {
                if n < self.rw.len() {
                    let ghost before = self.rw@;
                    self.rw[n] = value;
                    assert(values_view(self.rw@) =~= values_view(before).update(n as int, value@));
                    Ok(())
                } else {
                    Err(Error::UnknownVariable(id))
                }
            },
            Slot::Ro(n) => {
                if n < self.ro.len() {
                    let ghost before = self.ro@;
                    self.ro[n] = value;
                    assert(values_view(self.ro@) =~= values_view(before).update(n as int, value@));
                    Ok(())
                } else {
                    Err(Error::UnknownVariable(id))
                }
            },
        }
    }

    /// The variables that were collected.
    #[must_use]
    pub fn build(self) -> (r: Variables)
        ensures
            r@ == self@,
    {
        Variables { rw: self.rw, ro: Arc::new(self.ro) }
    }
}

} // verus!
