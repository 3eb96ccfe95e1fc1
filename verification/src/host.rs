//! What the machine asks of its host.
//!
//! The machine decides and the host acts. Where an instruction needs more than a
//! decision, the machine stops with a [`Request`]; the host does the work and resumes
//! the run with its [`Answer`].

use vstd::prelude::*;

use crate::float::Float;
use crate::instruction::External;
use crate::program::{Program, ProgramView};
use crate::value::{Operation, Type, Value, ValueView};
use crate::{value_result, Error, ErrorView, Result, ValueModel};

verus! {

/// Work that the machine leaves to its host.
#[derive(Debug, PartialEq)]
pub enum Request {
    /// Show the value. The return value is then this value.
    Debug(Value),
    /// Suspend the run for this many seconds. The return value is then `Nil`.
    Sleep(Float),
    /// Compute `lhs op rhs` as IEEE-754 has it, for one of the four arithmetic
    /// operations.
    Arithmetic(Operation, Float, Float),
    /// Give the float nearest to the integer.
    IntToFloat(i64),
    /// Round the float to the nearest integer, halves away from zero; a float beyond
    /// the 64-bit integers gives the nearest of them, a NaN gives zero.
    FloatToInt(Float),
    /// Write the float as text: the shortest decimal text that reads back as the
    /// same float.
    FloatToText(Float),
    /// Read the text as a float.
    TextToFloat(String),
    /// Ask the loader for the value that this one stands for.
    Load(Value),
    /// Run the program to its end on the value.
    Run(Program, Value),
    /// Perform the instruction of the host on the value and on the variables and the
    /// stack of the run.
    External(External, Value),
}

/// The model of a [`Request`].
pub enum RequestView {
    Debug(ValueView),
    Sleep(Float),
    Arithmetic(Operation, Float, Float),
    IntToFloat(i64),
    FloatToInt(Float),
    FloatToText(Float),
    TextToFloat(Seq<char>),
    Load(ValueView),
    Run(ProgramView, ValueView),
    External(External, ValueView),
}

impl View for Request {
    type V = RequestView;

    open spec fn view(&self) -> RequestView {
        match self {
            Request::Debug(v) => RequestView::Debug(v@),
            Request::Sleep(f) => RequestView::Sleep(*f),
            Request::Arithmetic(op, l, r) => RequestView::Arithmetic(*op, *l, *r),
            Request::IntToFloat(i) => RequestView::IntToFloat(*i),
            Request::FloatToInt(f) => RequestView::FloatToInt(*f),
            Request::FloatToText(f) => RequestView::FloatToText(*f),
            Request::TextToFloat(s) => RequestView::TextToFloat(s@),
            Request::Load(v) => RequestView::Load(v@),
            Request::Run(p, v) => RequestView::Run(p@, v@),
            Request::External(e, v) => RequestView::External(*e, v@),
        }
    }
}

/// What the host hands back for a [`Request`].
#[derive(Debug, PartialEq)]
pub enum Answer {
    /// The work is done: for `Debug` and `Sleep`.
    Done,
    /// For `Arithmetic` and `IntToFloat`.
    Float(Float),
    /// For `FloatToInt`.
    Int(i64),
    /// For `FloatToText`.
    Text(String),
    /// For `TextToFloat`: the float, or `None` where the text writes none.
    Parsed(Option<Float>),
    /// For `Load` and `Run`.
    Value(Result<Value>),
}

/// The model of an [`Answer`].
pub enum AnswerView {
    Done,
    Float(Float),
    Int(i64),
    Text(Seq<char>),
    Parsed(Option<Float>),
    Value(std::result::Result<ValueView, ErrorView>),
}

impl View for Answer {
    type V = AnswerView;

    open spec fn view(&self) -> AnswerView {
        match self {
            Answer::Done => AnswerView::Done,
            Answer::Float(f) => AnswerView::Float(*f),
            Answer::Int(i) => AnswerView::Int(*i),
            Answer::Text(s) => AnswerView::Text(s@),
            Answer::Parsed(f) => AnswerView::Parsed(*f),
            Answer::Value(r) => AnswerView::Value(crate::value_result(*r)),
        }
    }
}

/// What an instruction comes to: a value, or work for the host.
#[derive(Debug, PartialEq)]
pub enum Outcome {
    Value(Value),
    Request(Request),
}

/// The model of an [`Outcome`].
pub enum OutcomeView {
    Value(ValueView),
    Request(RequestView),
}

impl View for Outcome {
    type V = OutcomeView;

    open spec fn view(&self) -> OutcomeView {
        match self {
            Outcome::Value(v) => OutcomeView::Value(v@),
            Outcome::Request(q) => OutcomeView::Request(q@),
        }
    }
}

/// The model of a result that carries an outcome.
pub type OutcomeModel = std::result::Result<OutcomeView, ErrorView>;

/// The model of a result that carries an outcome.
pub open spec fn outcome_result(r: Result<Outcome>) -> OutcomeModel {
    match r {
        Ok(o) => Ok(o@),
        Err(e) => Err(e@),
    }
}

/// The instruction comes to this value.
pub open spec fn done(v: ValueView) -> OutcomeModel {
    Ok(OutcomeView::Value(v))
}

/// The instruction leaves this work to the host.
pub open spec fn ask(q: RequestView) -> OutcomeModel {
    Ok(OutcomeView::Request(q))
}

impl Clone for Request {
    fn clone(&self) -> (r: Self)
        ensures
            r@ == self@,
    {
        match self {
            Request::Debug(v) => Request::Debug(v.clone()),
            Request::Sleep(f) => Request::Sleep(*f),
            Request::Arithmetic(op, l, r) => Request::Arithmetic(*op, *l, *r),
            Request::IntToFloat(i) => Request::IntToFloat(*i),
            Request::FloatToInt(f) => Request::FloatToInt(*f),
            Request::FloatToText(f) => Request::FloatToText(*f),
            Request::TextToFloat(s) => Request::TextToFloat(s.clone()),
            Request::Load(v) => Request::Load(v.clone()),
            Request::Run(p, v) => Request::Run(p.clone(), v.clone()),
            Request::External(e, v) => Request::External(e.clone(), v.clone()),
        }
    }
}

impl Clone for Outcome {
    fn clone(&self) -> (r: Self)
        ensures
            r@ == self@,
    {
        match self {
            Outcome::Value(v) => Outcome::Value(v.clone()),
            Outcome::Request(q) => Outcome::Request(q.clone()),
        }
    }
}

/// Whether the answer is of the kind that the request asks for.
pub open spec fn fits(request: RequestView, answer: AnswerView) -> bool {
    match (request, answer) {
        (RequestView::Debug(_), AnswerView::Done) => true,
        (RequestView::Sleep(_), AnswerView::Done) => true,
        (RequestView::Arithmetic(_, _, _), AnswerView::Float(_)) => true,
        (RequestView::IntToFloat(_), AnswerView::Float(_)) => true,
        (RequestView::FloatToInt(_), AnswerView::Int(_)) => true,
        (RequestView::FloatToText(_), AnswerView::Text(_)) => true,
        (RequestView::TextToFloat(_), AnswerView::Parsed(_)) => true,
        (RequestView::Load(_), AnswerView::Value(_)) => true,
        (RequestView::Run(_, _), AnswerView::Value(_)) => true,
        _ => false,
    }
}

/// What the instruction that made the request comes to, given an answer that fits.
pub open spec fn fulfil_spec(request: RequestView, answer: AnswerView) -> ValueModel {
    match (request, answer) {
        (RequestView::Debug(v), _) => Ok(v),
        (RequestView::Sleep(_), _) => Ok(ValueView::Nil),
        (_, AnswerView::Float(f)) => Ok(ValueView::Float(f)),
        (_, AnswerView::Int(i)) => Ok(ValueView::Int(i)),
        (_, AnswerView::Text(s)) => Ok(ValueView::String(s)),
        (RequestView::TextToFloat(s), AnswerView::Parsed(parsed)) => match parsed {
            Some(f) => Ok(ValueView::Float(f)),
            None => Err(ErrorView::FailedParse(Type::Float, ValueView::String(s))),
        },
        (_, AnswerView::Value(r)) => r,
        _ => Ok(ValueView::Nil),
    }
}

impl Request {
    /// Whether the answer is of the kind that the request asks for.
    pub fn fits(&self, answer: &Answer) -> (r: bool)
        ensures
            r == fits(self@, answer@),
    {
        match (self, answer) {
            (Request::Debug(_), Answer::Done) => true,
            (Request::Sleep(_), Answer::Done) => true,
            (Request::Arithmetic(_, _, _), Answer::Float(_)) => true,
            (Request::IntToFloat(_), Answer::Float(_)) => true,
            (Request::FloatToInt(_), Answer::Int(_)) => true,
            (Request::FloatToText(_), Answer::Text(_)) => true,
            (Request::TextToFloat(_), Answer::Parsed(_)) => true,
            (Request::Load(_), Answer::Value(_)) => true,
            (Request::Run(_, _), Answer::Value(_)) => true,
            _ => false,
        }
    }

    /// What the instruction that made the request comes to with the answer of the
    /// host; the request itself where the answer does not fit it.
    pub fn fulfil(self, answer: Answer) -> (r: std::result::Result<Result<Value>, Request>)
        ensures
            r is Ok == fits(self@, answer@),
            r matches Ok(v) ==> value_result(v) == fulfil_spec(self@, answer@),
            r matches Err(request) ==> request == self,
    {
        match (self, answer) {
            (Request::Debug(v), Answer::Done) => Ok(Ok(v)),
            (Request::Sleep(_), Answer::Done) => Ok(Ok(Value::Nil)),
            (Request::Arithmetic(_, _, _), Answer::Float(f)) => Ok(Ok(Value::Float(f))),
            (Request::IntToFloat(_), Answer::Float(f)) => Ok(Ok(Value::Float(f))),
            (Request::FloatToInt(_), Answer::Int(i)) => Ok(Ok(Value::Int(i))),
            (Request::FloatToText(_), Answer::Text(s)) => Ok(Ok(Value::String(s))),
            (Request::TextToFloat(s), Answer::Parsed(parsed)) => match parsed {
                Some(f) => Ok(Ok(Value::Float(f))),
                None => Ok(Err(Error::FailedParse(Type::Float, Value::String(s)))),
            },
            (Request::Load(_), Answer::Value(r)) => Ok(r),
            (Request::Run(_, _), Answer::Value(r)) => Ok(r),
            (request, _) => Err(request),
        }
    }
}

} // verus!
