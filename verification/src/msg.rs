//! Messages that components emit and the values they expose.

use vstd::prelude::*;
use crate::event::KeyEvent;

verus! {

/// A scalar that a component exposes as (part of) its value.
#[derive(Debug, PartialEq, Eq)]
pub enum Value {
    Bool(bool),
    Usize(usize),
    Str(String),
}

/// The model of a [`Value`].
pub enum ValueView {
    Bool(bool),
    Usize(usize),
    Str(Seq<char>),
}

impl View for Value {
    type V = ValueView;

    open spec fn view(&self) -> ValueView {
        match self {
            Value::Bool(b) => ValueView::Bool(*b),
            Value::Usize(n) => ValueView::Usize(*n),
            Value::Str(s) => ValueView::Str(s@),
        }
    }
}

impl Clone for Value {
    fn clone(&self) -> (r: Self)
        ensures
            r@ == self@,
    {
        match self {
            Value::Bool(b) => Value::Bool(*b),
            Value::Usize(n) => Value::Usize(*n),
            Value::Str(s) => Value::Str(s.clone()),
        }
    }
}

/// The models of a sequence of values, in order.
pub open spec fn values_view(s: Seq<Value>) -> Seq<ValueView> {
    Seq::new(s.len(), |i: int| s[i]@)
}

/// A copy of `values`.
pub fn clone_values(values: &Vec<Value>) -> (r: Vec<Value>)
    ensures
        values_view(r@) == values_view(values@),
{
    let mut r: Vec<Value> = Vec::new();
    let mut i: usize = 0;
    while i < values.len()
        invariant
            i <= values.len(),
            r.len() == i,
            forall|j: int| 0 <= j < i ==> r@[j]@ == values@[j]@,
        decreases values.len() - i,
    {
        r.push(values[i].clone());
        i += 1;
    }
    assert(values_view(r@) =~= values_view(values@));
    r
}

/// The externally visible value of a component.
#[derive(Debug, PartialEq, Eq)]
pub enum Payload {
    /// One scalar.
    One(Value),
    /// A sequence of scalars.
    Many(Vec<Value>),
    /// The component has no value.
    Empty,
}

/// The model of a [`Payload`].
pub enum PayloadView {
    One(ValueView),
    Many(Seq<ValueView>),
    Empty,
}

impl View for Payload {
    type V = PayloadView;

    open spec fn view(&self) -> PayloadView {
        match self {
            Payload::One(v) => PayloadView::One(v@),
            Payload::Many(vs) => PayloadView::Many(values_view(vs@)),
            Payload::Empty => PayloadView::Empty,
        }
    }
}

impl Clone for Payload {
    fn clone(&self) -> (r: Self)
        ensures
            r@ == self@,
    {
        match self {
            Payload::One(v) => Payload::One(v.clone()),
            Payload::Many(vs) => Payload::Many(clone_values(vs)),
            Payload::Empty => Payload::Empty,
        }
    }
}

/// What a component reports after an event or a property push.
#[derive(Debug, PartialEq, Eq)]
pub enum Msg {
    /// The user confirmed the component's value.
    OnSubmit(Payload),
    /// The component's value changed.
    OnChange(Payload),
    /// A key was pressed; the key is handed on as it came.
    OnKey(KeyEvent),
    /// Nothing happened.
    NoOp,
}

/// The model of a [`Msg`].
pub enum MsgView {
    OnSubmit(PayloadView),
    OnChange(PayloadView),
    OnKey(KeyEvent),
    NoOp,
}

impl View for Msg {
    type V = MsgView;

    open spec fn view(&self) -> MsgView {
        match self {
            Msg::OnSubmit(p) => MsgView::OnSubmit(p@),
            Msg::OnChange(p) => MsgView::OnChange(p@),
            Msg::OnKey(k) => MsgView::OnKey(*k),
            Msg::NoOp => MsgView::NoOp,
        }
    }
}

impl Clone for Msg {
    fn clone(&self) -> (r: Self)
        ensures
            r@ == self@,
    {
        match self {
            Msg::OnSubmit(p) => Msg::OnSubmit(p.clone()),
            Msg::OnChange(p) => Msg::OnChange(p.clone()),
            Msg::OnKey(k) => Msg::OnKey(*k),
            Msg::NoOp => Msg::NoOp,
        }
    }
}

} // verus!
