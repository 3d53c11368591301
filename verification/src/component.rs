//! The capability contract that every component meets.

use vstd::prelude::*;
use crate::event::Event;
use crate::frame::{DrawView, Frame, Rect, WidgetView};
use crate::msg::{Msg, MsgView, Payload, PayloadView};
use crate::props::{Props, PropsView};

verus! {

/// The message that answers an event: a key is handed on as it came, whether
/// or not the component did anything with it; nothing else is reported.
pub open spec fn key_echo(ev: Event) -> MsgView {
    match ev {
        Event::Key(key) => MsgView::OnKey(key),
        _ => MsgView::NoOp,
    }
}

/// A stateful widget.
///
/// The model of a component (its view) is the state of a state machine. The
/// spec functions of this trait are the machine: what state follows an event,
/// a property push or a focus notification, and what the component shows and
/// reports in a state. The executable methods are held to that machine.
pub trait Component: View + Sized {
    /// The properties of a component in state `m`.
    spec fn props_of(m: Self::V) -> PropsView;

    /// The state after the properties have been replaced by `props`.
    spec fn updated(m: Self::V, props: PropsView) -> Self::V;

    /// The state after the event `ev`.
    spec fn handled(m: Self::V, ev: Event) -> Self::V;

    /// The message that answers the event `ev` in state `m`.
    spec fn reply(m: Self::V, ev: Event) -> MsgView;

    /// The externally visible value in state `m`.
    spec fn state_of(m: Self::V) -> PayloadView;

    /// The state after the component has been told that it has the focus.
    spec fn activated(m: Self::V) -> Self::V;

    /// The state after the component has been told that it lost the focus.
    spec fn blurred(m: Self::V) -> Self::V;

    /// What the component draws in state `m`; nothing where it is hidden.
    spec fn drawing(m: Self::V) -> Option<WidgetView>;

    /// Whether the state `m` fits its properties: what the component keeps
    /// beside them is what it derives from them.
    spec fn fits(m: Self::V) -> bool;

    /// Nothing that happens to a component leaves it in a state that does
    /// not fit, and a property push makes any state fit.
    proof fn lemma_fits_kept(m: Self::V, ev: Event, props: PropsView)
        ensures
            Self::fits(Self::updated(m, props)),
            Self::fits(m) ==> Self::fits(Self::handled(m, ev)),
            Self::fits(m) ==> Self::fits(Self::activated(m)),
            Self::fits(m) ==> Self::fits(Self::blurred(m)),
    ;

    /// Pushing to a component the properties that it has leaves what it
    /// draws as it is.
    proof fn lemma_update_round_trip(m: Self::V)
        requires
            Self::fits(m),
        ensures
            Self::drawing(Self::updated(m, Self::props_of(m))) == Self::drawing(m),
    ;

    /// Draws the component into `area`. A hidden component draws nothing, and
    /// drawing never changes the component.
    fn render(&self, frame: &mut Frame, area: Rect)
        ensures
            final(frame)@ == match Self::drawing(self@) {
                Some(widget) => old(frame)@.push(DrawView { area, widget }),
                None => old(frame)@,
            },
            !Self::props_of(self@).visible ==> final(frame)@ == old(frame)@,
    ;

    /// Replaces the properties by `props` and derives the state that depends
    /// on them anew. This is a push of properties, no user action: the answer
    /// is always the message that nothing happened.
    fn update(&mut self, props: Props) -> (msg: Msg)
        ensures
            final(self)@ == Self::updated(old(self)@, props@),
            Self::props_of(final(self)@) == props@,
            msg@ == MsgView::NoOp,
    ;

    /// A copy of the properties.
    fn get_props(&self) -> (props: Props)
        ensures
            props@ == Self::props_of(self@),
    ;

    /// Handles the event `ev` and says what happened.
    fn on(&mut self, ev: Event) -> (msg: Msg)
        ensures
            final(self)@ == Self::handled(old(self)@, ev),
            msg@ == Self::reply(old(self)@, ev),
    ;

    /// The externally visible value.
    fn get_state(&self) -> (payload: Payload)
        ensures
            payload@ == Self::state_of(self@),
    ;

    /// Tells the component that it lost the focus.
    fn blur(&mut self)
        ensures
            final(self)@ == Self::blurred(old(self)@),
    ;

    /// Tells the component that it has the focus.
    fn active(&mut self)
        ensures
            final(self)@ == Self::activated(old(self)@),
    ;
}

/// Builds the properties of a component step by step.
///
/// `build` hands the properties out and leaves the builder spent. A spent
/// builder ignores every further step and cannot build again.
pub trait PropsBuilder: Sized {
    /// The properties built so far; `None` once they have been handed out.
    spec fn pending(&self) -> Option<PropsView>;

    /// Hands the properties out.
    fn build(&mut self) -> (props: Props)
        requires
            old(self).pending() is Some,
        ensures
            Some(props@) == old(self).pending(),
            final(self).pending() is None,
    ;

    /// Hides the component.
    fn hidden(&mut self) -> (r: &mut Self)
        ensures
            *final(self) == *final(r),
            r.pending() == match old(self).pending() {
                Some(p) => Some(PropsView { visible: false, ..p }),
                None => None,
            },
    ;

    /// Shows the component.
    fn visible(&mut self) -> (r: &mut Self)
        ensures
            *final(self) == *final(r),
            r.pending() == match old(self).pending() {
                Some(p) => Some(PropsView { visible: true, ..p }),
                None => None,
            },
    ;
}

} // verus!
