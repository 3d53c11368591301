//! A line of text.

use vstd::prelude::*;
use crate::component::{key_echo, Component, PropsBuilder};
use crate::event::Event;
use crate::frame::{Frame, ParagraphView, ParagraphWidget, Rect, Style, StyleView, Widget, WidgetView};
use crate::msg::{Msg, MsgView, Payload, PayloadView};
use crate::props::{
    default_props, PropPayload, PropPayloadView, PropValue, PropValueView, Props, PropsView,
};
use crate::style::{Alignment, Color, Modifier};

verus! {

/// The payload name of the alignment of the text.
pub const PROP_ALIGNMENT: &'static str = "text-alignment";

/// The payload name of the text.
pub const PROP_TEXT: &'static str = "text";

/// The two names under which a label keeps its payload differ.
pub proof fn lemma_names_differ()
    ensures
        PROP_ALIGNMENT@ != PROP_TEXT@,
{
    reveal_strlit("text-alignment");
    reveal_strlit("text");
    assert(PROP_ALIGNMENT@.len() == 14);
    assert(PROP_TEXT@.len() == 4);
}

// -- Props

/// Builds the properties of a [`Label`].
pub struct LabelPropsBuilder {
    props: Option<Props>,
}

impl PropsBuilder for LabelPropsBuilder {
    closed spec fn pending(&self) -> Option<PropsView> {
        match self.props {
            Some(p) => Some(p@),
            None => None,
        }
    }

    fn build(&mut self) -> (props: Props) {
        let taken = self.props.take();
        taken.unwrap()
    }

    fn hidden(&mut self) -> (r: &mut Self) {
        match &mut self.props {
            Some(props) => {
                props.visible = false;
            },
            None => {},
        }
        self
    }

    fn visible(&mut self) -> (r: &mut Self) {
        match &mut self.props {
            Some(props) => {
                props.visible = true;
            },
            None => {},
        }
        self
    }
}

impl Default for LabelPropsBuilder {
    /// A builder that starts from the default properties.
    fn default() -> (r: Self)
        ensures
            r.pending() == Some(default_props()),
    {
        LabelPropsBuilder { props: Some(Props::default()) }
    }
}

impl From<Props> for LabelPropsBuilder {
    /// A builder that starts from `props`.
    fn from(props: Props) -> (r: Self)
        ensures
            r.pending() == Some(props@),
    {
        LabelPropsBuilder { props: Some(props) }
    }
}

impl vstd::std_specs::convert::FromSpecImpl<Props> for LabelPropsBuilder {
    open spec fn obeys_from_spec() -> bool {
        true
    }

    closed spec fn from_spec(props: Props) -> Self {
        LabelPropsBuilder { props: Some(props) }
    }
}

impl LabelPropsBuilder {
    /// Sets the foreground color.
    pub fn with_foreground(&mut self, color: Color) -> (r: &mut Self)
        ensures
            *final(self) == *final(r),
            r.pending() == match old(self).pending() {
                Some(p) => Some(PropsView { foreground: color, ..p }),
                None => None,
            },
    {
        match &mut self.props {
            Some(props) => {
                props.foreground = color;
            },
            None => {},
        }
        self
    }

    /// Sets the background color.
    pub fn with_background(&mut self, color: Color) -> (r: &mut Self)
        ensures
            *final(self) == *final(r),
            r.pending() == match old(self).pending() {
                Some(p) => Some(PropsView { background: color, ..p }),
                None => None,
            },
    {
        match &mut self.props {
            Some(props) => {
                props.background = color;
            },
            None => {},
        }
        self
    }

    /// Adds the modifier `m`.
    fn with_modifier(&mut self, m: Modifier)
        ensures
            final(self).pending() == match old(self).pending() {
                Some(p) => Some(PropsView { modifiers: p.modifiers.insert(m), ..p }),
                None => None,
            },
    {
        match &mut self.props {
            Some(props) => {
                props.modifiers.insert(m);
            },
            None => {},
        }
    }

    /// Makes the text bold.
    pub fn bold(&mut self) -> (r: &mut Self)
        ensures
            *final(self) == *final(r),
            r.pending() == match old(self).pending() {
                Some(p) => Some(
                    PropsView { modifiers: p.modifiers.insert(Modifier::Bold), ..p },
                ),
                None => None,
            },
    {
        self.with_modifier(Modifier::Bold);
        self
    }

    /// Makes the text italic.
    pub fn italic(&mut self) -> (r: &mut Self)
        ensures
            *final(self) == *final(r),
            r.pending() == match old(self).pending() {
                Some(p) => Some(
                    PropsView { modifiers: p.modifiers.insert(Modifier::Italic), ..p },
                ),
                None => None,
            },
    {
        self.with_modifier(Modifier::Italic);
        self
    }

    /// Underlines the text.
    pub fn underlined(&mut self) -> (r: &mut Self)
        ensures
            *final(self) == *final(r),
            r.pending() == match old(self).pending() {
                Some(p) => Some(
                    PropsView { modifiers: p.modifiers.insert(Modifier::Underlined), ..p },
                ),
                None => None,
            },
    {
        self.with_modifier(Modifier::Underlined);
        self
    }

    /// Makes the text blink slowly.
    pub fn slow_blink(&mut self) -> (r: &mut Self)
        ensures
            *final(self) == *final(r),
            r.pending() == match old(self).pending() {
                Some(p) => Some(
                    PropsView { modifiers: p.modifiers.insert(Modifier::SlowBlink), ..p },
                ),
                None => None,
            },
    {
        self.with_modifier(Modifier::SlowBlink);
        self
    }

    /// Makes the text blink rapidly.
    pub fn rapid_blink(&mut self) -> (r: &mut Self)
        ensures
            *final(self) == *final(r),
            r.pending() == match old(self).pending() {
                Some(p) => Some(
                    PropsView { modifiers: p.modifiers.insert(Modifier::RapidBlink), ..p },
                ),
                None => None,
            },
    {
        self.with_modifier(Modifier::RapidBlink);
        self
    }

    /// Swaps foreground and background of the text.
    pub fn reversed(&mut self) -> (r: &mut Self)
        ensures
            *final(self) == *final(r),
            r.pending() == match old(self).pending() {
                Some(p) => Some(
                    PropsView { modifiers: p.modifiers.insert(Modifier::Reversed), ..p },
                ),
                None => None,
            },
    {
        self.with_modifier(Modifier::Reversed);
        self
    }

    /// Strikes the text through.
    pub fn strikethrough(&mut self) -> (r: &mut Self)
        ensures
            *final(self) == *final(r),
            r.pending() == match old(self).pending() {
                Some(p) => Some(
                    PropsView { modifiers: p.modifiers.insert(Modifier::CrossedOut), ..p },
                ),
                None => None,
            },
    {
        self.with_modifier(Modifier::CrossedOut);
        self
    }

    /// Sets the text.
    pub fn with_text(&mut self, text: &str) -> (r: &mut Self)
        ensures
            *final(self) == *final(r),
            r.pending() == match old(self).pending() {
                Some(p) => Some(
                    PropsView {
                        own: p.own.insert(
                            PROP_TEXT@,
                            PropPayloadView::One(PropValueView::Str(text@)),
                        ),
                        ..p
                    },
                ),
                None => None,
            },
    {
        match &mut self.props {
            Some(props) => {
                props.own.insert(PROP_TEXT, PropPayload::One(PropValue::Str(text.to_owned())));
            },
            None => {},
        }
        self
    }

    /// Sets the alignment of the text.
    pub fn with_text_alignment(&mut self, alignment: Alignment) -> (r: &mut Self)
        ensures
            *final(self) == *final(r),
            r.pending() == match old(self).pending() {
                Some(p) => Some(
                    PropsView {
                        own: p.own.insert(
                            PROP_ALIGNMENT@,
                            PropPayloadView::One(PropValueView::Alignment(alignment)),
                        ),
                        ..p
                    },
                ),
                None => None,
            },
    {
        match &mut self.props {
            Some(props) => {
                props.own.insert(
                    PROP_ALIGNMENT,
                    PropPayload::One(PropValue::Alignment(alignment)),
                );
            },
            None => {},
        }
        self
    }
}

// -- Component

/// The text that the properties hold; empty where they hold none.
pub open spec fn label_text_of(props: PropsView) -> Seq<char> {
    if props.own.dom().contains(PROP_TEXT@) {
        match props.own[PROP_TEXT@] {
            PropPayloadView::One(PropValueView::Str(t)) => t,
            _ => Seq::empty(),
        }
    } else {
        Seq::empty()
    }
}

/// The alignment that the properties hold; left where they hold none.
pub open spec fn alignment_of(props: PropsView) -> Alignment {
    if props.own.dom().contains(PROP_ALIGNMENT@) {
        match props.own[PROP_ALIGNMENT@] {
            PropPayloadView::One(PropValueView::Alignment(a)) => a,
            _ => Alignment::Left,
        }
    } else {
        Alignment::Left
    }
}

/// What a label with the properties `props` draws; nothing where it is
/// hidden.
pub open spec fn label_drawing(props: PropsView) -> Option<WidgetView> {
    if props.visible {
        Some(
            WidgetView::Paragraph(
                ParagraphView {
                    text: label_text_of(props),
                    style: StyleView {
                        fg: props.foreground,
                        bg: props.background,
                        modifiers: props.modifiers,
                    },
                    alignment: alignment_of(props),
                },
            ),
        )
    } else {
        None
    }
}

/// A line of text that takes no input. Its model is its properties: it has
/// no state beside them.
pub struct Label {
    props: Props,
}

impl View for Label {
    type V = PropsView;

    closed spec fn view(&self) -> PropsView {
        self.props@
    }
}

impl Label {
    /// A label with the properties `props`.
    pub fn new(props: Props) -> (r: Self)
        ensures
            r@ == props@,
    {
        Label { props }
    }

    /// The properties of the label.
    pub fn props(&self) -> (r: &Props)
        ensures
            r@ == self@,
    {
        &self.props
    }
}

impl Component for Label {
    open spec fn props_of(m: PropsView) -> PropsView {
        m
    }

    open spec fn updated(m: PropsView, props: PropsView) -> PropsView {
        props
    }

    open spec fn handled(m: PropsView, ev: Event) -> PropsView {
        m
    }

    open spec fn reply(m: PropsView, ev: Event) -> MsgView {
        key_echo(ev)
    }

    open spec fn state_of(m: PropsView) -> PayloadView {
        PayloadView::Empty
    }

    open spec fn activated(m: PropsView) -> PropsView {
        m
    }

    open spec fn blurred(m: PropsView) -> PropsView {
        m
    }

    open spec fn drawing(m: PropsView) -> Option<WidgetView> {
        label_drawing(m)
    }

    open spec fn fits(m: PropsView) -> bool {
        true
    }

    proof fn lemma_fits_kept(m: PropsView, ev: Event, props: PropsView) {
    }

    proof fn lemma_update_round_trip(m: PropsView) {
    }

    fn render(&self, frame: &mut Frame, area: Rect) {
        if self.props.visible {
            let text: String = match self.props.own.get(PROP_TEXT) {
                Some(PropPayload::One(PropValue::Str(t))) => t.clone(),
                _ => String::new(),
            };
            let alignment: Alignment = match self.props.own.get(PROP_ALIGNMENT) {
                Some(PropPayload::One(PropValue::Alignment(alignment))) => *alignment,
                _ => Alignment::Left,
            };
            let paragraph = ParagraphWidget {
                text,
                style: Style {
                    fg: self.props.foreground,
                    bg: self.props.background,
                    modifiers: self.props.modifiers,
                },
                alignment,
            };
            frame.render_widget(Widget::Paragraph(paragraph), area);
        }
    }

    fn update(&mut self, props: Props) -> (msg: Msg) {
        self.props = props;
        Msg::NoOp
    }

    fn get_props(&self) -> (props: Props) {
        self.props.clone()
    }

    fn on(&mut self, ev: Event) -> (msg: Msg) {
        match ev {
            Event::Key(key) => Msg::OnKey(key),
            _ => Msg::NoOp,
        }
    }

    fn get_state(&self) -> (payload: Payload) {
        Payload::Empty
    }

    fn blur(&mut self) {
    }

    fn active(&mut self) {
    }
}

} // verus!
