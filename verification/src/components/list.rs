//! A list of rows, optionally scrollable with a selected row.

use vstd::prelude::*;
use crate::component::{key_echo, Component, PropsBuilder};
use crate::components::utils::{block_of, get_block, lines_of, make_lines};
use crate::event::{Event, KeyCode};
use crate::frame::{
    lines_view, Frame, ListWidget, ListWidgetView, Rect, Span, Style, StyleView, Widget, WidgetView,
};
use crate::msg::{Msg, MsgView, Payload, PayloadView};
use crate::props::{
    default_props, PropPayload, PropPayloadView, PropValue, PropValueView, Props, PropsView,
};
use crate::style::{BorderType, Borders, BordersProps, Color, Modifier};
use crate::text::{table_view, Table, TextSpanView};

verus! {

/// The palette name of the color of the selected row.
pub const COLOR_HIGHLIGHTED: &'static str = "highlighted-color";

/// The payload name of the flag that makes the list scrollable.
pub const PROP_SCROLLABLE: &'static str = "scrollable";

/// The payload name of the text that marks the selected row.
pub const PROP_HIGHLIGHTED_TXT: &'static str = "highlighted-txt";

/// The payload name of the largest step of a page key.
pub const PROP_MAX_STEP: &'static str = "max-step";

/// The payload name of the rows.
pub const PROP_TABLE: &'static str = "table";

/// The payload name of the title.
pub const PROP_TITLE: &'static str = "title";

/// The step of a page key where the properties name none.
pub const DEFAULT_MAX_STEP: usize = 8;

/// The names under which a list keeps its payload differ from one another.
pub proof fn lemma_names_differ()
    ensures
        PROP_SCROLLABLE@ != PROP_HIGHLIGHTED_TXT@,
        PROP_SCROLLABLE@ != PROP_MAX_STEP@,
        PROP_SCROLLABLE@ != PROP_TABLE@,
        PROP_SCROLLABLE@ != PROP_TITLE@,
        PROP_HIGHLIGHTED_TXT@ != PROP_MAX_STEP@,
        PROP_HIGHLIGHTED_TXT@ != PROP_TABLE@,
        PROP_HIGHLIGHTED_TXT@ != PROP_TITLE@,
        PROP_MAX_STEP@ != PROP_TABLE@,
        PROP_MAX_STEP@ != PROP_TITLE@,
        PROP_TABLE@ != PROP_TITLE@,
{
    reveal_strlit("scrollable");
    reveal_strlit("highlighted-txt");
    reveal_strlit("max-step");
    reveal_strlit("table");
    reveal_strlit("title");
    assert(PROP_SCROLLABLE@.len() == 10);
    assert(PROP_HIGHLIGHTED_TXT@.len() == 15);
    assert(PROP_MAX_STEP@.len() == 8);
    assert(PROP_TABLE@.len() == 5);
    assert(PROP_TITLE@.len() == 5);
    assert(PROP_TABLE@[1] == 'a');
    assert(PROP_TITLE@[1] == 'i');
}

// -- Props

/// Builds the properties of a [`List`].
pub struct ListPropsBuilder {
    props: Option<Props>,
}

impl PropsBuilder for ListPropsBuilder {
    closed spec fn pending(&self) -> Option<PropsView> {
        match self.props {
            Some(p) => Some(p@),
            None => None,
        }
    }

    fn build(&mut self) -> (props: Props) {
        let taken = self.props.take();
        taken.unwrap()
    }

    fn hidden(&mut self) -> (r: &mut Self) {
        match &mut self.props {
            Some(props) => {
                props.visible = false;
            },
            None => {},
        }
        self
    }

    fn visible(&mut self) -> (r: &mut Self) {
        match &mut self.props {
            Some(props) => {
                props.visible = true;
            },
            None => {},
        }
        self
    }
}

impl Default for ListPropsBuilder {
    /// A builder that starts from the default properties.
    fn default() -> (r: Self)
        ensures
            r.pending() == Some(default_props()),
    {
        ListPropsBuilder { props: Some(Props::default()) }
    }
}

impl From<Props> for ListPropsBuilder {
    /// A builder that starts from `props`.
    fn from(props: Props) -> (r: Self)
        ensures
            r.pending() == Some(props@),
    {
        ListPropsBuilder { props: Some(props) }
    }
}

impl vstd::std_specs::convert::FromSpecImpl<Props> for ListPropsBuilder {
    open spec fn obeys_from_spec() -> bool {
        true
    }

    closed spec fn from_spec(props: Props) -> Self {
        ListPropsBuilder { props: Some(props) }
    }
}

impl ListPropsBuilder {
    /// Sets the foreground color.
    pub fn with_foreground(&mut self, color: Color) -> (r: &mut Self)
        ensures
            *final(self) == *final(r),
            r.pending() == match old(self).pending() {
                Some(p) => Some(PropsView { foreground: color, ..p }),
                None => None,
            },
    {
        match &mut self.props {
            Some(props) => {
                props.foreground = color;
            },
            None => {},
        }
        self
    }

    /// Sets the background color.
    pub fn with_background(&mut self, color: Color) -> (r: &mut Self)
        ensures
            *final(self) == *final(r),
            r.pending() == match old(self).pending() {
                Some(p) => Some(PropsView { background: color, ..p }),
                None => None,
            },
    {
        match &mut self.props {
            Some(props) => {
                props.background = color;
            },
            None => {},
        }
        self
    }

    /// Sets the color of the selected row.
    pub fn with_highlighted_color(&mut self, color: Color) -> (r: &mut Self)
        ensures
            *final(self) == *final(r),
            r.pending() == match old(self).pending() {
                Some(p) => Some(
                    PropsView { palette: p.palette.insert(COLOR_HIGHLIGHTED@, color), ..p },
                ),
                None => None,
            },
    {
        match &mut self.props {
            Some(props) => {
                props.palette.insert(COLOR_HIGHLIGHTED, color);
            },
            None => {},
        }
        self
    }

    /// Sets the border: its edges, its line variant and its color.
    pub fn with_borders(&mut self, borders: Borders, variant: BorderType, color: Color) -> (r:
        &mut Self)
        ensures
            *final(self) == *final(r),
            r.pending() == match old(self).pending() {
                Some(p) => Some(
                    PropsView { borders: BordersProps { borders, variant, color }, ..p },
                ),
                None => None,
            },
    {
        match &mut self.props {
            Some(props) => {
                props.borders = BordersProps { borders, variant, color };
            },
            None => {},
        }
        self
    }

    /// Adds the modifier `m`.
    fn with_modifier(&mut self, m: Modifier)
        ensures
            final(self).pending() == match old(self).pending() {
                Some(p) => Some(PropsView { modifiers: p.modifiers.insert(m), ..p }),
                None => None,
            },
    {
        match &mut self.props {
            Some(props) => {
                props.modifiers.insert(m);
            },
            None => {},
        }
    }

    /// Makes the text bold.
    pub fn bold(&mut self) -> (r: &mut Self)
        ensures
            *final(self) == *final(r),
            r.pending() == match old(self).pending() {
                Some(p) => Some(
                    PropsView { modifiers: p.modifiers.insert(Modifier::Bold), ..p },
                ),
                None => None,
            },
    {
        self.with_modifier(Modifier::Bold);
        self
    }

    /// Makes the text italic.
    pub fn italic(&mut self) -> (r: &mut Self)
        ensures
            *final(self) == *final(r),
            r.pending() == match old(self).pending() {
                Some(p) => Some(
                    PropsView { modifiers: p.modifiers.insert(Modifier::Italic), ..p },
                ),
                None => None,
            },
    {
        self.with_modifier(Modifier::Italic);
        self
    }

    /// Underlines the text.
    pub fn underlined(&mut self) -> (r: &mut Self)
        ensures
            *final(self) == *final(r),
            r.pending() == match old(self).pending() {
                Some(p) => Some(
                    PropsView { modifiers: p.modifiers.insert(Modifier::Underlined), ..p },
                ),
                None => None,
            },
    {
        self.with_modifier(Modifier::Underlined);
        self
    }

    /// Makes the text blink slowly.
    pub fn slow_blink(&mut self) -> (r: &mut Self)
        ensures
            *final(self) == *final(r),
            r.pending() == match old(self).pending() {
                Some(p) => Some(
                    PropsView { modifiers: p.modifiers.insert(Modifier::SlowBlink), ..p },
                ),
                None => None,
            },
    {
        self.with_modifier(Modifier::SlowBlink);
        self
    }

    /// Makes the text blink rapidly.
    pub fn rapid_blink(&mut self) -> (r: &mut Self)
        ensures
            *final(self) == *final(r),
            r.pending() == match old(self).pending() {
                Some(p) => Some(
                    PropsView { modifiers: p.modifiers.insert(Modifier::RapidBlink), ..p },
                ),
                None => None,
            },
    {
        self.with_modifier(Modifier::RapidBlink);
        self
    }

    /// Swaps foreground and background of the text.
    pub fn reversed(&mut self) -> (r: &mut Self)
        ensures
            *final(self) == *final(r),
            r.pending() == match old(self).pending() {
                Some(p) => Some(
                    PropsView { modifiers: p.modifiers.insert(Modifier::Reversed), ..p },
                ),
                None => None,
            },
    {
        self.with_modifier(Modifier::Reversed);
        self
    }

    /// Strikes the text through.
    pub fn strikethrough(&mut self) -> (r: &mut Self)
        ensures
            *final(self) == *final(r),
            r.pending() == match old(self).pending() {
                Some(p) => Some(
                    PropsView { modifiers: p.modifiers.insert(Modifier::CrossedOut), ..p },
                ),
                None => None,
            },
    {
        self.with_modifier(Modifier::CrossedOut);
        self
    }

    /// Sets the rows.
    pub fn with_rows(&mut self, table: Table) -> (r: &mut Self)
        ensures
            *final(self) == *final(r),
            r.pending() == match old(self).pending() {
                Some(p) => Some(
                    PropsView {
                        own: p.own.insert(
                            PROP_TABLE@,
                            PropPayloadView::One(PropValueView::Table(table_view(table@))),
                        ),
                        ..p
                    },
                ),
                None => None,
            },
    {
        match &mut self.props {
            Some(props) => {
                props.own.insert(PROP_TABLE, PropPayload::One(PropValue::Table(table)));
            },
            None => {},
        }
        self
    }

    /// Sets the text that marks the selected row, or takes it away.
    pub fn with_highlighted_str(&mut self, s: Option<&str>) -> (r: &mut Self)
        ensures
            *final(self) == *final(r),
            r.pending() == match old(self).pending() {
                Some(p) => Some(
                    PropsView {
                        own: match s {
                            Some(text) => p.own.insert(
                                PROP_HIGHLIGHTED_TXT@,
                                PropPayloadView::One(PropValueView::Str(text@)),
                            ),
                            None => p.own.remove(PROP_HIGHLIGHTED_TXT@),
                        },
                        ..p
                    },
                ),
                None => None,
            },
    {
        match &mut self.props {
            Some(props) => {
                match s {
                    None => {
                        props.own.remove(PROP_HIGHLIGHTED_TXT);
                    },
                    Some(text) => {
                        props.own.insert(
                            PROP_HIGHLIGHTED_TXT,
                            PropPayload::One(PropValue::Str(text.to_owned())),
                        );
                    },
                }
            },
            None => {},
        }
        self
    }

    /// Sets the title.
    pub fn with_title(&mut self, title: &str) -> (r: &mut Self)
        ensures
            *final(self) == *final(r),
            r.pending() == match old(self).pending() {
                Some(p) => Some(
                    PropsView {
                        own: p.own.insert(
                            PROP_TITLE@,
                            PropPayloadView::One(PropValueView::Str(title@)),
                        ),
                        ..p
                    },
                ),
                None => None,
            },
    {
        match &mut self.props {
            Some(props) => {
                props.own.insert(PROP_TITLE, PropPayload::One(PropValue::Str(title.to_owned())));
            },
            None => {},
        }
        self
    }

    /// Sets the largest step of the page keys.
    pub fn with_max_scroll_step(&mut self, step: usize) -> (r: &mut Self)
        ensures
            *final(self) == *final(r),
            r.pending() == match old(self).pending() {
                Some(p) => Some(
                    PropsView {
                        own: p.own.insert(
                            PROP_MAX_STEP@,
                            PropPayloadView::One(PropValueView::Usize(step)),
                        ),
                        ..p
                    },
                ),
                None => None,
            },
    {
        match &mut self.props {
            Some(props) => {
                props.own.insert(PROP_MAX_STEP, PropPayload::One(PropValue::Usize(step)));
            },
            None => {},
        }
        self
    }

    /// Says whether the list is scrollable.
    pub fn scrollable(&mut self, scrollable: bool) -> (r: &mut Self)
        ensures
            *final(self) == *final(r),
            r.pending() == match old(self).pending() {
                Some(p) => Some(
                    PropsView {
                        own: p.own.insert(
                            PROP_SCROLLABLE@,
                            PropPayloadView::One(PropValueView::Bool(scrollable)),
                        ),
                        ..p
                    },
                ),
                None => None,
            },
    {
        match &mut self.props {
            Some(props) => {
                props.own.insert(PROP_SCROLLABLE, PropPayload::One(PropValue::Bool(scrollable)));
            },
            None => {},
        }
        self
    }
}

// -- States

/// The index that `index` becomes in a list of `len` rows: itself where it
/// names a row, else the last row, and 0 in an empty list.
pub open spec fn clamped(index: nat, len: nat) -> nat {
    if len == 0 {
        0
    } else if index >= len {
        (len - 1) as nat
    } else {
        index
    }
}

/// How far a page key may go down from `index` in a list of `len` rows with
/// the largest step `max`.
pub open spec fn step_ahead(index: nat, len: nat, max: nat) -> nat {
    let remaining: nat = if index < len {
        (len - 1 - index) as nat
    } else {
        0
    };
    if remaining > max {
        max
    } else {
        remaining
    }
}

/// How far a page key may go up from `index` with the largest step `max`.
pub open spec fn step_behind(index: nat, max: nat) -> nat {
    if index > max {
        max
    } else {
        index
    }
}

/// The state that a list keeps beside its properties.
#[derive(Clone, Copy, Debug, PartialEq, Eq, Structural)]
pub struct OwnStates {
    /// Whether the list has the focus.
    pub focus: bool,
    /// The index of the selected row.
    pub list_index: usize,
    /// The number of rows.
    pub list_len: usize,
}

impl OwnStates {
    /// The selected index names a row, or is 0 in an empty list.
    pub open spec fn valid(&self) -> bool {
        &&& self.list_len == 0 ==> self.list_index == 0
        &&& self.list_len > 0 ==> self.list_index < self.list_len
    }

    /// Sets the number of rows. The selected index stays as it is.
    pub fn set_list_len(&mut self, len: usize)
        ensures
            *final(self) == (OwnStates { list_len: len, ..*old(self) }),
    {
        self.list_len = len;
    }

    /// Selects the next row; stays at the last one.
    pub fn incr_list_index(&mut self)
        ensures
            final(self).focus == old(self).focus,
            final(self).list_len == old(self).list_len,
            final(self).list_index == if old(self).list_index + 1 < old(self).list_len {
                old(self).list_index + 1
            } else {
                old(self).list_index as int
            },
            old(self).valid() ==> final(self).valid(),
    {
        if self.list_index < self.list_len && self.list_len - self.list_index > 1 {
            self.list_index += 1;
        }
    }

    /// Selects the row before; stays at the first one.
    pub fn decr_list_index(&mut self)
        ensures
            final(self).focus == old(self).focus,
            final(self).list_len == old(self).list_len,
            final(self).list_index == if old(self).list_index > 0 {
                old(self).list_index - 1
            } else {
                0
            },
            old(self).valid() ==> final(self).valid(),
    {
        if self.list_index > 0 {
            self.list_index -= 1;
        }
    }

    /// Keeps the selected index where it names a row, else selects the last
    /// row, or 0 in an empty list.
    pub fn fix_list_index(&mut self)
        ensures
            final(self).focus == old(self).focus,
            final(self).list_len == old(self).list_len,
            final(self).list_index == clamped(old(self).list_index as nat, old(self).list_len as nat),
            final(self).valid(),
    {
        if self.list_index >= self.list_len && self.list_len > 0 {
            self.list_index = self.list_len - 1;
        } else if self.list_len == 0 {
            self.list_index = 0;
        }
    }

    /// Selects the first row.
    pub fn list_index_at_first(&mut self)
        ensures
            *final(self) == (OwnStates { list_index: 0, ..*old(self) }),
    {
        self.list_index = 0;
    }

    /// Selects the last row, or 0 in an empty list.
    pub fn list_index_at_last(&mut self)
        ensures
            final(self).focus == old(self).focus,
            final(self).list_len == old(self).list_len,
            final(self).list_index == if old(self).list_len > 0 {
                old(self).list_len - 1
            } else {
                0
            },
            final(self).valid(),
    {
        if self.list_len > 0 {
            self.list_index = self.list_len - 1;
        } else {
            self.list_index = 0;
        }
    }

    /// The step of a page key downwards: `max`, or the number of rows below
    /// the selected one where that is less.
    pub fn calc_max_step_ahead(&self, max: usize) -> (step: usize)
        ensures
            step == step_ahead(self.list_index as nat, self.list_len as nat, max as nat),
    {
        let remaining: usize = if self.list_index < self.list_len {
            self.list_len - 1 - self.list_index
        } else {
            0
        };
        if remaining > max {
            max
        } else {
            remaining
        }
    }

    /// The step of a page key upwards: `max`, or the number of rows above the
    /// selected one where that is less.
    pub fn calc_max_step_behind(&self, max: usize) -> (step: usize)
        ensures
            step == step_behind(self.list_index as nat, max as nat),
    {
        if self.list_index > max {
            max
        } else {
            self.list_index
        }
    }
}

// -- Component

/// The rows that the properties hold; none where they hold no table.
pub open spec fn table_of(props: PropsView) -> Seq<Seq<TextSpanView>> {
    if props.own.dom().contains(PROP_TABLE@) {
        match props.own[PROP_TABLE@] {
            PropPayloadView::One(PropValueView::Table(t)) => t,
            _ => Seq::empty(),
        }
    } else {
        Seq::empty()
    }
}

/// Whether the properties make the list scrollable; they do not by default.
pub open spec fn is_scrollable(props: PropsView) -> bool {
    if props.own.dom().contains(PROP_SCROLLABLE@) {
        match props.own[PROP_SCROLLABLE@] {
            PropPayloadView::One(PropValueView::Bool(b)) => b,
            _ => false,
        }
    } else {
        false
    }
}

/// The largest step of the page keys; 8 where the properties name none.
pub open spec fn max_step_of(props: PropsView) -> nat {
    if props.own.dom().contains(PROP_MAX_STEP@) {
        match props.own[PROP_MAX_STEP@] {
            PropPayloadView::One(PropValueView::Usize(n)) => n as nat,
            _ => 8,
        }
    } else {
        8
    }
}

/// The text that the properties hold under `name`, if they hold one.
pub open spec fn text_of(props: PropsView, name: Seq<char>) -> Option<Seq<char>> {
    if props.own.dom().contains(name) {
        match props.own[name] {
            PropPayloadView::One(PropValueView::Str(t)) => Some(t),
            _ => None,
        }
    } else {
        None
    }
}

/// The color of the selected row: the palette's where it names one, else the
/// background of a focused list and the foreground of another.
pub open spec fn highlight_color_of(props: PropsView, focus: bool) -> Color {
    if props.palette.dom().contains(COLOR_HIGHLIGHTED@) {
        props.palette[COLOR_HIGHLIGHTED@]
    } else if focus {
        props.background
    } else {
        props.foreground
    }
}

/// The model of a [`List`]: its properties and its state.
pub struct ListModel {
    pub props: PropsView,
    /// Whether the list has the focus.
    pub focus: bool,
    /// The index of the selected row.
    pub index: nat,
    /// The number of rows.
    pub len: nat,
}

impl ListModel {
    /// The state fits the properties: the length is the number of rows, and
    /// the selected index names a row, or is 0 in an empty list.
    pub open spec fn inv(self) -> bool {
        &&& self.len == table_of(self.props).len()
        &&& self.len == 0 ==> self.index == 0
        &&& self.len > 0 ==> self.index < self.len
    }

    /// Whether the list takes navigation keys: it is scrollable and has the
    /// focus.
    pub open spec fn navigable(self) -> bool {
        is_scrollable(self.props) && self.focus
    }

    /// Whether the list is drawn as active: a scrollable list where it has
    /// the focus, another list always.
    pub open spec fn shown_active(self) -> bool {
        if is_scrollable(self.props) {
            self.focus
        } else {
            true
        }
    }

    /// The state of a new list with the properties `props`: no focus, the
    /// first row selected.
    pub open spec fn initial(props: PropsView) -> ListModel {
        ListModel { props, focus: false, index: 0, len: table_of(props).len() }
    }

    /// The selected index after the key `code` in a list that takes
    /// navigation keys.
    pub open spec fn moved(self, code: KeyCode) -> nat {
        match code {
            KeyCode::Down => if self.index + 1 < self.len {
                self.index + 1
            } else {
                self.index
            },
            KeyCode::Up => if self.index > 0 {
                (self.index - 1) as nat
            } else {
                0
            },
            KeyCode::PageDown => self.index + step_ahead(
                self.index,
                self.len,
                max_step_of(self.props),
            ),
            KeyCode::PageUp => (self.index - step_behind(self.index, max_step_of(self.props))) as nat,
            KeyCode::Home => 0,
            KeyCode::End => if self.len > 0 {
                (self.len - 1) as nat
            } else {
                0
            },
            _ => self.index,
        }
    }

    /// The state after the event `ev`: a key moves the selection of a list
    /// that takes navigation keys; nothing else changes anything.
    pub open spec fn handled(self, ev: Event) -> ListModel {
        match ev {
            Event::Key(key) => if self.navigable() {
                ListModel { index: self.moved(key.code), ..self }
            } else {
                self
            },
            _ => self,
        }
    }

    /// The state after the properties have been replaced: the length is
    /// that of the new table, and the selected index is clamped to it.
    pub open spec fn updated(self, props: PropsView) -> ListModel {
        ListModel {
            props,
            focus: self.focus,
            index: clamped(self.index, table_of(props).len()),
            len: table_of(props).len(),
        }
    }

    /// The state after the list has been given the focus: only a scrollable
    /// list takes it.
    pub open spec fn activated(self) -> ListModel {
        if is_scrollable(self.props) {
            ListModel { focus: true, ..self }
        } else {
            self
        }
    }

    /// The state after the list has lost the focus.
    pub open spec fn blurred(self) -> ListModel {
        ListModel { focus: false, ..self }
    }

    /// What the list draws; nothing where it is hidden.
    pub open spec fn drawing(self) -> Option<WidgetView> {
        if self.props.visible {
            let active = self.shown_active();
            let highlight = highlight_color_of(self.props, self.focus);
            Some(
                WidgetView::List(
                    ListWidgetView {
                        block: block_of(
                            self.props.borders,
                            text_of(self.props, PROP_TITLE@),
                            active,
                        ),
                        items: lines_of(self.props, table_of(self.props)),
                        highlight_style: StyleView {
                            fg: if active {
                                self.props.background
                            } else {
                                highlight
                            },
                            bg: if active {
                                highlight
                            } else {
                                self.props.background
                            },
                            modifiers: self.props.modifiers,
                        },
                        highlight_symbol: text_of(self.props, PROP_HIGHLIGHTED_TXT@),
                        selected: if is_scrollable(self.props) {
                            Some(self.index)
                        } else {
                            None
                        },
                    },
                ),
            )
        } else {
            None
        }
    }
}

/// A list of rows. A scrollable list that has the focus keeps a selected row,
/// which the navigation keys move.
pub struct List {
    props: Props,
    states: OwnStates,
}

impl View for List {
    type V = ListModel;

    closed spec fn view(&self) -> ListModel {
        ListModel {
            props: self.props@,
            focus: self.states.focus,
            index: self.states.list_index as nat,
            len: self.states.list_len as nat,
        }
    }
}

/// The number of rows that `props` hold.
fn table_len(props: &Props) -> (len: usize)
    ensures
        len == table_of(props@).len(),
{
    match props.own.get(PROP_TABLE) {
        Some(PropPayload::One(PropValue::Table(t))) => t.len(),
        _ => 0,
    }
}

/// The text that `props` hold under `name`, if they hold one.
fn text_prop<'a>(props: &'a Props, name: &str) -> (r: Option<&'a str>)
    ensures
        match r {
            Some(t) => Some(t@),
            None => None,
        } == text_of(props@, name@),
{
    match props.own.get(name) {
        Some(PropPayload::One(PropValue::Str(t))) => Some(t.as_str()),
        _ => None,
    }
}

/// The rows that `props` hold, styled for the list.
fn table_lines(props: &Props) -> (r: Vec<Vec<Span>>)
    ensures
        lines_view(r@) == lines_of(props@, table_of(props@)),
{
    match props.own.get(PROP_TABLE) {
        Some(PropPayload::One(PropValue::Table(table))) => make_lines(props, table),
        _ => {
            let none = Vec::new();
            assert(lines_view(none@) =~= lines_of(props@, table_of(props@)));
            none
        },
    }
}

/// The color of the selected row.
fn highlight_color(props: &Props, focus: bool) -> (r: Color)
    ensures
        r == highlight_color_of(props@, focus),
{
    match props.palette.get(COLOR_HIGHLIGHTED) {
        None => if focus {
            props.background
        } else {
            props.foreground
        },
        Some(color) => *color,
    }
}

impl List {
    /// A list with the properties `props`, without the focus and with the
    /// first row selected.
    pub fn new(props: Props) -> (r: Self)
        ensures
            r@ == ListModel::initial(props@),
            r@.inv(),
    {
        let len: usize = table_len(&props);
        List { props, states: OwnStates { focus: false, list_index: 0, list_len: len } }
    }

    /// Whether the properties make the list scrollable; they do not by
    /// default.
    pub fn scrollable(&self) -> (r: bool)
        ensures
            r == is_scrollable(self@.props),
    {
        match self.props.own.get(PROP_SCROLLABLE) {
            Some(PropPayload::One(PropValue::Bool(scrollable))) => *scrollable,
            _ => false,
        }
    }

    /// The largest step of the page keys.
    fn max_step(&self) -> (r: usize)
        ensures
            r == max_step_of(self@.props),
    {
        match self.props.own.get(PROP_MAX_STEP) {
            Some(PropPayload::One(PropValue::Usize(step))) => *step,
            _ => DEFAULT_MAX_STEP,
        }
    }

    /// The state of the list: focus, selected index and number of rows.
    pub fn states(&self) -> (r: OwnStates)
        ensures
            r.focus == self@.focus,
            r.list_index == self@.index,
            r.list_len == self@.len,
    {
        self.states
    }

    /// The properties of the list.
    pub fn props(&self) -> (r: &Props)
        ensures
            r@ == self@.props,
    {
        &self.props
    }
}

impl Component for List {
    open spec fn props_of(m: ListModel) -> PropsView {
        m.props
    }

    open spec fn updated(m: ListModel, props: PropsView) -> ListModel {
        m.updated(props)
    }

    open spec fn handled(m: ListModel, ev: Event) -> ListModel {
        m.handled(ev)
    }

    open spec fn reply(m: ListModel, ev: Event) -> MsgView {
        key_echo(ev)
    }

    open spec fn state_of(m: ListModel) -> PayloadView {
        PayloadView::Empty
    }

    open spec fn activated(m: ListModel) -> ListModel {
        m.activated()
    }

    open spec fn blurred(m: ListModel) -> ListModel {
        m.blurred()
    }

    open spec fn drawing(m: ListModel) -> Option<WidgetView> {
        m.drawing()
    }

    open spec fn fits(m: ListModel) -> bool {
        m.inv()
    }

    proof fn lemma_fits_kept(m: ListModel, ev: Event, props: PropsView) {
    }

    proof fn lemma_update_round_trip(m: ListModel) {
        assert(m.updated(m.props) == m);
    }

    fn render(&self, frame: &mut Frame, area: Rect) {
        if self.props.visible {
            let scrollable = self.scrollable();
            let active: bool = if scrollable {
                self.states.focus
            } else {
                true
            };
            let block = get_block(&self.props.borders, text_prop(&self.props, PROP_TITLE), active);
            let items = table_lines(&self.props);
            let highlighted_color: Color = highlight_color(&self.props, self.states.focus);
            let (fg, bg): (Color, Color) = if active {
                (self.props.background, highlighted_color)
            } else {
                (highlighted_color, self.props.background)
            };
            let highlight_symbol: Option<String> = match text_prop(
                &self.props,
                PROP_HIGHLIGHTED_TXT,
            ) {
                Some(highlight) => Some(highlight.to_owned()),
                None => None,
            };
            let selected: Option<usize> = if scrollable {
                Some(self.states.list_index)
            } else {
                None
            };
            let list = ListWidget {
                block,
                items,
                highlight_style: Style { fg, bg, modifiers: self.props.modifiers },
                highlight_symbol,
                selected,
            };
            frame.render_widget(Widget::List(list), area);
        }
    }

    fn update(&mut self, props: Props) -> (msg: Msg)
        ensures
            final(self)@.inv(),
    {
        self.props = props;
        self.states.set_list_len(table_len(&self.props));
        self.states.fix_list_index();
        Msg::NoOp
    }

    fn get_props(&self) -> (props: Props) {
        self.props.clone()
    }

    fn on(&mut self, ev: Event) -> (msg: Msg)
        ensures
            old(self)@.inv() ==> final(self)@.inv(),
    {
        match ev {
            Event::Key(key) => {
                if self.scrollable() && self.states.focus {
                    match key.code {
                        KeyCode::Down => {
                            self.states.incr_list_index();
                        },
                        KeyCode::Up => {
                            self.states.decr_list_index();
                        },
                        KeyCode::PageDown => {
                            let step: usize = self.states.calc_max_step_ahead(self.max_step());
                            let mut i: usize = 0;
                            while i < step
                                invariant
                                    i <= step,
                                    self.props == old(self).props,
                                    self.states.focus == old(self).states.focus,
                                    self.states.list_len == old(self).states.list_len,
                                    self.states.list_index == old(self).states.list_index + i,
                                    step > 0 ==> old(self).states.list_index + step
                                        < old(self).states.list_len,
                                decreases step - i,
                            {
                                self.states.incr_list_index();
                                i += 1;
                            }
                        },
                        KeyCode::PageUp => {
                            let step: usize = self.states.calc_max_step_behind(self.max_step());
                            let mut i: usize = 0;
                            while i < step
                                invariant
                                    i <= step,
                                    self.props == old(self).props,
                                    self.states.focus == old(self).states.focus,
                                    self.states.list_len == old(self).states.list_len,
                                    self.states.list_index == old(self).states.list_index - i,
                                    step <= old(self).states.list_index,
                                decreases step - i,
                            {
                                self.states.decr_list_index();
                                i += 1;
                            }
                        },
                        KeyCode::End => {
                            self.states.list_index_at_last();
                        },
                        KeyCode::Home => {
                            self.states.list_index_at_first();
                        },
                        _ => {},
                    }
                }
                Msg::OnKey(key)
            },
            _ => Msg::NoOp,
        }
    }

    fn get_state(&self) -> (payload: Payload) {
        Payload::Empty
    }

    fn blur(&mut self) {
        self.states.focus = false;
    }

    fn active(&mut self) {
        if self.scrollable() {
            self.states.focus = true;
        }
    }
}

} // verus!
