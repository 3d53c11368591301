//! The property store: the attributes that configure a component.

use vstd::prelude::*;
use crate::named_map::NamedMap;
use crate::style::{Alignment, BorderType, Borders, BordersProps, Color, Modifier, Modifiers};
use crate::text::{clone_table, table_view, Table, TextSpanView};

verus! {

/// A scalar of the payload map.
#[derive(Debug, PartialEq, Eq)]
pub enum PropValue {
    Bool(bool),
    Usize(usize),
    Isize(isize),
    Str(String),
    Color(Color),
    Alignment(Alignment),
    Table(Table),
}

/// The model of a [`PropValue`].
pub enum PropValueView {
    Bool(bool),
    Usize(usize),
    Isize(isize),
    Str(Seq<char>),
    Color(Color),
    Alignment(Alignment),
    Table(Seq<Seq<TextSpanView>>),
}

impl View for PropValue {
    type V = PropValueView;

    open spec fn view(&self) -> PropValueView {
        match self {
            PropValue::Bool(b) => PropValueView::Bool(*b),
            PropValue::Usize(n) => PropValueView::Usize(*n),
            PropValue::Isize(n) => PropValueView::Isize(*n),
            PropValue::Str(s) => PropValueView::Str(s@),
            PropValue::Color(c) => PropValueView::Color(*c),
            PropValue::Alignment(a) => PropValueView::Alignment(*a),
            PropValue::Table(t) => PropValueView::Table(table_view(t@)),
        }
    }
}

impl Clone for PropValue {
    fn clone(&self) -> (r: Self)
        ensures
            r@ == self@,
    {
        match self {
            PropValue::Bool(b) => PropValue::Bool(*b),
            PropValue::Usize(n) => PropValue::Usize(*n),
            PropValue::Isize(n) => PropValue::Isize(*n),
            PropValue::Str(s) => PropValue::Str(s.clone()),
            PropValue::Color(c) => PropValue::Color(*c),
            PropValue::Alignment(a) => PropValue::Alignment(*a),
            PropValue::Table(t) => PropValue::Table(clone_table(t)),
        }
    }
}

/// The models of a sequence of scalars, in order.
pub open spec fn prop_values_view(s: Seq<PropValue>) -> Seq<PropValueView> {
    Seq::new(s.len(), |i: int| s[i]@)
}

/// A copy of `values`.
pub fn clone_prop_values(values: &Vec<PropValue>) -> (r: Vec<PropValue>)
    ensures
        prop_values_view(r@) == prop_values_view(values@),
{
    let mut r: Vec<PropValue> = Vec::new();
    let mut i: usize = 0;
    while i < values.len()
        invariant
            i <= values.len(),
            r.len() == i,
            forall|j: int| 0 <= j < i ==> r@[j]@ == values@[j]@,
        decreases values.len() - i,
    {
        r.push(values[i].clone());
        i += 1;
    }
    assert(prop_values_view(r@) =~= prop_values_view(values@));
    r
}

/// An entry of the payload map: one scalar, or a sequence of them.
#[derive(Debug, PartialEq, Eq)]
pub enum PropPayload {
    One(PropValue),
    Many(Vec<PropValue>),
    Empty,
}

/// The model of a [`PropPayload`].
pub enum PropPayloadView {
    One(PropValueView),
    Many(Seq<PropValueView>),
    Empty,
}

impl View for PropPayload {
    type V = PropPayloadView;

    open spec fn view(&self) -> PropPayloadView {
        match self {
            PropPayload::One(v) => PropPayloadView::One(v@),
            PropPayload::Many(vs) => PropPayloadView::Many(prop_values_view(vs@)),
            PropPayload::Empty => PropPayloadView::Empty,
        }
    }
}

impl Clone for PropPayload {
    fn clone(&self) -> (r: Self)
        ensures
            r@ == self@,
    {
        match self {
            PropPayload::One(v) => PropPayload::One(v.clone()),
            PropPayload::Many(vs) => PropPayload::Many(clone_prop_values(vs)),
            PropPayload::Empty => PropPayload::Empty,
        }
    }
}

/// A copy of a palette, with the names in the same order.
pub fn clone_palette(palette: &NamedMap<Color>) -> (r: NamedMap<Color>)
    ensures
        r@ == palette@,
        r.pairs() == palette.pairs(),
{
    let mut r: NamedMap<Color> = NamedMap::new();
    let n = palette.len();
    let mut i: usize = 0;
    while i < n
        invariant
            n == palette.pairs().len(),
            i <= n,
            r.pairs() == palette.pairs().take(i as int),
        decreases n - i,
    {
        let name = palette.name_at(i).clone();
        let value = *palette.value_at(i);
        r.push_entry(name, value);
        proof {
            assert(r.pairs() =~= palette.pairs().take(i + 1));
        }
        i += 1;
    }
    proof {
        assert(r.pairs() =~= palette.pairs());
        r.lemma_same_view(palette);
    }
    r
}

/// A copy of a payload map, with the names in the same order.
pub fn clone_payloads(own: &NamedMap<PropPayload>) -> (r: NamedMap<PropPayload>)
    ensures
        r@ == own@,
        r.names() == own.names(),
{
    let mut r: NamedMap<PropPayload> = NamedMap::new();
    let n = own.len();
    let mut i: usize = 0;
    while i < n
        invariant
            n == own.pairs().len(),
            i <= n,
            r.pairs().len() == i,
            forall|j: int|
                0 <= j < i ==> r.pairs()[j].0 == own.pairs()[j].0 && r.pairs()[j].1@
                    == own.pairs()[j].1@,
        decreases n - i,
    {
        let name = own.name_at(i).clone();
        let value = own.value_at(i).clone();
        r.push_entry(name, value);
        i += 1;
    }
    proof {
        assert(r.names() =~= own.names());
        r.lemma_same_view(own);
    }
    r
}

/// The properties of a component.
///
/// A name that the payload map does not hold means that the component uses
/// its default for it.
#[derive(Debug, PartialEq, Eq)]
pub struct Props {
    pub visible: bool,
    pub foreground: Color,
    pub background: Color,
    pub borders: BordersProps,
    pub modifiers: Modifiers,
    pub palette: NamedMap<Color>,
    pub own: NamedMap<PropPayload>,
}

/// The model of a [`Props`].
pub struct PropsView {
    pub visible: bool,
    pub foreground: Color,
    pub background: Color,
    pub borders: BordersProps,
    pub modifiers: Set<Modifier>,
    pub palette: Map<Seq<char>, Color>,
    pub own: Map<Seq<char>, PropPayloadView>,
}

impl View for Props {
    type V = PropsView;

    open spec fn view(&self) -> PropsView {
        PropsView {
            visible: self.visible,
            foreground: self.foreground,
            background: self.background,
            borders: self.borders,
            modifiers: self.modifiers@,
            palette: self.palette@,
            own: self.own@,
        }
    }
}

/// The model of the properties that a store starts from: visible, neutral
/// colors, a plain border on every edge, no modifier, nothing in the palette
/// and nothing in the payload map.
pub open spec fn default_props() -> PropsView {
    PropsView {
        visible: true,
        foreground: Color::Reset,
        background: Color::Reset,
        borders: BordersProps {
            borders: Borders::All,
            variant: BorderType::Plain,
            color: Color::Reset,
        },
        modifiers: Set::<Modifier>::empty(),
        palette: Map::<Seq<char>, Color>::empty(),
        own: Map::<Seq<char>, PropPayloadView>::empty(),
    }
}

impl Default for Props {
    fn default() -> (r: Self)
        ensures
            r@ == default_props(),
    {
        Props {
            visible: true,
            foreground: Color::Reset,
            background: Color::Reset,
            borders: BordersProps::default(),
            modifiers: Modifiers::empty(),
            palette: NamedMap::new(),
            own: NamedMap::new(),
        }
    }
}

impl Clone for Props {
    fn clone(&self) -> (r: Self)
        ensures
            r@ == self@,
    {
        Props {
            visible: self.visible,
            foreground: self.foreground,
            background: self.background,
            borders: self.borders,
            modifiers: self.modifiers,
            palette: clone_palette(&self.palette),
            own: clone_payloads(&self.own),
        }
    }
}

} // verus!
