//! The render surface: what a component draws, and the frame that collects it.
//!
//! A component does not paint cells. It describes one styled widget for one
//! rectangle, and the frame keeps the descriptions in the order in which they
//! were drawn, for a terminal driver to paint.

use vstd::prelude::*;
use crate::style::{Alignment, BorderType, Borders, Color, Modifier, Modifiers};

verus! {

/// A rectangular region of the screen.
#[derive(Clone, Copy, Debug, PartialEq, Eq, Structural)]
pub struct Rect {
    pub x: u16,
    pub y: u16,
    pub width: u16,
    pub height: u16,
}

/// Colors and modifiers of a piece of a widget.
#[derive(Clone, Copy, Debug, PartialEq, Eq)]
pub struct Style {
    pub fg: Color,
    pub bg: Color,
    pub modifiers: Modifiers,
}

/// The model of a [`Style`].
pub struct StyleView {
    pub fg: Color,
    pub bg: Color,
    pub modifiers: Set<Modifier>,
}

impl View for Style {
    type V = StyleView;

    open spec fn view(&self) -> StyleView {
        StyleView { fg: self.fg, bg: self.bg, modifiers: self.modifiers@ }
    }
}

/// A piece of text with its final style.
#[derive(Debug, PartialEq, Eq)]
pub struct Span {
    pub content: String,
    pub style: Style,
}

/// The model of a [`Span`].
pub struct SpanView {
    pub content: Seq<char>,
    pub style: StyleView,
}

impl View for Span {
    type V = SpanView;

    open spec fn view(&self) -> SpanView {
        SpanView { content: self.content@, style: self.style@ }
    }
}

/// The models of the spans of a line, in order.
pub open spec fn line_view(line: Seq<Span>) -> Seq<SpanView> {
    Seq::new(line.len(), |i: int| line[i]@)
}

/// The models of the lines of a list, in order.
pub open spec fn lines_view(lines: Seq<Vec<Span>>) -> Seq<Seq<SpanView>> {
    Seq::new(lines.len(), |i: int| line_view(lines[i]@))
}

/// The model of an optional text.
pub open spec fn text_view(text: Option<String>) -> Option<Seq<char>> {
    match text {
        Some(t) => Some(t@),
        None => None,
    }
}

/// The box around a widget.
#[derive(Debug, PartialEq, Eq)]
pub struct Block {
    pub borders: Borders,
    pub border_type: BorderType,
    pub border_color: Color,
    pub title: Option<String>,
}

/// The model of a [`Block`].
pub struct BlockView {
    pub borders: Borders,
    pub border_type: BorderType,
    pub border_color: Color,
    pub title: Option<Seq<char>>,
}

impl View for Block {
    type V = BlockView;

    open spec fn view(&self) -> BlockView {
        BlockView {
            borders: self.borders,
            border_type: self.border_type,
            border_color: self.border_color,
            title: text_view(self.title),
        }
    }
}

/// One line of text, styled and aligned.
#[derive(Debug, PartialEq, Eq)]
pub struct ParagraphWidget {
    pub text: String,
    pub style: Style,
    pub alignment: Alignment,
}

/// The model of a [`ParagraphWidget`].
pub struct ParagraphView {
    pub text: Seq<char>,
    pub style: StyleView,
    pub alignment: Alignment,
}

impl View for ParagraphWidget {
    type V = ParagraphView;

    open spec fn view(&self) -> ParagraphView {
        ParagraphView { text: self.text@, style: self.style@, alignment: self.alignment }
    }
}

/// A boxed list of lines, one of which may be selected.
#[derive(Debug, PartialEq, Eq)]
pub struct ListWidget {
    pub block: Block,
    pub items: Vec<Vec<Span>>,
    pub highlight_style: Style,
    pub highlight_symbol: Option<String>,
    /// The selected line, where the list keeps a selection.
    pub selected: Option<usize>,
}

/// The model of a [`ListWidget`].
pub struct ListWidgetView {
    pub block: BlockView,
    pub items: Seq<Seq<SpanView>>,
    pub highlight_style: StyleView,
    pub highlight_symbol: Option<Seq<char>>,
    pub selected: Option<nat>,
}

impl View for ListWidget {
    type V = ListWidgetView;

    open spec fn view(&self) -> ListWidgetView {
        ListWidgetView {
            block: self.block@,
            items: lines_view(self.items@),
            highlight_style: self.highlight_style@,
            highlight_symbol: text_view(self.highlight_symbol),
            selected: match self.selected {
                Some(i) => Some(i as nat),
                None => None,
            },
        }
    }
}

/// What a component draws into a rectangle.
#[derive(Debug, PartialEq, Eq)]
pub enum Widget {
    Paragraph(ParagraphWidget),
    List(ListWidget),
}

/// The model of a [`Widget`].
pub enum WidgetView {
    Paragraph(ParagraphView),
    List(ListWidgetView),
}

impl View for Widget {
    type V = WidgetView;

    open spec fn view(&self) -> WidgetView {
        match self {
            Widget::Paragraph(p) => WidgetView::Paragraph(p@),
            Widget::List(l) => WidgetView::List(l@),
        }
    }
}

/// The model of one drawing: where, and what.
pub struct DrawView {
    pub area: Rect,
    pub widget: WidgetView,
}

/// The surface that components draw on. It keeps what was drawn, in order.
#[derive(Debug)]
pub struct Frame {
    draws: Vec<(Rect, Widget)>,
}

impl View for Frame {
    type V = Seq<DrawView>;

    closed spec fn view(&self) -> Seq<DrawView> {
        Seq::new(
            self.draws@.len(),
            |i: int| DrawView { area: self.draws@[i].0, widget: self.draws@[i].1@ },
        )
    }
}

impl Frame {
    /// A frame on which nothing has been drawn.
    pub fn new() -> (r: Frame)
        ensures
            r@ == Seq::<DrawView>::empty(),
    {
        let r = Frame { draws: Vec::new() };
        assert(r@ =~= Seq::<DrawView>::empty());
        r
    }

    /// Draws `widget` into `area`.
    pub fn render_widget(&mut self, widget: Widget, area: Rect)
        ensures
            final(self)@ == old(self)@.push(DrawView { area, widget: widget@ }),
    {
        self.draws.push((area, widget));
        assert(self@ =~= old(self)@.push(DrawView { area, widget: widget@ }));
    }

    /// The number of drawings.
    pub fn len(&self) -> (n: usize)
        ensures
            n == self@.len(),
    {
        self.draws.len()
    }

    /// The drawing at place `i`, if there are that many.
    pub fn get(&self, i: usize) -> (r: Option<(Rect, &Widget)>)
        ensures
            match r {
                Some(d) => i < self@.len() && d.0 == self@[i as int].area && d.1@
                    == self@[i as int].widget,
                None => i >= self@.len(),
            },
    {
        if i < self.draws.len() {
            Some((self.draws[i].0, &self.draws[i].1))
        } else {
            None
        }
    }
}

} // verus!
