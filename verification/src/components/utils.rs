//! What the stock components share when they draw.

use vstd::prelude::*;
use crate::frame::{line_view, lines_view, Block, BlockView, Span, SpanView, Style, StyleView};
use crate::props::{Props, PropsView};
use crate::style::{BordersProps, Color, Modifier, Modifiers};
use crate::text::{row_view, table_view, TextSpan, TextSpanView};

verus! {

/// The style in which a span is shown: its own colors and modifiers where it
/// has them, those of the component where it has none.
pub open spec fn span_style(props: PropsView, span: TextSpanView) -> StyleView {
    StyleView {
        fg: if span.fg == Color::Reset {
            props.foreground
        } else {
            span.fg
        },
        bg: if span.bg == Color::Reset {
            props.background
        } else {
            span.bg
        },
        modifiers: if span.modifiers == Set::<Modifier>::empty() {
            props.modifiers
        } else {
            span.modifiers
        },
    }
}

/// Foreground, background and modifiers for `span` shown by a component with
/// the properties `props`.
pub fn use_or_default_styles(props: &Props, span: &TextSpan) -> (r: (Color, Color, Modifiers))
    ensures
        (Style { fg: r.0, bg: r.1, modifiers: r.2 })@ == span_style(props@, span@),
{
    let fg = match span.fg {
        Color::Reset => props.foreground,
        _ => span.fg,
    };
    let bg = match span.bg {
        Color::Reset => props.background,
        _ => span.bg,
    };
    let modifiers = if span.modifiers.is_empty() {
        props.modifiers
    } else {
        span.modifiers
    };
    (fg, bg, modifiers)
}

/// The spans of a row as a component with the properties `props` shows them.
pub open spec fn line_of(props: PropsView, row: Seq<TextSpanView>) -> Seq<SpanView> {
    Seq::new(
        row.len(),
        |j: int| SpanView { content: row[j].content, style: span_style(props, row[j]) },
    )
}

/// The rows of a table as a component with the properties `props` shows them.
pub open spec fn lines_of(props: PropsView, table: Seq<Seq<TextSpanView>>) -> Seq<Seq<SpanView>> {
    Seq::new(table.len(), |i: int| line_of(props, table[i]))
}

/// The box of a component: the border of `borders`, in its color only where
/// the component is active, and the title where there is one.
pub open spec fn block_of(borders: BordersProps, title: Option<Seq<char>>, focus: bool)
    -> BlockView {
    BlockView {
        borders: borders.borders,
        border_type: borders.variant,
        border_color: if focus {
            borders.color
        } else {
            Color::Reset
        },
        title,
    }
}

/// The box of a component.
pub fn get_block(borders: &BordersProps, title: Option<&str>, focus: bool) -> (r: Block)
    ensures
        r@ == block_of(
            *borders,
            match title {
                Some(t) => Some(t@),
                None => None,
            },
            focus,
        ),
{
    Block {
        borders: borders.borders,
        border_type: borders.variant,
        border_color: if focus {
            borders.color
        } else {
            Color::Reset
        },
        title: match title {
            Some(t) => Some(t.to_owned()),
            None => None,
        },
    }
}

/// The spans of `row`, styled for a component with the properties `props`.
pub fn make_line(props: &Props, row: &Vec<TextSpan>) -> (r: Vec<Span>)
    ensures
        line_view(r@) == line_of(props@, row_view(row@)),
{
    let mut r: Vec<Span> = Vec::new();
    let mut j: usize = 0;
    while j < row.len()
        invariant
            j <= row.len(),
            r.len() == j,
            forall|k: int|
                0 <= k < j ==> r@[k]@ == (SpanView {
                    content: row@[k]@.content,
                    style: span_style(props@, row@[k]@),
                }),
        decreases row.len() - j,
    {
        let (fg, bg, modifiers) = use_or_default_styles(props, &row[j]);
        r.push(Span { content: row[j].content.clone(), style: Style { fg, bg, modifiers } });
        j += 1;
    }
    assert(line_view(r@) =~= line_of(props@, row_view(row@)));
    r
}

/// The rows of `table`, styled for a component with the properties `props`.
pub fn make_lines(props: &Props, table: &Vec<Vec<TextSpan>>) -> (r: Vec<Vec<Span>>)
    ensures
        lines_view(r@) == lines_of(props@, table_view(table@)),
{
    let mut r: Vec<Vec<Span>> = Vec::new();
    let mut i: usize = 0;
    while i < table.len()
        invariant
            i <= table.len(),
            r.len() == i,
            forall|k: int|
                0 <= k < i ==> line_view(r@[k]@) == line_of(
                    props@,
                    row_view(table@[k]@),
                ),
        decreases table.len() - i,
    {
        r.push(make_line(props, &table[i]));
        i += 1;
    }
    assert(lines_view(r@) =~= lines_of(props@, table_view(table@)));
    r
}

} // verus!
