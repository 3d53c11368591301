//! Styled pieces of text and tables of them.

use vstd::prelude::*;
use crate::style::{Color, Modifiers, Modifier};

verus! {

/// A piece of text with colors and modifiers of its own.
///
/// The color `Reset` and the empty modifier set stand for "as the component
/// that shows the text says".
#[derive(Debug, PartialEq, Eq)]
pub struct TextSpan {
    pub content: String,
    pub fg: Color,
    pub bg: Color,
    pub modifiers: Modifiers,
}

/// The model of a [`TextSpan`].
pub struct TextSpanView {
    pub content: Seq<char>,
    pub fg: Color,
    pub bg: Color,
    pub modifiers: Set<Modifier>,
}

impl View for TextSpan {
    type V = TextSpanView;

    open spec fn view(&self) -> TextSpanView {
        TextSpanView {
            content: self.content@,
            fg: self.fg,
            bg: self.bg,
            modifiers: self.modifiers@,
        }
    }
}

/// The model of a span with the given text and no style of its own.
pub open spec fn plain_span(content: Seq<char>) -> TextSpanView {
    TextSpanView {
        content,
        fg: Color::Reset,
        bg: Color::Reset,
        modifiers: Set::<Modifier>::empty(),
    }
}

impl TextSpan {
    /// A span with the text `content` and no style of its own.
    pub fn new(content: &str) -> (r: TextSpan)
        ensures
            r@ == plain_span(content@),
    {
        TextSpan {
            content: content.to_owned(),
            fg: Color::Reset,
            bg: Color::Reset,
            modifiers: Modifiers::empty(),
        }
    }

    /// The same span with the foreground color `fg`.
    pub fn with_foreground(self, fg: Color) -> (r: TextSpan)
        ensures
            r@ == (TextSpanView { fg, ..self@ }),
    {
        TextSpan { content: self.content, fg, bg: self.bg, modifiers: self.modifiers }
    }

    /// The same span with the background color `bg`.
    pub fn with_background(self, bg: Color) -> (r: TextSpan)
        ensures
            r@ == (TextSpanView { bg, ..self@ }),
    {
        TextSpan { content: self.content, fg: self.fg, bg, modifiers: self.modifiers }
    }

    /// The same span with the modifier `m` added.
    pub fn with_modifier(self, m: Modifier) -> (r: TextSpan)
        ensures
            r@ == (TextSpanView { modifiers: self@.modifiers.insert(m), ..self@ }),
    {
        let mut modifiers = self.modifiers;
        modifiers.insert(m);
        TextSpan { content: self.content, fg: self.fg, bg: self.bg, modifiers }
    }
}

impl Clone for TextSpan {
    fn clone(&self) -> (r: Self)
        ensures
            r@ == self@,
    {
        TextSpan {
            content: self.content.clone(),
            fg: self.fg,
            bg: self.bg,
            modifiers: self.modifiers,
        }
    }
}

impl<'a> From<&'a str> for TextSpan {
    /// A span with the text `content` and no style of its own.
    fn from(content: &'a str) -> (r: TextSpan)
        ensures
            r@ == plain_span(content@),
    {
        TextSpan::new(content)
    }
}

/// What `from` returns is stated over the model, by its own `ensures`: no
/// spec function can name the string that it allocates.
impl<'a> vstd::std_specs::convert::FromSpecImpl<&'a str> for TextSpan {
    open spec fn obeys_from_spec() -> bool {
        false
    }

    open spec fn from_spec(content: &'a str) -> TextSpan {
        arbitrary()
    }
}

/// The models of the spans of a row, in order.
pub open spec fn row_view(row: Seq<TextSpan>) -> Seq<TextSpanView> {
    Seq::new(row.len(), |i: int| row[i]@)
}

/// A table of spans: a sequence of rows, each a sequence of columns.
pub type Table = Vec<Vec<TextSpan>>;

/// The model of a table: the models of its rows, in order.
pub open spec fn table_view(table: Seq<Vec<TextSpan>>) -> Seq<Seq<TextSpanView>> {
    Seq::new(table.len(), |i: int| row_view(table[i]@))
}

/// A copy of `row`.
pub fn clone_row(row: &Vec<TextSpan>) -> (r: Vec<TextSpan>)
    ensures
        row_view(r@) == row_view(row@),
{
    let mut r: Vec<TextSpan> = Vec::new();
    let mut i: usize = 0;
    while i < row.len()
        invariant
            i <= row.len(),
            r.len() == i,
            forall|j: int| 0 <= j < i ==> r@[j]@ == row@[j]@,
        decreases row.len() - i,
    {
        r.push(row[i].clone());
        i += 1;
    }
    assert(row_view(r@) =~= row_view(row@));
    r
}

/// A copy of `table`.
pub fn clone_table(table: &Table) -> (r: Table)
    ensures
        table_view(r@) == table_view(table@),
{
    let mut r: Table = Vec::new();
    let mut i: usize = 0;
    while i < table.len()
        invariant
            i <= table.len(),
            r.len() == i,
            forall|j: int| 0 <= j < i ==> row_view(r@[j]@) == row_view(table@[j]@),
        decreases table.len() - i,
    {
        r.push(clone_row(&table[i]));
        i += 1;
    }
    assert(table_view(r@) =~= table_view(table@));
    r
}

/// Builds a table column by column and row by row.
///
/// A new builder holds one empty row. `build` hands the table out and leaves
/// the builder spent: a spent builder ignores further columns and rows and
/// cannot build again.
pub struct TableBuilder {
    table: Option<Table>,
}

impl View for TableBuilder {
    type V = Option<Seq<Seq<TextSpanView>>>;

    closed spec fn view(&self) -> Option<Seq<Seq<TextSpanView>>> {
        match self.table {
            Some(t) => Some(table_view(t@)),
            None => None,
        }
    }
}

/// The table after `span` has been added to its last row, if it has one.
pub open spec fn table_with_col(t: Seq<Seq<TextSpanView>>, span: TextSpanView) -> Seq<
    Seq<TextSpanView>,
> {
    if t.len() == 0 {
        t
    } else {
        t.update(t.len() - 1, t.last().push(span))
    }
}

impl TableBuilder {
    /// Adds `span` as the next column of the last row.
    pub fn add_col(&mut self, span: TextSpan) -> (r: &mut Self)
        ensures
            *final(self) == *final(r),
            r@ == match old(self)@ {
                Some(t) => Some(table_with_col(t, span@)),
                None => None,
            },
    {
        match &mut self.table {
            Some(table) => {
                let n = table.len();
                if n > 0 {
                    let ghost before = table@;
                    table[n - 1].push(span);
                    assert(table_view(table@) =~= table_with_col(table_view(before), span@)) by {
                        assert(row_view(table@[n - 1]@) =~= row_view(before[n - 1]@).push(span@));
                    }
                }
            },
            None => {},
        }
        self
    }

    /// Starts a new, empty row.
    pub fn add_row(&mut self) -> (r: &mut Self)
        ensures
            *final(self) == *final(r),
            r@ == match old(self)@ {
                Some(t) => Some(t.push(Seq::<TextSpanView>::empty())),
                None => None,
            },
    {
        match &mut self.table {
            Some(table) => {
                let ghost before = table@;
                table.push(Vec::new());
                assert(table_view(table@) =~= table_view(before).push(Seq::<TextSpanView>::empty()))
                    by {
                    assert(row_view(table@[before.len() as int]@) =~= Seq::<TextSpanView>::empty());
                }
            },
            None => {},
        }
        self
    }

    /// Hands the table out and leaves the builder spent.
    pub fn build(&mut self) -> (t: Table)
        requires
            old(self)@ is Some,
        ensures
            Some(table_view(t@)) == old(self)@,
            final(self)@ is None,
    {
        let taken = self.table.take();
        taken.unwrap()
    }
}

impl Default for TableBuilder {
    /// A builder that holds one empty row.
    fn default() -> (r: Self)
        ensures
            r@ == Some(seq![Seq::<TextSpanView>::empty()]),
    {
        let mut table: Table = Vec::new();
        table.push(Vec::new());
        assert(table_view(table@) =~= seq![Seq::<TextSpanView>::empty()]) by {
            assert(row_view(table@[0]@) =~= Seq::<TextSpanView>::empty());
        }
        TableBuilder { table: Some(table) }
    }
}

} // verus!
