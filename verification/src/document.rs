//! The text being viewed: an ordered sequence of rows, possibly named.

use vstd::prelude::*;

verus! {

/// One line of the document.
pub struct Row {
    pub string: String,
}

impl View for Row {
    type V = Seq<char>;

    open spec fn view(&self) -> Seq<char> {
        self.string@
    }
}

impl Row {
    pub fn from_str(line: &str) -> (r: Row)
        ensures
            r@ == line@,
    {
        Row { string: line.to_owned() }
    }

    /// The number of characters in the row.
    pub fn len(&self) -> (r: usize)
        ensures
            r == self@.len(),
    {
        self.string.as_str().unicode_len()
    }

    /// The characters in columns `[start, end)`, both bounds clamped to the
    /// row: `end` to the row length, `start` to the clamped `end`.
    pub fn render(&self, start: usize, end: usize) -> (r: String)
        ensures
            r@ == self@.subrange(
                vstd::math::min(start as int, vstd::math::min(end as int, self@.len() as int)),
                vstd::math::min(end as int, self@.len() as int),
            ),
    {
        let len = self.string.as_str().unicode_len();
        let end = if end < len { end } else { len };
        let start = if start < end { start } else { end };
        self.string.as_str().substring_char(start, end).to_owned()
    }
}

/// The document: its rows and, when it was read from a file, that file's name.
pub struct Document {
    pub rows: Vec<Row>,
    pub file_name: Option<String>,
}

impl View for Document {
    type V = Seq<Seq<char>>;

    open spec fn view(&self) -> Seq<Seq<char>> {
        self.rows@.map(|i: int, r: Row| r@)
    }
}

/// The width of row `y`, or zero where no such row exists.
pub open spec fn row_width(doc: Seq<Seq<char>>, y: int) -> nat {
    if 0 <= y < doc.len() {
        doc[y].len()
    } else {
        0
    }
}

impl Document {
    /// An empty, unnamed document.
    pub fn empty() -> (r: Document)
        ensures
            r@ =~= Seq::<Seq<char>>::empty(),
            r.file_name is None,
    {
        Document { rows: Vec::new(), file_name: None }
    }

    pub fn from_rows(rows: Vec<Row>, file_name: Option<String>) -> (r: Document)
        ensures
            r.rows == rows,
            r.file_name == file_name,
            r@.len() == rows@.len(),
    {
        Document { rows, file_name }
    }

    /// The number of lines.
    pub fn len(&self) -> (r: usize)
        ensures
            r == self@.len(),
    {
        self.rows.len()
    }

    pub fn is_empty(&self) -> (r: bool)
        ensures
            r == (self@.len() == 0),
    {
        self.rows.len() == 0
    }

    /// The row at `index`, where one exists.
    pub fn row(&self, index: usize) -> (r: Option<&Row>)
        ensures
            match r {
                Some(row) => index < self@.len() && row@ == self@[index as int],
                None => index >= self@.len(),
            },
    {
        if index < self.rows.len() {
            Some(&self.rows[index])
        } else {
            None
        }
    }
}

} // verus!
