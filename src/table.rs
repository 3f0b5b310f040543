//! The layout engine and the table renderer: decides which cells wrap,
//! builds the grid of cell texts and hands it to `tabled` with a fixed
//! style (modern borders, centred cells, a caption band on top). The table
//! takes the natural width of its content: no minimum width is imposed, and
//! a single column is never wrapped.

use vstd::prelude::*;
use tabled::object::{Cell, Segment};
use tabled::{Alignment, Header, Modify, Style, Width};
use crate::record::{Field, row_cells, row_texts};

verus! {

/// The width, in characters, at which a wrapped cell breaks its text.
pub const WRAP_WIDTH: usize = 14;

/// Row of the laid-out grid that holds the first record: the caption band
/// is row 0 and the column headers row 1. Headers and caption never wrap.
pub const FIRST_BODY_ROW: usize = 2;

/// Whether column `col` of a schema with `n_columns` fields wraps its cells:
/// every column but the first, and only when there is more than one.
pub open spec fn column_wraps(n_columns: nat, col: nat) -> bool {
    n_columns > 1 && 1 <= col < n_columns
}

/// The first wrapped column for a schema with `n_columns` fields; with one
/// field it is past the last column, so that nothing wraps.
pub open spec fn wrap_start(n_columns: nat) -> nat {
    if n_columns > 1 {
        1
    } else {
        n_columns
    }
}

/// Computes the first column that wraps: column `c` of the schema wraps
/// exactly when `c >= r`.
pub fn first_wrapped_column(n_columns: usize) -> (r: usize)
    ensures
        r == wrap_start(n_columns as nat),
        r <= n_columns,
        forall|c: nat| c < n_columns ==> (column_wraps(n_columns as nat, c) <==> c >= r),
{
    if n_columns > 1 {
        1
    } else {
        n_columns
    }
}

/// Whether a character can stand in a word-wrapped cell: printable ASCII,
/// or Latin-1 Supplement and Latin Extended-A/B (U+00A0 to U+024F). On these
/// a character's width taken alone equals its width inside a string, which
/// the keep-words split relies on. Control characters (so the escapes of a
/// hyperlink), joiners, variation selectors and emoji fall outside.
pub open spec fn wrappable_char(c: char) -> bool {
    (' ' <= c && c <= '~') || ('\u{A0}' <= c && c <= '\u{24F}')
}

/// Whether word-wrapping can be applied to a cell with this text: all of its
/// characters are wrappable. Hyperlinks carry escape characters and so are
/// never broken.
pub open spec fn wrappable_text(s: Seq<char>) -> bool {
    forall|i: int| 0 <= i < s.len() ==> wrappable_char(#[trigger] s[i])
}

/// Whether a body cell with this text, in column `col` of `n_columns`, wraps.
pub open spec fn cell_wraps(n_columns: nat, col: nat, text: Seq<char>) -> bool {
    column_wraps(n_columns, col) && wrappable_text(text)
}

/// The cells, as (grid row, column), that wrap in a table whose body has
/// these cell texts: the caption band and the header row never wrap. A grid
/// row is a `usize`, as tabled addresses it.
pub open spec fn wrap_set(n_columns: nat, body: Seq<Seq<Seq<char>>>) -> Set<(nat, nat)> {
    Set::new(|p: (nat, nat)| {
        &&& FIRST_BODY_ROW <= p.0 < FIRST_BODY_ROW + body.len()
        &&& p.0 <= usize::MAX
        &&& p.1 < n_columns
        &&& p.1 < body[p.0 - FIRST_BODY_ROW].len()
        &&& cell_wraps(n_columns, p.1, body[p.0 - FIRST_BODY_ROW][p.1 as int])
    })
}

/// The set of cells listed.
pub open spec fn cell_set(cells: Seq<(usize, usize)>) -> Set<(nat, nat)> {
    Set::new(|p: (nat, nat)| exists|k: int| 0 <= k < cells.len() && #[trigger] lists(cells[k], p))
}

/// The listed entry `c` stands for grid position `p`.
pub open spec fn lists(c: (usize, usize), p: (nat, nat)) -> bool {
    c.0 as nat == p.0 && c.1 as nat == p.1
}

/// Names what `tabled` draws for a caption, a header row and body rows, with
/// the cells of `wrapped` (grid row, column) word-wrapped at `wrap_width`.
pub uninterp spec fn tabled_text(
    caption: Seq<char>,
    header: Seq<Seq<char>>,
    body: Seq<Seq<Seq<char>>>,
    wrapped: Set<(nat, nat)>,
    wrap_width: nat,
) -> Seq<char>;

/// The texts of a list of strings.
pub open spec fn texts(v: Seq<String>) -> Seq<Seq<char>> {
    v.map_values(|s: String| s@)
}

/// The texts of a grid of strings.
pub open spec fn grid_texts(g: Seq<Vec<String>>) -> Seq<Seq<Seq<char>>> {
    g.map_values(|row: Vec<String>| texts(row@))
}

/// Relies on `tabled` 0.8: `Builder::set_columns`, `add_record` and `build`
/// make the grid; `Table::with` applies `Header` (the caption band, row 0),
/// `Style::modern`, centring on `Segment::all`, and `Width::wrap(..).keep_words()`
/// on each listed `Cell`; `Display` draws it. The drawing depends on these
/// values alone, and not on the order of the list. A caption band spans all
/// columns, so there is at least one; a listed cell must exist, and its
/// keep-words split measures a word by its string width and then walks it
/// character by character, which can overflow where the two differ; with
/// unicode-width 0.1.14 they agree on every wrappable character. A word
/// longer than the width is cut inside the word.
#[verifier::external_body]
fn draw_table(
    caption: &str,
    header: &Vec<String>,
    body: &Vec<Vec<String>>,
    wrapped: &Vec<(usize, usize)>,
    wrap_width: usize,
) -> (r: String)
    requires
        header@.len() > 0,
        forall|i: int| 0 <= i < body@.len() ==> (#[trigger] body@[i])@.len() == header@.len(),
        forall|k: int| 0 <= k < wrapped@.len() ==> {
            let (row, col) = #[trigger] wrapped@[k];
            &&& FIRST_BODY_ROW <= row < body@.len() + FIRST_BODY_ROW
            &&& col < header@.len()
            &&& wrappable_text(body@[row - FIRST_BODY_ROW]@[col as int]@)
        },
    ensures
        r@ == tabled_text(caption@, texts(header@), grid_texts(body@), cell_set(wrapped@), wrap_width as nat),
{
    let mut builder = tabled::builder::Builder::default();
    builder.set_columns(header.iter());
    for row in body.iter() {
        builder.add_record(row.iter());
    }
    let centred = Modify::new(Segment::all()).with(Alignment::center()).with(Alignment::center_vertical());
    let mut table = builder.build().with(Header(caption)).with(Style::modern()).with(centred);
    for (row, col) in wrapped.iter() {
        table = table.with(Modify::new(Cell(*row, *col)).with(Width::wrap(wrap_width).keep_words()));
    }
    table.to_string()
}

/// Whether a cell with this text word-wraps in a wrapping column.
pub fn text_wraps(s: &str) -> (r: bool)
    ensures
        r == wrappable_text(s@),
{
    let len = s.unicode_len();
    let mut i: usize = 0;
    while i < len
        invariant
            len == s@.len(),
            i <= len,
            forall|j: int| 0 <= j < i ==> wrappable_char(#[trigger] s@[j]),
        decreases len - i,
    {
        let c = s.get_char(i);
        let ascii = ' ' <= c && c <= '~';
        let latin = '\u{A0}' <= c && c <= '\u{24F}';
        if !ascii && !latin {
            return false;
        }
        i = i + 1;
    }
    true
}

/// The cell at grid position `p` is listed before row `row`, column `col`
/// of the body, in row-major order.
pub open spec fn listed_before(p: (nat, nat), row: nat, col: nat) -> bool {
    p.0 < row + FIRST_BODY_ROW || (p.0 == row + FIRST_BODY_ROW && p.1 < col)
}

/// Lists the cells that wrap, as (grid row, column), for a body whose rows
/// all have `n` cells.
fn wrapped_cells(n: usize, body: &Vec<Vec<String>>) -> (r: Vec<(usize, usize)>)
    requires
        forall|i: int| 0 <= i < body@.len() ==> (#[trigger] body@[i])@.len() == n,
    ensures
        cell_set(r@) == wrap_set(n as nat, grid_texts(body@)),
        forall|k: int| 0 <= k < r@.len() ==> {
            let (row, col) = #[trigger] r@[k];
            &&& FIRST_BODY_ROW <= row < body@.len() + FIRST_BODY_ROW
            &&& col < n
            &&& wrappable_text(body@[row - FIRST_BODY_ROW]@[col as int]@)
        },
{
    let ghost g = grid_texts(body@);
    let ghost target = wrap_set(n as nat, g);
    let first = first_wrapped_column(n);
    let mut out: Vec<(usize, usize)> = Vec::new();
    let mut i: usize = 0;
    while i < body.len() && i <= usize::MAX - FIRST_BODY_ROW
        invariant
            g == grid_texts(body@),
            target == wrap_set(n as nat, g),
            first == wrap_start(n as nat),
            first <= n,
            forall|c: nat| c < n ==> (column_wraps(n as nat, c) <==> c >= first),
            forall|j: int| 0 <= j < body@.len() ==> (#[trigger] body@[j])@.len() == n,
            i <= body@.len(),
            forall|p: (nat, nat)| #[trigger] cell_set(out@).contains(p)
                <==> (target.contains(p) && listed_before(p, i as nat, 0)),
            forall|k: int| 0 <= k < out@.len() ==> {
                let (row, col) = #[trigger] out@[k];
                &&& FIRST_BODY_ROW <= row < body@.len() + FIRST_BODY_ROW
                &&& col < n
                &&& wrappable_text(body@[row - FIRST_BODY_ROW]@[col as int]@)
            },
        decreases body@.len() - i,
    {
        let mut c: usize = first;
        proof {
            assert forall|p: (nat, nat)| target.contains(p) && listed_before(p, i as nat, first as nat)
                <==> target.contains(p) && listed_before(p, i as nat, 0) by {
                if target.contains(p) && p.0 == i + FIRST_BODY_ROW {
                    assert(column_wraps(n as nat, p.1));
                }
            }
        }
        while c < n
            invariant
                g == grid_texts(body@),
                target == wrap_set(n as nat, g),
                first == wrap_start(n as nat),
                first <= c <= n,
                forall|c2: nat| c2 < n ==> (column_wraps(n as nat, c2) <==> c2 >= first),
                forall|j: int| 0 <= j < body@.len() ==> (#[trigger] body@[j])@.len() == n,
                i < body@.len(),
                i <= usize::MAX - FIRST_BODY_ROW,
                forall|p: (nat, nat)| #[trigger] cell_set(out@).contains(p)
                    <==> (target.contains(p) && listed_before(p, i as nat, c as nat)),
                forall|k: int| 0 <= k < out@.len() ==> {
                    let (row, col) = #[trigger] out@[k];
                    &&& FIRST_BODY_ROW <= row < body@.len() + FIRST_BODY_ROW
                    &&& col < n
                    &&& wrappable_text(body@[row - FIRST_BODY_ROW]@[col as int]@)
                },
            decreases n - c,
        {
            let wraps = text_wraps(body[i][c].as_str());
            let ghost old_out = out@;
            let ghost cell = ((i + FIRST_BODY_ROW) as nat, c as nat);
            proof {
                assert(g[i as int] == texts(body@[i as int]@));
                assert(g[i as int][c as int] == body@[i as int]@[c as int]@);
                assert(column_wraps(n as nat, c as nat));
                assert(target.contains(cell) == wraps);
            }
            if wraps {
                out.push((i + FIRST_BODY_ROW, c));
            }
            proof {
                if wraps {
                    assert(out@ == old_out.push(((i + FIRST_BODY_ROW) as usize, c)));
                } else {
                    assert(out@ == old_out);
                }
                assert forall|p: (nat, nat)| #[trigger] cell_set(out@).contains(p)
                    <==> (target.contains(p) && listed_before(p, i as nat, (c + 1) as nat)) by {
                    if p == cell {
                        if wraps {
                            assert(lists(out@[old_out.len() as int], p));
                        }
                        if cell_set(out@).contains(p) {
                            let k = choose|k: int| 0 <= k < out@.len() && #[trigger] lists(out@[k], p);
                            if k < old_out.len() {
                                assert(lists(old_out[k], p));
                                assert(cell_set(old_out).contains(p));
                            }
                        }
                    } else {
                        if cell_set(old_out).contains(p) {
                            let k = choose|k: int| 0 <= k < old_out.len() && #[trigger] lists(old_out[k], p);
                            assert(lists(out@[k], p));
                        }
                        if cell_set(out@).contains(p) {
                            let k = choose|k: int| 0 <= k < out@.len() && #[trigger] lists(out@[k], p);
                            assert(k < old_out.len());
                            assert(lists(old_out[k], p));
                            assert(cell_set(old_out).contains(p));
                        }
                    }
                }
            }
            c = c + 1;
        }
        proof {
            assert forall|p: (nat, nat)| target.contains(p) && listed_before(p, i as nat, n as nat)
                <==> target.contains(p) && listed_before(p, (i + 1) as nat, 0) by {}
        }
        i = i + 1;
    }
    proof {
        assert forall|p: (nat, nat)| cell_set(out@).contains(p) <==> target.contains(p) by {}
        assert(cell_set(out@) =~= target);
    }
    out
}

/// Why a row set cannot be rendered.
#[derive(Debug, PartialEq, Eq, Structural)]
pub enum RenderError {
    /// The schema names no column.
    NoColumns,
    /// Record `row` has `found` fields where the schema has `expected`.
    SchemaMismatch { row: usize, expected: usize, found: usize },
}

/// Every record has exactly `n_columns` fields.
pub open spec fn conforms(n_columns: nat, rows: Seq<Vec<Field>>) -> bool {
    forall|i: int| 0 <= i < rows.len() ==> #[trigger] rows[i]@.len() == n_columns
}

/// The cell texts of the body: one row of texts per record, in order.
pub open spec fn body_texts(rows: Seq<Vec<Field>>) -> Seq<Seq<Seq<char>>> {
    rows.map_values(|r: Vec<Field>| row_texts(r@))
}

/// The logical grid of a table: the header row, then one row per record.
pub open spec fn table_grid(header: Seq<Seq<char>>, rows: Seq<Vec<Field>>) -> Seq<Seq<Seq<char>>> {
    seq![header] + body_texts(rows)
}

/// The text block for a caption, the column names and the body's cell texts.
pub open spec fn rendered_grid(caption: Seq<char>, header: Seq<Seq<char>>, body: Seq<Seq<Seq<char>>>) -> Seq<char> {
    tabled_text(caption, header, body, wrap_set(header.len(), body), WRAP_WIDTH as nat)
}

/// The text block for a caption, the column names and the records.
pub open spec fn rendered(caption: Seq<char>, header: Seq<Seq<char>>, rows: Seq<Vec<Field>>) -> Seq<char> {
    rendered_grid(caption, header, body_texts(rows))
}

/// What rendering `rows` under the column names `header` gives: the text
/// block when the schema is non-empty and every record conforms to it, or
/// the first fault found.
pub open spec fn render_result(caption: Seq<char>, header: Seq<Seq<char>>, rows: Seq<Vec<Field>>, r: Result<String, RenderError>) -> bool {
    match r {
        Ok(s) => header.len() > 0 && conforms(header.len(), rows) && s@ == rendered(caption, header, rows),
        Err(RenderError::NoColumns) => header.len() == 0,
        Err(RenderError::SchemaMismatch { row, expected, found }) => {
            &&& header.len() > 0
            &&& row < rows.len()
            &&& expected == header.len()
            &&& found == rows[row as int]@.len()
            &&& found != expected
            &&& conforms(header.len(), rows.take(row as int))
        },
    }
}

/// Renders a caption, the column names and the records as one bordered text
/// block: a caption band, one header row and one row per record. Link-bearing
/// fields become hyperlinks; with more than one column every column but the
/// first word-wraps its body cells at `WRAP_WIDTH` where the cell's text is
/// wrappable (so hyperlinks stay whole). Lines break at spaces; a single word
/// longer than `WRAP_WIDTH` is cut inside the word by tabled. An empty row
/// set gives the caption and the header alone.
pub fn render(caption: &str, columns: &Vec<String>, rows: &Vec<Vec<Field>>) -> (r: Result<String, RenderError>)
    ensures
        render_result(caption@, texts(columns@), rows@, r),
{
    let n = columns.len();
    assert(texts(columns@).len() == n);
    if n == 0 {
        return Err(RenderError::NoColumns);
    }
    let mut body: Vec<Vec<String>> = Vec::new();
    let mut i: usize = 0;
    while i < rows.len()
        invariant
            i <= rows@.len(),
            n == columns@.len(),
            n == texts(columns@).len(),
            n > 0,
            body@.len() == i,
            conforms(n as nat, rows@.take(i as int)),
            forall|k: int| 0 <= k < i ==> texts(#[trigger] body@[k]@) == row_texts(rows@[k]@),
        decreases rows@.len() - i,
    {
        let found = rows[i].len();
        if found != n {
            return Err(RenderError::SchemaMismatch { row: i, expected: n, found });
        }
        let cells = row_cells(&rows[i]);
        body.push(cells);
        assert(rows@.take(i + 1) =~= rows@.take(i as int).push(rows@[i as int]));
        i = i + 1;
    }
    assert(rows@.take(i as int) =~= rows@);
    assert(grid_texts(body@) =~= body_texts(rows@));
    let wrapped = wrapped_cells(n, &body);
    Ok(draw_table(caption, columns, &body, &wrapped, WRAP_WIDTH))
}

} // verus!

verus! {

/// A type whose values are shown as rows of a table, under a fixed schema.
pub trait Record: Sized {
    /// The column names.
    spec fn header_view() -> Seq<Seq<char>>;

    /// The cell texts of this record's row, column by column.
    spec fn cells_view(&self) -> Seq<Seq<char>>;

    /// The column names; there is at least one.
    fn columns() -> (r: Vec<String>)
        ensures
            texts(r@) == Self::header_view(),
            r@.len() > 0,
    ;

    /// The fields of this record, one per column.
    fn fields(&self) -> (r: Vec<Field>)
        ensures
            row_texts(r@) == self.cells_view(),
            r@.len() == Self::header_view().len(),
    ;
}

/// The cell texts of a list of records.
pub open spec fn records_view<T: Record>(records: Seq<T>) -> Seq<Seq<Seq<char>>> {
    records.map_values(|x: T| x.cells_view())
}

/// Renders records of one type under a caption. Their schema is fixed by the
/// type, so this never fails; an empty list gives the caption and header alone.
pub fn render_records<T: Record>(caption: &str, records: &Vec<T>) -> (r: String)
    ensures
        r@ == rendered_grid(caption@, T::header_view(), records_view(records@)),
{
    let columns = T::columns();
    let mut rows: Vec<Vec<Field>> = Vec::new();
    let mut i: usize = 0;
    while i < records.len()
        invariant
            i <= records@.len(),
            rows@.len() == i,
            texts(columns@) == T::header_view(),
            forall|k: int| 0 <= k < i ==> row_texts(#[trigger] rows@[k]@) == records@[k].cells_view(),
            forall|k: int| 0 <= k < i ==> (#[trigger] rows@[k])@.len() == T::header_view().len(),
        decreases records@.len() - i,
    {
        rows.push(records[i].fields());
        i = i + 1;
    }
    let ghost header = texts(columns@);
    assert(header.len() == columns@.len());
    assert(conforms(header.len(), rows@));
    assert(body_texts(rows@) =~= records_view(records@));
    match render(caption, &columns, &rows) {
        Ok(s) => s,
        Err(_) => {
            // Unreachable: the schema is non-empty and every row conforms to it.
            proof {
                assert(rows@.take(rows@.len() as int) =~= rows@);
                assert(false);
            }
            String::new()
        },
    }
}

} // verus!
