//! Facts about rendering that hold for every input.

use vstd::prelude::*;
use crate::link::{link_text, osc8_prefix};
use crate::record::{Field, field_text, row_texts};
use crate::table::{
    FIRST_BODY_ROW, body_texts, conforms, rendered, rendered_grid, table_grid, wrap_set, wrap_start,
    wrappable_text,
};

verus! {

/// A table has exactly one header row and one body row per record: the grid
/// handed to the drawing is the header followed by each record's cell texts,
/// in order, each as wide as the header.
pub proof fn lemma_one_header_row_and_one_row_per_record(
    caption: Seq<char>,
    header: Seq<Seq<char>>,
    rows: Seq<Vec<Field>>,
)
    requires
        conforms(header.len(), rows),
    ensures
        table_grid(header, rows).len() == rows.len() + 1,
        table_grid(header, rows)[0] == header,
        forall|i: int| 0 <= i < rows.len() ==> {
            &&& #[trigger] table_grid(header, rows)[i + 1] == row_texts(rows[i]@)
            &&& table_grid(header, rows)[i + 1].len() == header.len()
        },
        rendered(caption, header, rows)
            == rendered_grid(caption, table_grid(header, rows)[0], table_grid(header, rows).drop_first()),
{
    let g = table_grid(header, rows);
    assert(g.drop_first() =~= body_texts(rows));
    assert forall|i: int| 0 <= i < rows.len() implies {
        &&& #[trigger] g[i + 1] == row_texts(rows[i]@)
        &&& g[i + 1].len() == header.len()
    } by {
        assert(g[i + 1] == body_texts(rows)[i]);
        assert(rows[i]@.len() == header.len());
    }
}

/// A link-bearing field whose URL is not empty renders as text that starts
/// with the OSC 8 opener followed by exactly that URL.
pub proof fn lemma_link_cell_carries_url(label: String, url: String)
    requires
        url@.len() > 0,
    ensures
        field_text(Field::Link { label, url }).take((osc8_prefix().len() + url@.len()) as int)
            == osc8_prefix() + url@,
{
    let t = field_text(Field::Link { label, url });
    assert(t == link_text(label@, url@));
    assert(t.take((osc8_prefix().len() + url@.len()) as int) =~= osc8_prefix() + url@);
}

/// A link-bearing field with an empty URL renders as its bare label.
pub proof fn lemma_link_cell_without_url_is_label(label: String, url: String)
    requires
        url@.len() == 0,
    ensures
        field_text(Field::Link { label, url }) == label@,
{
}

/// A single-column table wraps no cell, whatever the length of its text.
pub proof fn lemma_single_column_never_wraps(body: Seq<Seq<Seq<char>>>)
    ensures
        wrap_set(1, body) == Set::<(nat, nat)>::empty(),
        wrap_start(1) == 1,
{
    assert(wrap_set(1, body) =~= Set::<(nat, nat)>::empty());
}

/// With more than one column, the first column never wraps, and a body cell
/// of any other column (at grid row `row`, below the caption band and the
/// header) wraps exactly when its text is wrappable; hyperlinks never are.
/// Wrapped lines break at spaces; tabled cuts a single word longer than the
/// wrap width inside the word.
pub proof fn lemma_every_column_but_first_wraps(
    n_columns: nat,
    body: Seq<Seq<Seq<char>>>,
    row: usize,
    col: nat,
)
    requires
        n_columns > 1,
        FIRST_BODY_ROW <= row < FIRST_BODY_ROW + body.len(),
        col < n_columns,
        body[row - FIRST_BODY_ROW].len() == n_columns,
    ensures
        wrap_set(n_columns, body).contains((row as nat, col))
            <==> (col >= 1 && wrappable_text(body[row - FIRST_BODY_ROW][col as int])),
        wrap_start(n_columns) == 1,
{
}

/// Header and caption cells never wrap: every wrapped cell lies in the body.
pub proof fn lemma_only_body_cells_wrap(n_columns: nat, body: Seq<Seq<Seq<char>>>, p: (nat, nat))
    requires
        wrap_set(n_columns, body).contains(p),
    ensures
        FIRST_BODY_ROW <= p.0 < FIRST_BODY_ROW + body.len(),
        p.1 >= 1,
{
}

/// Rendering is a function of its inputs: the same caption, column names and
/// cell texts give the same text block, byte for byte.
pub proof fn lemma_render_is_deterministic(
    caption: Seq<char>,
    header: Seq<Seq<char>>,
    rows1: Seq<Vec<Field>>,
    rows2: Seq<Vec<Field>>,
)
    requires
        body_texts(rows1) == body_texts(rows2),
    ensures
        rendered(caption, header, rows1) == rendered(caption, header, rows2),
{
}

} // verus!
