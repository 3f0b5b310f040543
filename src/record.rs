//! The record model: a row is a sequence of fields, each shown either as
//! plain text or as a label that links to a URL.

use vstd::prelude::*;
use crate::link::{format_link, link_text};

verus! {

/// One field of a record.
pub enum Field {
    /// Shown verbatim.
    Plain(String),
    /// Shows `label`, clickable to `url`; an empty `url` means no link target.
    Link { label: String, url: String },
}

/// The text of a field's cell.
pub open spec fn field_text(f: Field) -> Seq<char> {
    match f {
        Field::Plain(s) => s@,
        Field::Link { label, url } => link_text(label@, url@),
    }
}

/// The cell texts of one row, field by field.
pub open spec fn row_texts(row: Seq<Field>) -> Seq<Seq<char>> {
    row.map_values(|f: Field| field_text(f))
}

/// Renders one field: a link-bearing field with a URL becomes a hyperlink,
/// any other field its plain text.
pub fn cell_text(f: &Field) -> (r: String)
    ensures
        r@ == field_text(*f),
{
    match f {
        Field::Plain(s) => s.clone(),
        Field::Link { label, url } => format_link(label.as_str(), url.as_str()),
    }
}

/// Renders every field of a row, in order.
pub fn row_cells(row: &Vec<Field>) -> (r: Vec<String>)
    ensures
        r@.map_values(|s: String| s@) == row_texts(row@),
{
    let mut out: Vec<String> = Vec::new();
    let mut i: usize = 0;
    while i < row.len()
        invariant
            i <= row@.len(),
            out@.len() == i,
            forall|k: int| 0 <= k < i ==> #[trigger] out@[k]@ == field_text(row@[k]),
        decreases row@.len() - i,
    {
        out.push(cell_text(&row[i]));
        i = i + 1;
    }
    assert(out@.map_values(|s: String| s@) =~= row_texts(row@));
    out
}

/// The character of a decimal digit.
pub open spec fn digit_char(d: nat) -> char {
    if d == 0 { '0' }
    else if d == 1 { '1' }
    else if d == 2 { '2' }
    else if d == 3 { '3' }
    else if d == 4 { '4' }
    else if d == 5 { '5' }
    else if d == 6 { '6' }
    else if d == 7 { '7' }
    else if d == 8 { '8' }
    else { '9' }
}

/// The decimal digits of a natural number, most significant first, no leading zeros.
pub open spec fn digits(n: nat) -> Seq<char>
    decreases n,
{
    if n < 10 {
        seq![digit_char(n)]
    } else {
        digits(n / 10).push(digit_char(n % 10))
    }
}

/// The decimal text of an integer, with a leading `-` when it is negative.
pub open spec fn decimal(n: int) -> Seq<char> {
    if n < 0 {
        seq!['-'] + digits((-n) as nat)
    } else {
        digits(n as nat)
    }
}

/// The one-character text of a digit below ten.
fn digit_str(d: u64) -> (r: &'static str)
    requires
        d < 10,
    ensures
        r@ == seq![digit_char(d as nat)],
{
    proof {
        reveal_strlit("0");
        reveal_strlit("1");
        reveal_strlit("2");
        reveal_strlit("3");
        reveal_strlit("4");
        reveal_strlit("5");
        reveal_strlit("6");
        reveal_strlit("7");
        reveal_strlit("8");
        reveal_strlit("9");
    }
    if d == 0 { "0" }
    else if d == 1 { "1" }
    else if d == 2 { "2" }
    else if d == 3 { "3" }
    else if d == 4 { "4" }
    else if d == 5 { "5" }
    else if d == 6 { "6" }
    else if d == 7 { "7" }
    else if d == 8 { "8" }
    else { "9" }
}

/// Appends the decimal digits of `n` to `s`.
fn push_digits(s: &mut String, n: u64)
    ensures
        final(s)@ == old(s)@ + digits(n as nat),
    decreases n,
{
    if n >= 10 {
        push_digits(s, n / 10);
    }
    s.append(digit_str(n % 10));
    proof {
        if n >= 10 {
            assert(old(s)@ + digits(n as nat) =~= old(s)@ + digits((n / 10) as nat) + seq![digit_char((n % 10) as nat)]);
        } else {
            assert(digits(n as nat) =~= seq![digit_char((n % 10) as nat)]);
        }
    }
}

/// The decimal text of an `i32`.
pub fn decimal_text(n: i32) -> (r: String)
    ensures
        r@ == decimal(n as int),
{
    let mut s = String::new();
    if n < 0 {
        proof { reveal_strlit("-"); }
        s.append("-");
        let m: u64 = (0i64 - n as i64) as u64;
        push_digits(&mut s, m);
    } else {
        push_digits(&mut s, n as u64);
    }
    s
}

/// The text of a boolean: `true` or `false`.
pub open spec fn bool_text(b: bool) -> Seq<char> {
    if b {
        seq!['t', 'r', 'u', 'e']
    } else {
        seq!['f', 'a', 'l', 's', 'e']
    }
}

/// Renders a boolean as `true` or `false`.
pub fn boolean_text(b: bool) -> (r: String)
    ensures
        r@ == bool_text(b),
{
    proof {
        reveal_strlit("true");
        reveal_strlit("false");
    }
    if b {
        "true".to_string()
    } else {
        "false".to_string()
    }
}

} // verus!
