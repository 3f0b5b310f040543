//! Terminal hyperlinks (OSC 8) for identifier cells.

use vstd::prelude::*;

verus! {

/// The escape character that opens and closes an OSC 8 sequence.
pub open spec fn esc() -> char {
    '\u{1b}'
}

/// The OSC 8 opener `ESC ] 8 ; ;`, which the link target follows.
pub open spec fn osc8_prefix() -> Seq<char> {
    seq![esc(), ']', '8', ';', ';']
}

/// The string terminator `ESC \`.
pub open spec fn osc8_terminator() -> Seq<char> {
    seq![esc(), '\\']
}

/// `ESC ] 8 ; ; url ESC \ label ESC ] 8 ; ; ESC \`: `label` shown, `url` targeted.
pub open spec fn osc8_link(label: Seq<char>, url: Seq<char>) -> Seq<char> {
    osc8_prefix() + url + osc8_terminator() + label + osc8_prefix() + osc8_terminator()
}

/// What a cell with this label and link target shows: the bare label when
/// there is no target, the encoded hyperlink otherwise.
pub open spec fn link_text(label: Seq<char>, url: Seq<char>) -> Seq<char> {
    if url.len() == 0 {
        label
    } else {
        osc8_link(label, url)
    }
}

/// Relies on `terminal_link::Link::new(text, url)` and its `Display`, which
/// writes `ESC ] 8 ; ; {url} ESC \ {text} ESC ] 8 ; ; ESC \` for a link without id.
#[verifier::external_body]
fn encode_hyperlink(label: &str, url: &str) -> (r: String)
    ensures
        r@ == osc8_link(label@, url@),
{
    terminal_link::Link::new(label, url).to_string()
}

/// Wraps `label` into a clickable hyperlink to `url`; an empty `url` leaves
/// the label as it is.
pub fn format_link(label: &str, url: &str) -> (r: String)
    ensures
        r@ == link_text(label@, url@),
{
    if url.is_empty() {
        label.to_string()
    } else {
        encode_hyperlink(label, url)
    }
}

} // verus!
