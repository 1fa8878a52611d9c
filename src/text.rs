//! Text as the host receives it.

use vstd::prelude::*;

verus! {

/// Separator that the host expects between argument or completion templates.
pub const TEMPLATE_SEPARATOR: &'static str = "||";

/// Character that stands in for a NUL, which a host string cannot hold.
pub const PLACEHOLDER: char = '\u{FFFD}';

/// The templates joined in order, with `sep` between two neighbours.
pub open spec fn joined(items: Seq<Seq<char>>, sep: Seq<char>) -> Seq<char>
    decreases items.len(),
{
    if items.len() == 0 {
        Seq::empty()
    } else if items.len() == 1 {
        items[0]
    } else {
        joined(items.drop_last(), sep) + sep + items.last()
    }
}

/// The separator of templates, as a sequence of characters.
pub open spec fn separator_spec() -> Seq<char> {
    seq!['|', '|']
}

/// A string with every NUL replaced by the placeholder character.
pub open spec fn host_text(s: Seq<char>) -> Seq<char> {
    s.map_values(|c: char| if c == '\0' { PLACEHOLDER } else { c })
}

/// The views of a list of strings.
pub open spec fn views(items: Seq<String>) -> Seq<Seq<char>> {
    items.map_values(|s: String| s@)
}

/// Joins the templates with the host's separator.
pub fn join_templates(items: &Vec<String>) -> (r: String)
    ensures
        r@ == joined(views(items@), separator_spec()),
{
    let sep = TEMPLATE_SEPARATOR;
    proof {
        reveal_strlit("||");
    }
    let mut r = String::new();
    let n = items.len();
    let mut i: usize = 0;
    while i < n
        invariant
            n == items@.len(),
            i <= n,
            sep@ == separator_spec(),
            r@ == joined(views(items@.take(i as int)), separator_spec()),
        decreases n - i,
    {
        proof {
            let prefix = items@.take(i as int + 1);
            assert(views(prefix).drop_last() =~= views(items@.take(i as int)));
            assert(views(prefix).last() == items@[i as int]@);
        }
        if i > 0 {
            r.append(sep);
        } else {
            assert(views(items@.take(1)) =~= seq![items@[0]@]);
        }
        r.append(items[i].as_str());
        i = i + 1;
    }
    assert(items@.take(n as int) =~= items@);
    r
}

/// Converts a string into one the host can hold: each NUL becomes the
/// placeholder character, and every other character stays in place.
pub fn to_host_text(s: &str) -> (r: String)
    ensures
        r@ == host_text(s@),
{
    let n = s.unicode_len();
    let mut r = String::new();
    let mut i: usize = 0;
    while i < n
        invariant
            n == s@.len(),
            i <= n,
            r@ =~= host_text(s@.take(i as int)),
        decreases n - i,
    {
        let c = s.get_char(i);
        if c == '\0' {
            r.append("\u{FFFD}");
            proof {
                reveal_strlit("\u{FFFD}");
            }
        } else {
            r.append(s.substring_char(i, i + 1));
        }
        assert(s@.take(i as int + 1) =~= s@.take(i as int).push(c));
        i = i + 1;
    }
    assert(s@.take(n as int) =~= s@);
    r
}

} // verus!
