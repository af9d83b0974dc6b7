//! The HTML anchor built from an item's title and link.
use vstd::prelude::*;

verus! {

/// `<a href='{link}'>{title}</a>`, with both inserted verbatim: nothing is
/// escaped.
pub open spec fn anchor_of(title: Seq<char>, link: Seq<char>) -> Seq<char> {
    "<a href='"@ + link + "'>"@ + title + "</a>"@
}

/// The anchor whose text is `text` and whose target is `link`.
pub fn make_anchor(text: &str, link: &str) -> (r: String)
    ensures
        r@ == anchor_of(text@, link@),
{
    let mut r = String::from_str("<a href='");
    r.append(link);
    r.append("'>");
    r.append(text);
    r.append("</a>");
    r
}

} // verus!
