//! The console listing: one `title, link` line per item, with commas taken
//! out of the title and the link cut at its first comma.
use vstd::prelude::*;
use crate::model::{Item, ItemView, Rss};

verus! {

/// `s` with every comma removed and every other character kept, in order.
pub open spec fn without_commas(s: Seq<char>) -> Seq<char> {
    s.filter(|c: char| c != ',')
}

/// The part of `s` before its first comma; all of `s` where it has none.
pub open spec fn before_first_comma(s: Seq<char>) -> Seq<char>
    decreases s.len(),
{
    if s.len() == 0 || s[0] == ',' {
        Seq::empty()
    } else {
        seq![s[0]] + before_first_comma(s.drop_first())
    }
}

/// The console line of one item.
pub open spec fn console_line_of(item: ItemView) -> Seq<char> {
    without_commas(item.title) + ", "@ + before_first_comma(item.link)
}

/// The console lines of a document, one per item, in order.
pub open spec fn console_lines_of(items: Seq<ItemView>) -> Seq<Seq<char>> {
    items.map_values(|i: ItemView| console_line_of(i))
}

/// The first `k` characters of `s` hold no comma, and `k` is the end of `s` or
/// the place of a comma: then they are what comes before the first comma.
proof fn lemma_before_first_comma(s: Seq<char>, k: int)
    requires
        0 <= k <= s.len(),
        forall|j: int| 0 <= j < k ==> s[j] != ',',
        k == s.len() || s[k] == ',',
    ensures
        before_first_comma(s) == s.subrange(0, k),
    decreases k,
{
    if k > 0 {
        lemma_before_first_comma(s.drop_first(), k - 1);
        assert(s.subrange(0, k) =~= seq![s[0]] + s.drop_first().subrange(0, k - 1));
    }
}

/// `text` without its commas.
pub fn remove_commas(text: &str) -> (r: String)
    ensures
        r@ == without_commas(text@),
{
    let n = text.unicode_len();
    let mut r = String::new();
    let mut i: usize = 0;
    while i < n
        invariant
            n == text@.len(),
            i <= n,
            r@ == without_commas(text@.subrange(0, i as int)),
        decreases n - i,
    {
        let c = text.get_char(i);
        proof {
            text@.subrange(0, i as int).lemma_filter_push(c, |c: char| c != ',');
            assert(text@.subrange(0, i + 1) =~= text@.subrange(0, i as int).push(c));
        }
        if c != ',' {
            r.append(text.substring_char(i, i + 1));
        }
        i = i + 1;
    }
    assert(text@.subrange(0, n as int) =~= text@);
    r
}

/// The part of `text` before its first comma, or all of `text` where it has
/// none. An empty link gives an empty result: there is no placeholder for it,
/// since splitting at commas always yields a first part, and a stand-in such
/// as `-` could only ever be dead code.
pub fn cut_comma(text: &str) -> (r: &str)
    ensures
        r@ == before_first_comma(text@),
{
    let n = text.unicode_len();
    let mut k: usize = 0;
    while k < n && text.get_char(k) != ','
        invariant
            n == text@.len(),
            k <= n,
            forall|j: int| 0 <= j < k ==> text@[j] != ',',
        decreases n - k,
    {
        k = k + 1;
    }
    proof {
        lemma_before_first_comma(text@, k as int);
    }
    text.substring_char(0, k)
}

/// The console line of one item: its title without commas, `", "`, then its
/// link up to the first comma.
pub fn console_line(item: &Item) -> (r: String)
    ensures
        r@ == console_line_of(item@),
{
    let mut r = remove_commas(item.title.as_str());
    r.append(", ");
    r.append(cut_comma(item.link.as_str()));
    r
}

/// The lines that the console listing prints, one per item, in document
/// order.
pub fn console_lines(rss: &Rss) -> (r: Vec<String>)
    ensures
        r@.map_values(|l: String| l@) == console_lines_of(rss@),
{
    let items = &rss.channel.items;
    let mut r: Vec<String> = Vec::new();
    let mut i: usize = 0;
    while i < items.len()
        invariant
            i <= items@.len(),
            r@.len() == i,
            forall|j: int| 0 <= j < i ==> #[trigger] r@[j]@ == console_line_of(items@[j]@),
        decreases items@.len() - i,
    {
        let line = console_line(&items[i]);
        r.push(line);
        i = i + 1;
    }
    assert(r@.map_values(|l: String| l@) =~= console_lines_of(rss@));
    r
}

} // verus!
