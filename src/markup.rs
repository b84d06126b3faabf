//! Queries on a markup document by CSS selector.

use vstd::prelude::*;

use crate::text::views;

verus! {

/// The inner markup of each element of the document `markup` that the CSS
/// selector group `selector` matches, in the order in which the parsed tree
/// holds its nodes (the source order, save where the parser moved a node);
/// nothing where `selector` is not a valid selector group.
pub uninterp spec fn selected(markup: Seq<char>, selector: Seq<char>) -> Seq<Seq<char>>;

/// Relies on scraper: `Html::parse_document` builds the tree, `Selector::parse`
/// reads the selector (an invalid one selects nothing), `Html::select` walks the
/// matching elements in the tree's node order and `ElementRef::inner_html`
/// serialises each one's children. The result depends on the two texts alone.
#[verifier::external_body]
pub(crate) fn select_inner_html(markup: &str, selector: &str) -> (r: Vec<String>)
    ensures
        views(r@) == selected(markup@, selector@),
{
    match scraper::Selector::parse(selector) {
        Ok(sel) => scraper::Html::parse_document(markup).select(&sel).map(|e| e.inner_html()).collect(),
        Err(_) => Vec::new(),
    }
}

/// The text of each element of the document `markup` that the CSS selector
/// group `selector` matches: its descendant text nodes joined, entities
/// decoded, tags left out. Elements come in the order in which the parsed
/// tree holds its nodes; nothing where `selector` is not a valid selector
/// group.
pub uninterp spec fn selected_text(markup: Seq<char>, selector: Seq<char>) -> Seq<Seq<char>>;

/// Relies on scraper: `Html::parse_document` builds the tree, `Selector::parse`
/// reads the selector (an invalid one selects nothing), `Html::select` walks the
/// matching elements in the tree's node order and `ElementRef::text` yields
/// each one's descendant text nodes, which are joined. The result depends on
/// the two texts alone.
#[verifier::external_body]
pub(crate) fn select_text(markup: &str, selector: &str) -> (r: Vec<String>)
    ensures
        views(r@) == selected_text(markup@, selector@),
{
    match scraper::Selector::parse(selector) {
        Ok(sel) => scraper::Html::parse_document(markup).select(&sel).map(|e| e.text().collect::<String>()).collect(),
        Err(_) => Vec::new(),
    }
}

/// The first item of `s`, or the empty text where there is none.
pub open spec fn first_or_empty(s: Seq<Seq<char>>) -> Seq<char> {
    if s.len() > 0 {
        s[0]
    } else {
        Seq::empty()
    }
}

/// The inner markup of the first element that `selector` matches, or the
/// empty text where none does.
pub fn select_first_or_empty(markup: &str, selector: &str) -> (r: String)
    ensures
        r@ == first_or_empty(selected(markup@, selector@)),
{
    let mut all = select_inner_html(markup, selector);
    if all.len() > 0 {
        assert(all@[0]@ == views(all@)[0]);
        all.swap_remove(0)
    } else {
        String::new()
    }
}

/// The text of the first element that `selector` matches, or the empty text
/// where none does.
pub fn select_first_text_or_empty(markup: &str, selector: &str) -> (r: String)
    ensures
        r@ == first_or_empty(selected_text(markup@, selector@)),
{
    let mut all = select_text(markup, selector);
    if all.len() > 0 {
        assert(all@[0]@ == views(all@)[0]);
        all.swap_remove(0)
    } else {
        String::new()
    }
}

} // verus!
