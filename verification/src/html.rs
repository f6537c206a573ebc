//! Reading HTML: the markup of a parsed page, the text of a fragment, and the
//! image a page presents. Parsing and selection are done by `scraper`.
use vstd::prelude::*;

use crate::model::{opt_view, opt_views, Article};
use crate::text::{contains_seq, contains_str, trim, trimmed};

verus! {

// ---------------------------------------------------------------------------
// What `scraper` computes
// ---------------------------------------------------------------------------
/// The serialised markup of the root `<html>` element of the document that
/// `scraper::Html::parse_document` builds from `source`.
pub uninterp spec fn document_markup(source: Seq<char>) -> Seq<char>;

/// For each node of the tree that `scraper::Html::parse_fragment` builds from
/// `source`, in the order the nodes were created: the node's text if it is a
/// text node, `None` otherwise.
pub uninterp spec fn fragment_node_texts(source: Seq<char>) -> Seq<Option<Seq<char>>>;

/// For each element of the document parsed from `source` that the CSS
/// selector `selector` matches, in the parser's node creation order: its
/// attribute named `attr`, if it has one. `None` when `selector` is not a
/// selector that `scraper` accepts.
pub uninterp spec fn selected_attributes(source: Seq<char>, selector: Seq<char>, attr: Seq<char>) -> Option<
    Seq<Option<Seq<char>>>,
>;

/// The `content` attributes of the `og:image` meta elements of `source`.
pub open spec fn og_image_contents(source: Seq<char>) -> Option<Seq<Option<Seq<char>>>> {
    selected_attributes(source, "meta[property=\"og:image\"]"@, "content"@)
}

/// The `src` attributes of the `img` elements of `source`.
pub open spec fn img_srcs(source: Seq<char>) -> Option<Seq<Option<Seq<char>>>> {
    selected_attributes(source, "img"@, "src"@)
}

/// Parses `source` as a whole document with `scraper::Html::parse_document`
/// and serialises its root element with `ElementRef::html`; the contract
/// claims only that the result is the named markup of `source` (the parser
/// always supplies the root element, so the lookup does not fail).
#[verifier::external_body]
fn parse_document_markup(source: &str) -> (r: String)
    ensures
        r@ == document_markup(source@),
{
    scraper::Html::parse_document(source).root_element().html()
}

/// Parses `source` with `scraper::Html::parse_fragment` and lists, for every
/// node of the resulting tree in creation order, its text when it is a text
/// node; the contract claims that this list is the named one.
#[verifier::external_body]
fn parse_fragment_node_texts(source: &str) -> (r: Vec<Option<String>>)
    ensures
        opt_views(r@) == fragment_node_texts(source@),
{
    scraper::Html::parse_fragment(source).tree.into_iter().map(
        |node| match node {
            scraper::node::Node::Text(text) => Some(text.text.to_string()),
            _ => None,
        },
    ).collect()
}

/// Parses `selector` with `scraper::Selector::parse` and `source` with
/// `scraper::Html::parse_document`, selects the matching elements and reads
/// each one's attribute `attr` (`ElementRef::attr`). The contract claims the
/// list is the named one, `None` exactly when the selector is refused, and
/// that the two selectors `img` and `meta[property="og:image"]` (a type
/// selector; a type selector with an attribute-equals selector) are
/// accepted.
#[verifier::external_body]
fn select_attributes(source: &str, selector: &str, attr: &str) -> (r: Option<Vec<Option<String>>>)
    ensures
        match r {
            Some(v) => selected_attributes(source@, selector@, attr@) == Some(opt_views(v@)),
            None => selected_attributes(source@, selector@, attr@) is None,
        },
        selector@ == "img"@ || selector@ == "meta[property=\"og:image\"]"@ ==> r is Some,
{
    let selector = scraper::Selector::parse(selector).ok()?;
    Some(
        scraper::Html::parse_document(source).select(&selector).map(
            |e| e.value().attr(attr).map(|s| s.to_string()),
        ).collect(),
    )
}

// ---------------------------------------------------------------------------
// Page markup
// ---------------------------------------------------------------------------
/// The page as the parser understands it: `html` parsed as a document and
/// serialised back from its root element. Image addresses are left as they
/// are.
pub fn replace_image(html: &str) -> (r: String)
    ensures
        r@ == document_markup(html@),
{
    parse_document_markup(html)
}

/// An article as it is shown; its fields are kept as they are.
pub fn replace_image_article(e: Article) -> (r: Article)
    ensures
        r == e,
{
    e
}

// ---------------------------------------------------------------------------
// Text of a fragment
// ---------------------------------------------------------------------------
/// The trimmed texts of the text nodes among `nodes`, concatenated in order.
pub open spec fn joined_trimmed_texts(nodes: Seq<Option<Seq<char>>>) -> Seq<char>
    decreases nodes.len(),
{
    if nodes.len() == 0 {
        Seq::empty()
    } else {
        joined_trimmed_texts(nodes.drop_last()) + match nodes.last() {
            Some(t) => trimmed(t),
            None => Seq::empty(),
        }
    }
}

/// The text of `s` read as an HTML fragment: each text node trimmed of white
/// space, all concatenated in order.
pub open spec fn text_of_fragment(s: Seq<char>) -> Seq<char> {
    joined_trimmed_texts(fragment_node_texts(s))
}

/// Concatenates the trimmed texts of the text nodes among `nodes`.
pub fn join_trimmed_texts(nodes: &Vec<Option<String>>) -> (r: String)
    ensures
        r@ == joined_trimmed_texts(opt_views(nodes@)),
{
    let mut r = String::new();
    let ghost all = opt_views(nodes@);
    let mut i: usize = 0;
    while i < nodes.len()
        invariant
            all == opt_views(nodes@),
            0 <= i <= nodes.len(),
            r@ == joined_trimmed_texts(all.take(i as int)),
        decreases nodes.len() - i,
    {
        assert(all.take(i + 1).drop_last() =~= all.take(i as int));
        assert(all.take(i + 1).last() == opt_view(&nodes@[i as int]));
        match &nodes[i] {
            Some(t) => {
                let piece = trim(t.as_str());
                r.append(piece.as_str());
            },
            None => {
                assert(r@ =~= r@ + Seq::<char>::empty());
            },
        }
        i = i + 1;
    }
    assert(all.take(nodes.len() as int) =~= all);
    r
}

/// The text of `s` read as an HTML fragment: every text node trimmed of
/// white space, concatenated in order.
pub fn get_text_from_xml(s: &str) -> (r: String)
    ensures
        r@ == text_of_fragment(s@),
{
    let nodes = parse_fragment_node_texts(s);
    join_trimmed_texts(&nodes)
}

/// Whether the text of fragment `new` occurs within the text of fragment
/// `old`: the markup around the text plays no part.
pub fn contains_only_text(old: &str, new: &str) -> (b: bool)
    ensures
        b == contains_seq(text_of_fragment(old@), text_of_fragment(new@)),
{
    let old_text = get_text_from_xml(old);
    let new_text = get_text_from_xml(new);
    contains_str(old_text.as_str(), new_text.as_str())
}

/// A fragment's text always contains itself: comparing a fragment with
/// itself says "only text".
pub proof fn lemma_contains_only_text_reflexive(s: Seq<char>)
    ensures
        contains_seq(text_of_fragment(s), text_of_fragment(s)),
{
    crate::text::lemma_contains_self(text_of_fragment(s));
}

/// A fragment without text is contained in every fragment.
pub proof fn lemma_contains_only_text_of_empty(old: Seq<char>, new: Seq<char>)
    requires
        text_of_fragment(new) == Seq::<char>::empty(),
    ensures
        contains_seq(text_of_fragment(old), text_of_fragment(new)),
{
    crate::text::lemma_contains_empty(text_of_fragment(old));
}

// ---------------------------------------------------------------------------
// The image a page presents
// ---------------------------------------------------------------------------
/// The first present item of `s`, if any.
pub open spec fn first_present(s: Seq<Option<Seq<char>>>) -> Option<Seq<char>>
    decreases s.len(),
{
    if s.len() == 0 {
        None
    } else if s[0] is Some {
        s[0]
    } else {
        first_present(s.drop_first())
    }
}

/// The image to show for a page: the `content` of the first `og:image` meta
/// element when that element has one, else the `src` of the first `img`
/// element that has one.
pub open spec fn best_image(og: Seq<Option<Seq<char>>>, imgs: Seq<Option<Seq<char>>>) -> Option<
    Seq<char>,
> {
    if og.len() > 0 && og[0] is Some {
        og[0]
    } else {
        first_present(imgs)
    }
}

/// Chooses the image to show from the `og:image` contents and `img` sources
/// of a page.
pub fn pick_best_image(og: &Vec<Option<String>>, imgs: &Vec<Option<String>>) -> (r: Option<
    String,
>)
    ensures
        opt_view(&r) == best_image(opt_views(og@), opt_views(imgs@)),
{
    if og.len() > 0 {
        assert(opt_views(og@)[0] == opt_view(&og@[0]));
        if let Some(content) = &og[0] {
            return Some(content.clone());
        }
    }
    let ghost all = opt_views(imgs@);
    assert(all.skip(0) =~= all);
    let mut i: usize = 0;
    while i < imgs.len()
        invariant
            all == opt_views(imgs@),
            0 <= i <= imgs.len(),
            best_image(opt_views(og@), all) == first_present(all),
            first_present(all) == first_present(all.skip(i as int)),
        decreases imgs.len() - i,
    {
        assert(all.skip(i as int)[0] == opt_view(&imgs@[i as int]));
        assert(all.skip(i as int).drop_first() =~= all.skip(i + 1));
        if let Some(src) = &imgs[i] {
            assert(first_present(all.skip(i as int)) == all.skip(i as int)[0]);
            return Some(src.clone());
        }
        i = i + 1;
    }
    assert(all.skip(i as int).len() == 0);
    None
}

/// The image to show for the page `body`, if it names one: the `content` of
/// the first `meta[property="og:image"]` element when it has one, else the
/// `src` of the first `img` element that has one.
pub fn best_image_in_page(body: &str) -> (r: Option<String>)
    ensures
        og_image_contents(body@) is Some,
        img_srcs(body@) is Some,
        opt_view(&r) == best_image(og_image_contents(body@).unwrap(), img_srcs(body@).unwrap()),
{
    let og = select_attributes(body, "meta[property=\"og:image\"]", "content");
    let imgs = select_attributes(body, "img", "src");
    match (og, imgs) {
        (Some(og), Some(imgs)) => pick_best_image(&og, &imgs),
        _ => None,
    }
}

} // verus!
