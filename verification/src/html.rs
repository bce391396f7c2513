//! What the pipeline reads from a fetched page: its main content, the links
//! of an index page, and the markdown of an HTML fragment.
//!
//! Parsing, selecting and converting are the work of the `scraper` and
//! `html2md` crates. Each is reached through one function whose contract is
//! taken on trust; what the library decides on their results is verified.

use vstd::prelude::*;
use scraper::{Html, Selector};
use crate::text::texts;

verus! {

/// The inner HTML of every element of the parsed document `html` that matches
/// the CSS selector group `selector`, in the order in which `scraper` yields
/// the matches; `None` where `selector` is no valid selector group.
pub uninterp spec fn selected_inner_html(html: Seq<char>, selector: Seq<char>) -> Option<
    Seq<Seq<char>>,
>;

/// For every element of the parsed document `html` that matches the CSS
/// selector group `selector`, in the order in which `scraper` yields the
/// matches, the value of its attribute `attr` if it has one; `None` where
/// `selector` is no valid selector group.
pub uninterp spec fn selected_attr(html: Seq<char>, selector: Seq<char>, attr: Seq<char>) -> Option<
    Seq<Option<Seq<char>>>,
>;

/// The markdown that the structural HTML-to-markdown mapping gives the HTML
/// text `html`.
pub uninterp spec fn markdown_of(html: Seq<char>) -> Seq<char>;

/// The texts of a list of optional strings, in order.
pub open spec fn optional_texts(v: Seq<Option<String>>) -> Seq<Option<Seq<char>>> {
    v.map_values(
        |o: Option<String>|
            match o {
                Some(s) => Some(s@),
                None => None,
            },
    )
}

/// `scraper::Selector::parse`, `Html::parse_document`, `Html::select` and
/// `ElementRef::inner_html`: the document is parsed leniently (parsing never
/// fails), the matching elements are yielded in the order in which the
/// parser made them, which is the order of the document but where the
/// parser moves an element, and each is serialized without its own tag. The result depends on the two texts alone
/// and is known to the contracts as [`selected_inner_html`]. Only the
/// selectors that the library uses are let in.
#[verifier::external_body]
fn select_inner_html(html: &str, selector: &str) -> (found: Option<Vec<String>>)
    requires
        selector@ == "#main-content"@ || selector@ == stray_items_selector(),
    ensures
        match found {
            Some(matches) => selected_inner_html(html@, selector@) == Some(texts(matches@)),
            None => selected_inner_html(html@, selector@) is None,
        },
{
    let selector = match Selector::parse(selector) {
        Ok(parsed) => parsed,
        Err(_) => return None,
    };
    let document = Html::parse_document(html);
    Some(document.select(&selector).map(|element| element.inner_html()).collect())
}

/// `scraper::Selector::parse`, `Html::parse_document`, `Html::select` and
/// `Element::attr`: as [`select_inner_html`], but each matching element gives
/// the value of one attribute, or nothing where it lacks the attribute. The
/// result is known to the contracts as [`selected_attr`].
#[verifier::external_body]
fn select_attr(html: &str, selector: &str, attr: &str) -> (found: Option<Vec<Option<String>>>)
    requires
        selector@ == "a"@,
    ensures
        match found {
            Some(values) => selected_attr(html@, selector@, attr@) == Some(
                optional_texts(values@),
            ),
            None => selected_attr(html@, selector@, attr@) is None,
        },
{
    let selector = match Selector::parse(selector) {
        Ok(parsed) => parsed,
        Err(_) => return None,
    };
    let document = Html::parse_document(html);
    Some(document.select(&selector).map(|e| e.value().attr(attr).map(String::from)).collect())
}

/// The list items that the markdown conversion must not meet: every item
/// whose parent is no list.
pub open spec fn stray_items_selector() -> Seq<char> {
    "li:not(ul > li):not(ol > li):not(menu > li)"@
}

/// Whether an HTML text can be converted: it parses to a document without
/// stray list items.
pub open spec fn convertible(html: Seq<char>) -> bool {
    selected_inner_html(html, stray_items_selector()) == Some(Seq::<Seq<char>>::empty())
}

/// `html2md::parse_html`: the markdown of an HTML text, a function of the
/// text alone, known to the contracts as [`markdown_of`]. The conversion
/// can give up with a panic where it walks into a list item that has no
/// `ul`, `ol` or `menu` above it, in the document or, for the cells of a
/// table, in the cell. An item whose parent is a list has that list above
/// it in either walk, so `requires` leaves out the texts with an item whose
/// parent is none.
#[verifier::external_body]
fn convert_to_markdown(html: &str) -> (markdown: String)
    requires
        convertible(html@),
    ensures
        markdown@ == markdown_of(html@),
{
    html2md::parse_html(html)
}

/// The selected fragment that comes first in the order of selection, or
/// the empty text where nothing was selected.
pub open spec fn first_or_empty(found: Option<Seq<Seq<char>>>) -> Seq<char> {
    match found {
        Some(matches) => if matches.len() > 0 {
            matches[0]
        } else {
            Seq::empty()
        },
        None => Seq::empty(),
    }
}

/// The main content of a page: the inner HTML of the element whose
/// identifier is `main-content`, of the one that `scraper` yields first
/// where there are several, empty where the page has no such element.
pub open spec fn main_content(html: Seq<char>) -> Seq<char> {
    first_or_empty(selected_inner_html(html, "#main-content"@))
}

/// Picks the first selected fragment; a page on which nothing was selected
/// has empty content.
pub fn first_match(found: Option<Vec<String>>) -> (content: String)
    ensures
        content@ == first_or_empty(
            match found {
                Some(matches) => Some(texts(matches@)),
                None => None,
            },
        ),
{
    match found {
        Some(matches) => {
            if matches.len() > 0 {
                matches[0].clone()
            } else {
                String::new()
            }
        },
        None => String::new(),
    }
}

/// Isolates the main content of a fetched page. A page without the
/// main-content element yields the empty text; no page is an error.
pub fn extract_main_content(html: &str) -> (content: String)
    ensures
        content@ == main_content(html@),
        selected_inner_html(html@, "#main-content"@) == Some(Seq::<Seq<char>>::empty())
            ==> content@.len() == 0,
{
    first_match(select_inner_html(html, "#main-content"))
}

/// The values that are present, in order.
pub open spec fn present(values: Seq<Option<Seq<char>>>) -> Seq<Seq<char>>
    decreases values.len(),
{
    if values.len() == 0 {
        Seq::empty()
    } else {
        match values.last() {
            Some(value) => present(values.drop_last()).push(value),
            None => present(values.drop_last()),
        }
    }
}

/// The links of an index page: the `href` of every anchor that has one, in
/// the order in which `scraper` yields the anchors, a link as often as it
/// occurs.
pub open spec fn index_links(html: Seq<char>) -> Seq<Seq<char>> {
    match selected_attr(html, "a"@, "href"@) {
        Some(values) => present(values),
        None => Seq::empty(),
    }
}

/// Keeps the attribute values that are present, in order and with
/// repetitions; where nothing was selected there are none.
pub fn present_values(found: Option<Vec<Option<String>>>) -> (links: Vec<String>)
    ensures
        texts(links@) == match found {
            Some(values) => present(optional_texts(values@)),
            None => Seq::empty(),
        },
{
    let mut links: Vec<String> = Vec::new();
    match found {
        Some(values) => {
            let mut i: usize = 0;
            while i < values.len()
                invariant
                    i <= values.len(),
                    texts(links@) == present(optional_texts(values@).take(i as int)),
                decreases values.len() - i,
            {
                proof {
                    let all = optional_texts(values@);
                    assert(all.take(i + 1).drop_last() == all.take(i as int));
                    assert(all.take(i + 1).last() == all[i as int]);
                }
                let ghost before = links@;
                match &values[i] {
                    Some(value) => {
                        links.push(value.clone());
                        assert(texts(links@) == texts(before).push(value@));
                    },
                    None => {},
                }
                i += 1;
            }
            assert(optional_texts(values@).take(values.len() as int) == optional_texts(values@));
        },
        None => {
            assert(texts(links@) == Seq::<Seq<char>>::empty());
        },
    }
    links
}

/// Reads the page paths off a package's index page, in link order.
pub fn extract_links(html: &str) -> (links: Vec<String>)
    ensures
        texts(links@) == index_links(html@),
{
    present_values(select_attr(html, "a", "href"))
}

/// Whether an HTML text can be converted to markdown.
pub fn is_convertible(html: &str) -> (safe: bool)
    ensures
        safe == convertible(html@),
{
    match select_inner_html(html, "li:not(ul > li):not(ol > li):not(menu > li)") {
        Some(stray) => {
            assert(stray.len() == 0 <==> texts(stray@) =~= Seq::<Seq<char>>::empty());
            stray.len() == 0
        },
        None => false,
    }
}

/// What a fetched page contributes: the markdown of its main content, or
/// nothing where the main content is empty or cannot be converted.
pub open spec fn converted_page(html: Seq<char>) -> Option<Seq<char>> {
    if main_content(html).len() == 0 || !convertible(main_content(html)) {
        None
    } else {
        Some(markdown_of(main_content(html)))
    }
}

/// Extracts and converts one fetched page. A page without main content
/// converts to nothing, and so does a page whose main content the
/// conversion cannot take; either ends the work on that page and is no
/// error.
pub fn convert_page(html: &str) -> (page: Option<String>)
    ensures
        match page {
            Some(markdown) => converted_page(html@) == Some(markdown@),
            None => converted_page(html@) is None,
        },
{
    let content = extract_main_content(html);
    if content.as_str().is_empty() || !is_convertible(content.as_str()) {
        None
    } else {
        Some(convert_to_markdown(content.as_str()))
    }
}

} // verus!
