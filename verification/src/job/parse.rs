//! Finding the wallpaper links in a search page.
use vstd::prelude::*;

verus! {

/// For an HTML document, a CSS selector and an attribute name: `None` where
/// `scraper` cannot parse the selector, else the value of the attribute on
/// each element that the selector matches, in the order in which `scraper`
/// walks its node tree, which is the order the parser made the nodes in
/// (`None` for an element without it).
pub uninterp spec fn selected_attributes(
    html: Seq<char>,
    selector: Seq<char>,
    attribute: Seq<char>,
) -> Option<Seq<Option<Seq<char>>>>;

/// An optional string, by its characters.
pub open spec fn opt_view(o: Option<String>) -> Option<Seq<char>> {
    match o {
        Some(s) => Some(s@),
        None => None,
    }
}

/// Runs a CSS selector over an HTML document with `scraper`
/// (`Selector::parse`, `Html::parse_document`, `Html::select`, then
/// `Element::attr` on each match) and collects the attribute's values. The
/// result is named by `selected_attributes`. `Selector::parse` fails only on
/// text that is not a CSS selector; the wallpaper selector, a type selector
/// with one class, is one, so for it the result is a list.
#[verifier::external_body]
fn select_attribute(html: &str, selector: &str, attribute: &str) -> (r: Option<Vec<Option<String>>>)
    ensures
        selector@ == wallpaper_selector() ==> r is Some,
        match r {
            Some(v) => selected_attributes(html@, selector@, attribute@) == Some(
                v@.map_values(|o: Option<String>| opt_view(o)),
            ),
            None => selected_attributes(html@, selector@, attribute@) is None,
        },
{
    let selector = match scraper::Selector::parse(selector) {
        Ok(s) => s,
        Err(_) => return None,
    };
    let document = scraper::Html::parse_document(html);
    let mut found = Vec::new();
    for element in document.select(&selector) {
        found.push(element.value().attr(attribute).map(|s| s.to_owned()));
    }
    Some(found)
}

/// The values that are present, in order.
pub open spec fn present_values(s: Seq<Option<Seq<char>>>) -> Seq<Seq<char>>
    decreases s.len(),
{
    if s.len() == 0 {
        Seq::empty()
    } else {
        let rest = present_values(s.drop_last());
        match s.last() {
            Some(v) => rest.push(v),
            None => rest,
        }
    }
}

/// The selector of the wallpaper thumbnails on a search page.
pub open spec fn wallpaper_selector() -> Seq<char> {
    "img.wallpapers__item__img"@
}

/// Keeps the values that are present, in order.
pub fn keep_present(found: Vec<Option<String>>) -> (r: Vec<String>)
    ensures
        r@.map_values(|s: String| s@) == present_values(
            found@.map_values(|o: Option<String>| opt_view(o)),
        ),
{
    let mut r: Vec<String> = Vec::new();
    let mut i: usize = 0;
    while i < found.len()
        invariant
            i <= found@.len(),
            r@.map_values(|s: String| s@) == present_values(
                found@.take(i as int).map_values(|o: Option<String>| opt_view(o)),
            ),
        decreases found@.len() - i,
    {
        proof {
            assert(found@.take(i + 1).map_values(|o: Option<String>| opt_view(o)).drop_last()
                =~= found@.take(i as int).map_values(|o: Option<String>| opt_view(o)));
        }
        match &found[i] {
            Some(s) => {
                r.push(s.clone());
                proof {
                    assert(r@.map_values(|s: String| s@) =~= present_values(
                        found@.take(i as int).map_values(|o: Option<String>| opt_view(o)),
                    ).push(s@));
                }
            },
            None => {},
        }
        i = i + 1;
    }
    proof {
        assert(found@.take(found@.len() as int) =~= found@);
    }
    r
}

/// The addresses of the wallpaper thumbnails on a search page: the `src` of
/// each `img.wallpapers__item__img` element that has one, in the order in
/// which `scraper` walks its parsed node tree.
pub fn extract_urls(data: String) -> (r: Vec<String>)
    ensures
        selected_attributes(data@, wallpaper_selector(), "src"@) matches Some(found) && r@.map_values(
            |s: String| s@,
        ) == present_values(found),
{
    let selector = "img.wallpapers__item__img";
    proof {
        reveal_strlit("img.wallpapers__item__img");
    }
    assert(selector@ == wallpaper_selector());
    match select_attribute(data.as_str(), selector, "src") {
        Some(found) => keep_present(found),
        None => {
            assert(false);
            Vec::new()
        },
    }
}

} // verus!
