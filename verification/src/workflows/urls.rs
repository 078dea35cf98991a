//! Finding the URLs in a text.

use vstd::prelude::*;
use vstd::string::*;
use std::str::FromStr;
use linkify::{LinkFinder, LinkKind};
use url::Url;
use crate::primitives::exact_string::with_added;
use crate::requests::stop_sequence::opt_view;
use crate::text::{contains_string, views};

verus! {

/// The links with a scheme that `linkify` finds in a text, in the order
/// in which they stand there.
pub uninterp spec fn linkify_urls(text: Seq<char>) -> Seq<Seq<char>>;

/// The serialization of the URL that the `url` crate parses a text to, or
/// `None` where it refuses the text.
pub uninterp spec fn url_serialization(text: Seq<char>) -> Option<Seq<char>>;

/// `LinkFinder::links` of linkify, restricted to links of kind `Url`; each
/// link is handed out as the text that `Link::as_str` gives.
#[verifier::external_body]
fn find_links(input: &str) -> (links: Vec<String>)
    ensures
        views(links@) == linkify_urls(input@),
{
    LinkFinder::new().kinds(&[LinkKind::Url]).links(input).map(
        |link| link.as_str().to_owned(),
    ).collect()
}

/// `Url::from_str` of the url crate; a URL is handed out as the text that
/// `Url::as_str` gives, a refusal as `None`.
#[verifier::external_body]
fn parse_url(link: &str) -> (url: Option<String>)
    ensures
        opt_view(url) == url_serialization(link@),
{
    match Url::from_str(link) {
        Ok(url) => Some(url.as_str().to_owned()),
        Err(_) => None,
    }
}

/// The texts that are there, in order.
pub open spec fn present(items: Seq<Option<Seq<char>>>) -> Seq<Seq<char>>
    decreases items.len(),
{
    if items.len() == 0 {
        Seq::empty()
    } else {
        match items.last() {
            Some(text) => present(items.drop_last()).push(text),
            None => present(items.drop_last()),
        }
    }
}

/// `urls` in order, each only where it occurs first.
pub open spec fn unique(urls: Seq<Seq<char>>) -> Seq<Seq<char>> {
    with_added(Seq::empty(), urls)
}

/// The views of optional strings.
pub open spec fn opt_views(items: Seq<Option<String>>) -> Seq<Option<Seq<char>>> {
    items.map_values(|item: Option<String>| opt_view(item))
}

/// Keeps the URLs that parsed, each once, in the order of their first occurrence.
pub fn collect_unique(parsed: Vec<Option<String>>) -> (urls: Vec<String>)
    ensures
        views(urls@) == unique(present(opt_views(parsed@))),
        views(urls@).no_duplicates(),
{
    let mut urls: Vec<String> = Vec::new();
    let mut i: usize = 0;
    assert(views(urls@) =~= Seq::empty());
    assert(opt_views(parsed@).take(0) =~= Seq::empty());
    while i < parsed.len()
        invariant
            i <= parsed.len(),
            views(urls@) == unique(present(opt_views(parsed@).take(i as int))),
            views(urls@).no_duplicates(),
        decreases parsed.len() - i,
    {
        let ghost before = views(urls@);
        proof {
            let now = opt_views(parsed@).take(i + 1);
            assert(now.drop_last() =~= opt_views(parsed@).take(i as int));
            assert(now.last() == opt_view(parsed@[i as int]));
            if now.last() is Some {
                assert(present(now).drop_last() =~= present(now.drop_last()));
            }
        }
        if let Some(url) = &parsed[i] {
            if !contains_string(&urls, url.as_str()) {
                urls.push(url.clone());
                assert(views(urls@) =~= before.push(url@));
            }
        }
        i += 1;
    }
    assert(opt_views(parsed@).take(i as int) =~= opt_views(parsed@));
    urls
}

/// The URLs that the links stand for, where they stand for one.
pub open spec fn serializations(links: Seq<Seq<char>>) -> Seq<Option<Seq<char>>> {
    links.map_values(|link: Seq<char>| url_serialization(link))
}

/// The URLs in a text: every link that parses as a URL, in its
/// serialized form, each once, in the order of first occurrence.
pub fn extract_urls(input: &str) -> (urls: Vec<String>)
    ensures
        views(urls@) == unique(present(serializations(linkify_urls(input@)))),
        views(urls@).no_duplicates(),
{
    let links = find_links(input);
    let mut parsed: Vec<Option<String>> = Vec::new();
    let mut i: usize = 0;
    assert(opt_views(parsed@) =~= serializations(views(links@)).take(0));
    while i < links.len()
        invariant
            i <= links.len(),
            opt_views(parsed@) == serializations(views(links@)).take(i as int),
        decreases links.len() - i,
    {
        let ghost before = opt_views(parsed@);
        let url = parse_url(links[i].as_str());
        parsed.push(url);
        assert(opt_views(parsed@) =~= before.push(url_serialization(links@[i as int]@)));
        assert(opt_views(parsed@) =~= serializations(views(links@)).take(i + 1));
        i += 1;
    }
    assert(serializations(views(links@)).take(i as int) =~= serializations(views(links@)));
    collect_unique(parsed)
}

} // verus!
