use vstd::prelude::*;
use crate::text::{has_prefix, starts_with};

verus! {

/// The part of a deep link after `midday://`, with its leading slashes
/// removed.
pub open spec fn strip_leading_slashes(s: Seq<char>) -> Seq<char>
    decreases s.len(),
{
    if s.len() > 0 && s[0] == '/' {
        strip_leading_slashes(s.drop_first())
    } else {
        s
    }
}

/// The in-app path that a deep link asks for, or none when `url` does not use
/// this application's scheme. An empty path means the application's root.
pub open spec fn deep_link_target(url: Seq<char>) -> Option<Seq<char>> {
    if has_prefix(url, "midday://"@) {
        Some(strip_leading_slashes(url.subrange("midday://"@.len() as int, url.len() as int)))
    } else {
        None
    }
}

/// The paths to navigate to for a batch of delivered URLs, in order; URLs of
/// other schemes are skipped.
pub open spec fn routed_paths(urls: Seq<String>) -> Seq<Seq<char>>
    decreases urls.len(),
{
    if urls.len() == 0 {
        Seq::empty()
    } else {
        let earlier = routed_paths(urls.drop_last());
        match deep_link_target(urls.last()@) {
            Some(p) => earlier.push(p),
            None => earlier,
        }
    }
}

pub open spec fn views_of(v: Seq<String>) -> Seq<Seq<char>> {
    v.map_values(|s: String| s@)
}

/// The in-app path that the deep link `url` asks for; `None` when it does not
/// start with `midday://`. The path is passed on verbatim: the hosted
/// application decides what it means.
pub fn deep_link_path(url: &str) -> (r: Option<String>)
    ensures
        r is None <==> deep_link_target(url@) is None,
        r matches Some(p) ==> deep_link_target(url@) == Some(p@),
{
    if !starts_with(url, "midday://") {
        return None;
    }
    proof {
        reveal_strlit("midday://");
    }
    let n = url.unicode_len();
    let mut i: usize = 9;
    while i < n && url.get_char(i) == '/'
        invariant
            9 <= i <= n,
            n == url@.len(),
            strip_leading_slashes(url@.subrange(9, n as int)) == strip_leading_slashes(
                url@.subrange(i as int, n as int),
            ),
        decreases n - i,
    {
        assert(url@.subrange(i as int, n as int).drop_first() =~= url@.subrange(
            i as int + 1,
            n as int,
        ));
        i = i + 1;
    }
    let path = url.substring_char(i, n);
    Some(path.to_owned())
}

/// The navigation paths for a batch of delivered deep links, in delivery
/// order. Each one is sent to the main window, which is then shown and
/// focused.
pub fn route_deep_links(urls: &Vec<String>) -> (r: Vec<String>)
    ensures
        views_of(r@) == routed_paths(urls@),
{
    let mut r: Vec<String> = Vec::new();
    let mut i: usize = 0;
    while i < urls.len()
        invariant
            i <= urls@.len(),
            views_of(r@) == routed_paths(urls@.subrange(0, i as int)),
        decreases urls@.len() - i,
    {
        let ghost before = r@;
        assert(urls@.subrange(0, i as int + 1).drop_last() =~= urls@.subrange(0, i as int));
        match deep_link_path(urls[i].as_str()) {
            Some(p) => {
                r.push(p);
                assert(views_of(r@) =~= views_of(before).push(r@.last()@));
            },
            None => {},
        }
        i = i + 1;
    }
    assert(urls@.subrange(0, urls@.len() as int) =~= urls@);
    r
}

} // verus!
