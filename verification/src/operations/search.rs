//! Reading a search engine's HTML results page.
//!
//! Each result is a `<li>` of `ul.results-standard` containing an
//! `<a class="title" href="...">` (a direct destination URL) and a
//! `<p class="s">` snippet. The page has no official contract, so the reading
//! is defensive: a result without a usable title or an absolute http(s) URL is
//! skipped.

use vstd::prelude::*;
use crate::error::{joined, WebError};
use crate::text::{starts_with, str_starts_with};

verus! {

/// Upper bound on results returned in one call.
pub const MAX_COUNT: usize = 25;

/// A character with the Unicode `White_Space` property (what
/// `char::is_whitespace` tests).
pub open spec fn is_white_space(c: char) -> bool {
    let u = c as u32;
    ||| 0x9 <= u && u <= 0xd
    ||| u == 0x20
    ||| u == 0x85
    ||| u == 0xa0
    ||| u == 0x1680
    ||| 0x2000 <= u && u <= 0x200a
    ||| u == 0x2028
    ||| u == 0x2029
    ||| u == 0x202f
    ||| u == 0x205f
    ||| u == 0x3000
}

/// Whether `c` has the Unicode `White_Space` property.
pub fn is_white_space_char(c: char) -> (r: bool)
    ensures
        r == is_white_space(c),
{
    let u = c as u32;
    (0x9 <= u && u <= 0xd) || u == 0x20 || u == 0x85 || u == 0xa0 || u == 0x1680 || (0x2000 <= u && u
        <= 0x200a) || u == 0x2028 || u == 0x2029 || u == 0x202f || u == 0x205f || u == 0x3000
}

/// Collapsing whitespace, one character at a time: the text produced so far,
/// and whether a separator is owed before the next word.
pub open spec fn collapse_state(s: Seq<char>) -> (Seq<char>, bool)
    decreases s.len(),
{
    if s.len() == 0 {
        (Seq::empty(), false)
    } else {
        let (out, owed) = collapse_state(s.drop_last());
        let c = s.last();
        if is_white_space(c) {
            (out, out.len() > 0)
        } else if owed {
            (out + seq![' ', c], false)
        } else {
            (out.push(c), false)
        }
    }
}

/// `s` with its runs of whitespace collapsed into single spaces, and no
/// whitespace at either end: its words joined by one space.
pub open spec fn collapsed(s: Seq<char>) -> Seq<char> {
    collapse_state(s).0
}

/// The characters of `s` that are not whitespace, in order.
pub open spec fn non_white(s: Seq<char>) -> Seq<char> {
    s.filter(|c: char| !is_white_space(c))
}

/// `r` has no whitespace at either end, and its only whitespace is single
/// spaces between two other characters.
pub open spec fn is_normal_spacing(r: Seq<char>) -> bool {
    forall|i: int| 0 <= i < r.len() && #[trigger] is_white_space(r[i]) ==> r[i] == ' ' && 0 < i < r.len() - 1
        && !is_white_space(r[i - 1]) && !is_white_space(r[i + 1])
}

proof fn lemma_collapse_state(s: Seq<char>)
    ensures
        is_normal_spacing(collapse_state(s).0),
        collapse_state(s).1 ==> collapse_state(s).0.len() > 0,
        non_white(collapse_state(s).0) == non_white(s),
    decreases s.len(),
{
    if s.len() > 0 {
        let p = s.drop_last();
        let c = s.last();
        lemma_collapse_state(p);
        let (out, owed) = collapse_state(p);
        assert(s =~= p.push(c));
        p.lemma_filter_push(c, |c: char| !is_white_space(c));
        if out.len() > 0 {
            assert(!is_white_space(out[out.len() - 1]));
        }
        if is_white_space(c) {
        } else if owed {
            let r = out + seq![' ', c];
            assert(r =~= out.push(' ').push(c));
            out.lemma_filter_push(' ', |c: char| !is_white_space(c));
            out.push(' ').lemma_filter_push(c, |c: char| !is_white_space(c));
            assert forall|i: int| 0 <= i < r.len() && #[trigger] is_white_space(r[i]) implies r[i] == ' ' && 0 < i < r.len()
                - 1 && !is_white_space(r[i - 1]) && !is_white_space(r[i + 1]) by {
                if i < out.len() {
                    assert(r[i] == out[i]);
                    if i + 1 < out.len() {
                        assert(r[i + 1] == out[i + 1]);
                    }
                    assert(r[i - 1] == out[i - 1]);
                }
            }
        } else {
            let r = out.push(c);
            out.lemma_filter_push(c, |c: char| !is_white_space(c));
            assert forall|i: int| 0 <= i < r.len() && #[trigger] is_white_space(r[i]) implies r[i] == ' ' && 0 < i < r.len()
                - 1 && !is_white_space(r[i - 1]) && !is_white_space(r[i + 1]) by {
                assert(r[i] == out[i]);
                assert(r[i - 1] == out[i - 1]);
                assert(r[i + 1] == out[i + 1]);
            }
        }
    }
}

/// Collapsing whitespace keeps every other character, in order, and leaves
/// only single spaces between words, with none at either end.
pub proof fn law_collapsed_keeps_words_and_normalizes_spacing(s: Seq<char>)
    ensures
        non_white(collapsed(s)) == non_white(s),
        is_normal_spacing(collapsed(s)),
{
    lemma_collapse_state(s);
}

/// Splitting into words, one character at a time: the words found so far, and
/// whether the last character read belongs to the last of them.
pub open spec fn word_state(s: Seq<char>) -> (Seq<Seq<char>>, bool)
    decreases s.len(),
{
    if s.len() == 0 {
        (Seq::empty(), false)
    } else {
        let (ws, in_word) = word_state(s.drop_last());
        let c = s.last();
        if is_white_space(c) {
            (ws, false)
        } else if in_word {
            (ws.update(ws.len() - 1, ws.last().push(c)), true)
        } else {
            (ws.push(seq![c]), true)
        }
    }
}

/// The words of `s`: its maximal runs of characters other than whitespace,
/// in order (what `str::split_whitespace` yields).
pub open spec fn words(s: Seq<char>) -> Seq<Seq<char>> {
    word_state(s).0
}

/// `ws` joined with one space between each two.
pub open spec fn join_words(ws: Seq<Seq<char>>) -> Seq<char>
    decreases ws.len(),
{
    if ws.len() == 0 {
        Seq::empty()
    } else if ws.len() == 1 {
        ws[0]
    } else {
        join_words(ws.drop_last()) + seq![' '] + ws.last()
    }
}

proof fn lemma_collapse_joins_words(s: Seq<char>)
    ensures
        collapse_state(s).0 == join_words(word_state(s).0),
        collapse_state(s).1 == (!word_state(s).1 && word_state(s).0.len() > 0),
        word_state(s).1 ==> word_state(s).0.len() > 0,
        forall|k: int| 0 <= k < word_state(s).0.len() ==> (#[trigger] word_state(s).0[k]).len() > 0,
        forall|k: int, j: int|
            0 <= k < word_state(s).0.len() && 0 <= j < word_state(s).0[k].len() ==> !is_white_space(
                #[trigger] word_state(s).0[k][j],
            ),
    decreases s.len(),
{
    if s.len() > 0 {
        let p = s.drop_last();
        let c = s.last();
        lemma_collapse_joins_words(p);
        let (out, owed) = collapse_state(p);
        let (ws, in_word) = word_state(p);
        if ws.len() > 0 {
            assert(join_words(ws).len() > 0) by {
                if ws.len() >= 2 {
                    assert(join_words(ws) == join_words(ws.drop_last()) + seq![' '] + ws.last());
                }
            }
        }
        if is_white_space(c) {
        } else if in_word {
            let last = ws.last().push(c);
            let nws = ws.update(ws.len() - 1, last);
            if ws.len() >= 2 {
                assert(nws.drop_last() =~= ws.drop_last());
                assert(join_words(nws) =~= out.push(c));
            } else {
                assert(join_words(nws) =~= out.push(c));
            }
            assert forall|k: int, j: int|
                0 <= k < nws.len() && 0 <= j < nws[k].len() implies !is_white_space(#[trigger] nws[k][j]) by {
                if k == nws.len() - 1 && j == nws[k].len() - 1 {
                } else if k == nws.len() - 1 {
                    assert(nws[k][j] == ws[k][j]);
                }
            }
        } else {
            let nws = ws.push(seq![c]);
            if ws.len() > 0 {
                assert(nws.drop_last() =~= ws);
                assert(join_words(nws) =~= out + seq![' ', c]);
            } else {
                assert(join_words(nws) =~= out.push(c));
            }
            assert forall|k: int, j: int|
                0 <= k < nws.len() && 0 <= j < nws[k].len() implies !is_white_space(#[trigger] nws[k][j]) by {
                if k < ws.len() {
                    assert(nws[k] == ws[k]);
                }
            }
        }
    }
}

/// Collapsing whitespace gives the words of the text joined by single spaces;
/// each word is non-empty and holds no whitespace.
pub proof fn law_collapsed_is_words_joined(s: Seq<char>)
    ensures
        collapsed(s) == join_words(words(s)),
        forall|k: int| 0 <= k < words(s).len() ==> (#[trigger] words(s)[k]).len() > 0,
        forall|k: int, j: int|
            0 <= k < words(s).len() && 0 <= j < words(s)[k].len() ==> !is_white_space(#[trigger] words(s)[k][j]),
{
    lemma_collapse_joins_words(s);
}

proof fn lemma_collapse_of_normal_prefix(r: Seq<char>, i: int)
    requires
        is_normal_spacing(r),
        0 <= i <= r.len(),
    ensures
        collapse_state(r.take(i)) == (if i > 0 && is_white_space(r[i - 1]) {
            (r.take(i - 1), true)
        } else {
            (r.take(i), false)
        }),
    decreases i,
{
    if i > 0 {
        lemma_collapse_of_normal_prefix(r, i - 1);
        let c = r[i - 1];
        assert(r.take(i).drop_last() =~= r.take(i - 1));
        assert(r.take(i).last() == c);
        if is_white_space(c) {
            assert(!is_white_space(r[i - 2]));
        } else if i > 1 && is_white_space(r[i - 2]) {
            assert(r[i - 2] == ' ');
            assert(r.take(i - 2) + seq![' ', c] =~= r.take(i));
        } else {
            assert(r.take(i - 1).push(c) =~= r.take(i));
        }
    }
}

/// Collapsing is idempotent: text whose spacing is already normal, such as
/// anything collapsing produced, is left as it is.
pub proof fn law_collapse_idempotent(s: Seq<char>)
    ensures
        collapsed(collapsed(s)) == collapsed(s),
{
    let r = collapsed(s);
    lemma_collapse_state(s);
    lemma_collapse_of_normal_prefix(r, r.len() as int);
    assert(r.take(r.len() as int) =~= r);
    if r.len() > 0 && is_white_space(r[r.len() - 1]) {
        assert(false);
    }
}

/// Collapse runs of whitespace (incl. newlines from the markup) into single
/// spaces and trim.
pub fn collapse_ws(s: &str) -> (r: String)
    ensures
        r@ == collapsed(s@),
{
    let n = s.unicode_len();
    let mut out = String::new();
    let mut owed = false;
    let mut i: usize = 0;
    while i < n
        invariant
            n == s@.len(),
            i <= n,
            (out@, owed) == collapse_state(s@.take(i as int)),
        decreases n - i,
    {
        let c = s.get_char(i);
        assert(s@.take(i + 1).drop_last() =~= s@.take(i as int));
        let ghost prev = out@;
        if is_white_space_char(c) {
            owed = out.unicode_len() > 0;
        } else {
            if owed {
                out.append(" ");
                proof {
                    reveal_strlit(" ");
                }
            }
            out.append(s.substring_char(i, i + 1));
            assert(s@.subrange(i as int, i + 1) =~= seq![c]);
            owed = false;
        }
        assert(out@ =~= collapse_state(s@.take(i + 1)).0);
        i = i + 1;
    }
    assert(s@.take(n as int) =~= s@);
    out
}

/// What the page holds for one result item: the text of its first
/// `a.title` (if it has one), that link's `href`, and the text of its first
/// `p.s`.
#[derive(Debug)]
pub struct ScrapedItem {
    pub title: Option<String>,
    pub href: Option<String>,
    pub snippet: Option<String>,
}

pub open spec fn opt_text(o: Option<String>) -> Option<Seq<char>> {
    match o {
        Some(s) => Some(s@),
        None => None,
    }
}

impl View for ScrapedItem {
    type V = (Option<Seq<char>>, Option<Seq<char>>, Option<Seq<char>>);

    open spec fn view(&self) -> Self::V {
        (opt_text(self.title), opt_text(self.href), opt_text(self.snippet))
    }
}

/// What scraping the HTML text `html` gives: for each element matching
/// `ul.results-standard li`, in document order, the texts of its first
/// `a.title` and that element's `href`, and the text of its first `p.s`.
pub uninterp spec fn scraped_items(html: Seq<char>) -> Seq<(Option<Seq<char>>, Option<Seq<char>>, Option<Seq<char>>)>;

/// Calls `scraper::Html::parse_document(html)` and selects with
/// `ul.results-standard li`, `a.title` and `p.s` (`Selector::parse` of these
/// constant selectors cannot fail), collecting each element's text nodes and
/// the link's `href` attribute. The contract claims only that the items are
/// what [`scraped_items`] names for `html`.
#[verifier::external_body]
fn scrape_result_items(html: &str) -> (r: Vec<ScrapedItem>)
    ensures
        r@.map_values(|i: ScrapedItem| i@) == scraped_items(html@),
{
    let doc = scraper::Html::parse_document(html);
    let sel = |s: &str| scraper::Selector::parse(s).expect("static selector");
    let (item_sel, title_sel, snippet_sel) = (sel("ul.results-standard li"), sel("a.title"), sel("p.s"));
    let first_text = |li: &scraper::ElementRef, s: &scraper::Selector| li.select(s).next().map(|e| e.text().collect::<String>());
    doc.select(&item_sel).map(|li| ScrapedItem {
        title: first_text(&li, &title_sel),
        href: li.select(&title_sel).next().and_then(|a| a.attr("href")).map(String::from),
        snippet: first_text(&li, &snippet_sel),
    }).collect()
}

/// One search result.
#[derive(Debug)]
pub struct SearchResult {
    pub title: String,
    pub url: String,
    pub snippet: Option<String>,
}

impl View for SearchResult {
    type V = (Seq<char>, Seq<char>, Option<Seq<char>>);

    open spec fn view(&self) -> Self::V {
        (self.title@, self.url@, opt_text(self.snippet))
    }
}

/// An absolute http(s) URL.
pub open spec fn is_http_url(u: Seq<char>) -> bool {
    starts_with(u, "http://"@) || starts_with(u, "https://"@)
}

/// The result an item makes, if it makes one: its title collapsed and not
/// empty, its URL absolute http(s), and its snippet collapsed (absent when
/// empty).
pub open spec fn item_result(item: (Option<Seq<char>>, Option<Seq<char>>, Option<Seq<char>>)) -> Option<
    (Seq<char>, Seq<char>, Option<Seq<char>>),
> {
    match item.0 {
        None => None,
        Some(t) => {
            let title = collapsed(t);
            let url = match item.1 { Some(h) => h, None => Seq::empty() };
            if title.len() == 0 || !is_http_url(url) {
                None
            } else {
                let snippet = match item.2 {
                    Some(p) => if collapsed(p).len() == 0 { None } else { Some(collapsed(p)) },
                    None => None,
                };
                Some((title, url, snippet))
            }
        },
    }
}

/// The results that the items make, in order.
pub open spec fn valid_results(items: Seq<(Option<Seq<char>>, Option<Seq<char>>, Option<Seq<char>>)>) -> Seq<
    (Seq<char>, Seq<char>, Option<Seq<char>>),
>
    decreases items.len(),
{
    if items.len() == 0 {
        Seq::empty()
    } else {
        match item_result(items.last()) {
            Some(r) => valid_results(items.drop_last()).push(r),
            None => valid_results(items.drop_last()),
        }
    }
}

/// The first `limit` results of the page (at least one is kept when any
/// exists, even for a limit of 0).
pub open spec fn page_results(html: Seq<char>, limit: nat) -> Seq<(Seq<char>, Seq<char>, Option<Seq<char>>)> {
    limited_results(scraped_items(html), limit)
}

/// The first `limit` results that the items make (at least one is kept when
/// any exists, even for a limit of 0).
pub open spec fn limited_results(
    items: Seq<(Option<Seq<char>>, Option<Seq<char>>, Option<Seq<char>>)>,
    limit: nat,
) -> Seq<(Seq<char>, Seq<char>, Option<Seq<char>>)> {
    let v = valid_results(items);
    let k: nat = if limit == 0 { 1 } else { limit };
    if v.len() <= k { v } else { v.take(k as int) }
}

proof fn lemma_valid_results_wellformed(items: Seq<(Option<Seq<char>>, Option<Seq<char>>, Option<Seq<char>>)>)
    ensures
        forall|i: int| 0 <= i < valid_results(items).len() ==> {
            let r = #[trigger] valid_results(items)[i];
            &&& r.0.len() > 0
            &&& is_http_url(r.1)
            &&& r.2 matches Some(p) ==> p.len() > 0
        },
        valid_results(items).len() <= items.len(),
    decreases items.len(),
{
    if items.len() > 0 {
        lemma_valid_results_wellformed(items.drop_last());
    }
}

/// The results read from a page keep the page's order, number at most the
/// limit (at least one is kept when any exists, even for a limit of 0), and
/// each has a non-empty title, an absolute http(s) URL, and a snippet that is
/// absent rather than empty.
pub proof fn law_page_results_are_valid(html: Seq<char>, limit: nat)
    ensures
        page_results(html, limit).len() <= (if limit == 0 { 1 } else { limit }),
        page_results(html, limit) == valid_results(scraped_items(html)).take(page_results(html, limit).len() as int),
        forall|i: int| 0 <= i < page_results(html, limit).len() ==> {
            let r = #[trigger] page_results(html, limit)[i];
            &&& r.0.len() > 0
            &&& is_http_url(r.1)
            &&& r.2 matches Some(p) ==> p.len() > 0
        },
{
    let v = valid_results(scraped_items(html));
    lemma_valid_results_wellformed(scraped_items(html));
    assert(v.take(v.len() as int) =~= v);
    let r = page_results(html, limit);
    assert forall|i: int| 0 <= i < r.len() implies r[i] == v[i] by {}
}

/// Limiting keeps the first results, as many as the limit allows (one for a
/// limit of 0) and all of them when there are fewer.
pub proof fn law_limited_results_keep_first(
    items: Seq<(Option<Seq<char>>, Option<Seq<char>>, Option<Seq<char>>)>,
    limit: nat,
)
    ensures
        limited_results(items, limit).len() == (if valid_results(items).len() <= (if limit == 0 { 1 } else { limit }) {
            valid_results(items).len()
        } else {
            if limit == 0 { 1 } else { limit }
        }),
        limited_results(items, limit) == valid_results(items).take(limited_results(items, limit).len() as int),
{
    let v = valid_results(items);
    assert(v.take(v.len() as int) =~= v);
}

proof fn lemma_valid_results_prefix(items: Seq<(Option<Seq<char>>, Option<Seq<char>>, Option<Seq<char>>)>, j: int)
    requires
        0 <= j <= items.len(),
    ensures
        valid_results(items.take(j)).len() <= valid_results(items).len(),
        valid_results(items.take(j)) =~= valid_results(items).take(valid_results(items.take(j)).len() as int),
    decreases items.len() - j,
{
    if j < items.len() {
        lemma_valid_results_prefix(items, j + 1);
        assert(items.take(j + 1).drop_last() =~= items.take(j));
    } else {
        assert(items.take(j) =~= items);
    }
}

/// An item makes a result exactly when it has a title that does not collapse
/// to nothing and an href that begins with `http://` or `https://`; the
/// result carries the collapsed title and the href unchanged, and its snippet
/// is the collapsed snippet when that is not empty.
pub proof fn law_item_makes_result(item: (Option<Seq<char>>, Option<Seq<char>>, Option<Seq<char>>))
    ensures
        item_result(item) is Some <==> (item.0 matches Some(t) && collapsed(t).len() > 0 && (item.1 matches Some(h)
            && (starts_with(h, "http://"@) || starts_with(h, "https://"@)))),
        item_result(item) matches Some(r) ==> r.0 == collapsed(item.0->Some_0) && r.1 == item.1->Some_0,
        item_result(item) matches Some(r) ==> (r.2 is Some <==> (item.2 matches Some(q) && collapsed(q).len() > 0)),
        item_result(item) matches Some(r) ==> (r.2 matches Some(p) ==> p == collapsed(item.2->Some_0)),
{
    reveal_strlit("http://");
    reveal_strlit("https://");
    if item.0 is Some && item.1 is None {
        assert(!starts_with(Seq::<char>::empty(), "http://"@));
        assert(!starts_with(Seq::<char>::empty(), "https://"@));
    }
}

/// Every item that makes a result is kept, after the results of the items
/// before it; an item that makes none adds nothing.
pub proof fn law_valid_results_keep_every_result(
    items: Seq<(Option<Seq<char>>, Option<Seq<char>>, Option<Seq<char>>)>,
    item: (Option<Seq<char>>, Option<Seq<char>>, Option<Seq<char>>),
)
    ensures
        item_result(item) matches Some(r) ==> valid_results(items.push(item)) == valid_results(items).push(r),
        item_result(item) is None ==> valid_results(items.push(item)) == valid_results(items),
{
    assert(items.push(item).drop_last() =~= items);
}

/// The result a scraped item makes, if it makes one.
pub fn item_to_result(item: &ScrapedItem) -> (r: Option<SearchResult>)
    ensures
        match item_result(item@) {
            Some(v) => r is Some && r->Some_0@ == v,
            None => r is None,
        },
{
    proof {
        reveal_strlit("http://");
        reveal_strlit("https://");
    }
    let t = match &item.title {
        Some(t) => t,
        None => return None,
    };
    let title = collapse_ws(t.as_str());
    let url = match &item.href {
        Some(h) => h.clone(),
        None => String::new(),
    };
    if title.unicode_len() == 0 || !(str_starts_with(url.as_str(), "http://") || str_starts_with(url.as_str(), "https://")) {
        return None;
    }
    let snippet = match &item.snippet {
        Some(p) => {
            let c = collapse_ws(p.as_str());
            if c.unicode_len() == 0 { None } else { Some(c) }
        },
        None => None,
    };
    Some(SearchResult { title, url, snippet })
}

/// The results that the scraped `items` make, in order, keeping at most
/// `limit` of them (but the first one even for a limit of 0).
pub fn results_from_items(items: &[ScrapedItem], limit: usize) -> (r: Vec<SearchResult>)
    ensures
        r@.map_values(|x: SearchResult| x@) == limited_results(items@.map_values(|i: ScrapedItem| i@), limit as nat),
{
    let ghost iv = items@.map_values(|i: ScrapedItem| i@);
    let ghost k: nat = if limit == 0 { 1 } else { limit as nat };
    let mut out: Vec<SearchResult> = Vec::new();
    let mut i: usize = 0;
    while i < items.len()
        invariant
            i <= items@.len(),
            iv == items@.map_values(|i: ScrapedItem| i@),
            k == (if limit == 0 { 1 } else { limit as nat }),
            out@.map_values(|x: SearchResult| x@) == valid_results(iv.take(i as int)),
            out@.len() < k,
        decreases items@.len() - i,
    {
        assert(iv.take(i + 1).drop_last() =~= iv.take(i as int));
        assert(iv.take(i + 1).last() == items@[i as int]@);
        let ghost before = out@;
        match item_to_result(&items[i]) {
            Some(res) => {
                out.push(res);
                assert(out@ =~= before.push(res));
                assert(out@.map_values(|x: SearchResult| x@) =~= before.map_values(|x: SearchResult| x@).push(res@));
                if out.len() >= limit {
                    proof {
                        lemma_valid_results_prefix(iv, i + 1);
                    }
                    return out;
                }
            },
            None => {},
        }
        assert(out@.map_values(|x: SearchResult| x@) =~= valid_results(iv.take(i + 1)));
        i = i + 1;
    }
    assert(iv.take(items@.len() as int) =~= iv);
    out
}

/// Parse the results page into result objects, keeping at most `limit` of
/// them (but the first one even for a limit of 0).
pub fn parse_results(html: &str, limit: usize) -> (r: Vec<SearchResult>)
    ensures
        r@.map_values(|x: SearchResult| x@) == page_results(html@, limit as nat),
{
    let items = scrape_result_items(html);
    results_from_items(items.as_slice(), limit)
}

/// The outcome of a search once the backend answered: `status_ok` and
/// `status` (its display text) describe the HTTP status, `body` is the page.
/// At most `count` results are returned, with `count` held to 1..=25; a
/// failing status or a page without results is an error.
pub fn finish_search(status_ok: bool, status: &str, body: &str, query: &str, count: usize) -> (r: Result<
    Vec<SearchResult>,
    WebError,
>)
    ensures
        !status_ok ==> r is Err && r->Err_0 is SearchFailed && r->Err_0@.1 == "search backend returned HTTP "@ + status@,
        status_ok ==> {
            let k: nat = if count < 1 { 1 } else if count > MAX_COUNT { MAX_COUNT as nat } else { count as nat };
            let v = page_results(body@, k);
            &&& v.len() == 0 ==> r is Err && r->Err_0 is SearchFailed && r->Err_0@.1 == "no results for query: "@ + query@
            &&& v.len() > 0 ==> r is Ok && r->Ok_0@.map_values(|x: SearchResult| x@) == v
        },
{
    let count = if count < 1 { 1 } else if count > MAX_COUNT { MAX_COUNT } else { count };
    if !status_ok {
        return Err(WebError::SearchFailed(joined("search backend returned HTTP ", status)));
    }
    let results = parse_results(body, count);
    if results.len() == 0 {
        return Err(WebError::SearchFailed(joined("no results for query: ", query)));
    }
    Ok(results)
}

} // verus!
