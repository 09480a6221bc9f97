//! The decisions around headless-Chrome browsing: Chrome's argument list, the
//! per-launch profile directory name, when a landed-on URL must be re-checked
//! by the guard, the navigation-timeout error, and how a read page is shaped
//! (format, truncation, links).

use vstd::prelude::*;
use crate::error::{joined, WebError};
use crate::text::{decimal, decimal_string, lemma_decimal_digits, lemma_decimal_injective, eq_ignore_ascii_case, matches_ignore_ascii_case_at, str_equals};
use crate::web_url::WebUrl;

verus! {

/// The flag that stops Chrome advertising `navigator.webdriver`; it blunts the
/// automation fingerprint that trips false-positive bot challenges. It is not
/// an attempt to defeat TLS or behavioural fingerprinting.
pub const AUTOMATION_CONTROL_FLAG: &'static str = "--disable-blink-features=AutomationControlled";

/// JS that collects every absolute http(s) link with its visible text.
pub const LINKS_JS: &'static str = "Array.from(document.querySelectorAll('a[href]')).map(a => ({ href: a.href, text: (a.innerText || '').trim() })).filter(l => l.href.startsWith('http'))";

/// JS that returns the page's rendered, human-visible text.
pub const INNER_TEXT_JS: &'static str = "document.body ? document.body.innerText : ''";

/// The texts of a sequence of strings.
pub open spec fn texts(v: Seq<String>) -> Seq<Seq<char>> {
    v.map_values(|s: String| s@)
}

/// The flags always applied to a launch, before the operator's own.
pub open spec fn anti_automation_args() -> Seq<Seq<char>> {
    seq![AUTOMATION_CONTROL_FLAG@]
}

/// The full Chrome argument list for a launch: the always-on anti-automation
/// flags first, then the operator's configured `chrome_args` (so config can add
/// container flags like `--no-sandbox` or override behaviour).
pub fn chrome_launch_args(user_args: &[String]) -> (r: Vec<String>)
    ensures
        texts(r@) == anti_automation_args() + texts(user_args@),
{
    let mut r: Vec<String> = Vec::new();
    r.push(String::from_str(AUTOMATION_CONTROL_FLAG));
    let mut i: usize = 0;
    while i < user_args.len()
        invariant
            i <= user_args@.len(),
            texts(r@) == anti_automation_args() + texts(user_args@.take(i as int)),
        decreases user_args@.len() - i,
    {
        let ghost before = r@;
        r.push(user_args[i].clone());
        assert(user_args@.take(i + 1) =~= user_args@.take(i as int).push(user_args@[i as int]));
        assert(r@ =~= before.push(user_args@[i as int]));
        assert(texts(r@) =~= texts(before).push(user_args@[i as int]@));
        assert(texts(user_args@.take(i + 1)) =~= texts(user_args@.take(i as int)).push(user_args@[i as int]@));
        assert(texts(r@) =~= anti_automation_args() + texts(user_args@.take(i + 1)));
        i = i + 1;
    }
    assert(user_args@.take(user_args@.len() as int) =~= user_args@);
    r
}

/// The name of the Chrome profile directory of a launch.
pub open spec fn profile_dir_text(pid: nat, seq: nat) -> Seq<char> {
    "web-mcp-chrome-"@ + decimal(pid) + "-"@ + decimal(seq)
}

/// Two launches get the same profile directory only if they are the same
/// launch of the same process: a process never shares its profile with another
/// launch.
pub proof fn law_profile_dirs_are_distinct(pid1: nat, seq1: nat, pid2: nat, seq2: nat)
    requires
        profile_dir_text(pid1, seq1) == profile_dir_text(pid2, seq2),
    ensures
        pid1 == pid2,
        seq1 == seq2,
{
    reveal_strlit("-");
    let p = "web-mcp-chrome-"@;
    let x = decimal(pid1) + "-"@ + decimal(seq1);
    let y = decimal(pid2) + "-"@ + decimal(seq2);
    assert(profile_dir_text(pid1, seq1) =~= p + x);
    assert(profile_dir_text(pid2, seq2) =~= p + y);
    assert(x =~= (p + x).skip(p.len() as int));
    assert(y =~= (p + y).skip(p.len() as int));
    lemma_decimal_digits(pid1);
    lemma_decimal_digits(pid2);
    let k1 = decimal(pid1).len();
    let k2 = decimal(pid2).len();
    if k1 < k2 {
        assert(x[k1 as int] == '-');
        assert(y[k1 as int] == decimal(pid2)[k1 as int]);
        assert(false);
    } else if k2 < k1 {
        assert(y[k2 as int] == '-');
        assert(x[k2 as int] == decimal(pid1)[k2 as int]);
        assert(false);
    }
    assert(decimal(pid1) =~= x.take(k1 as int));
    assert(decimal(pid2) =~= y.take(k2 as int));
    lemma_decimal_injective(pid1, pid2);
    assert(decimal(seq1) =~= x.skip((k1 + 1) as int));
    assert(decimal(seq2) =~= y.skip((k2 + 1) as int));
    lemma_decimal_injective(seq1, seq2);
}

/// The name of the Chrome profile directory for launch number `seq` of the
/// process `pid`: unique per launch, so that no two Chrome instances share
/// (and lock) one profile.
pub fn profile_dir_name(pid: u32, seq: u64) -> (r: String)
    ensures
        r@ == profile_dir_text(pid as nat, seq as nat),
{
    let mut r = String::from_str("web-mcp-chrome-");
    r.append(decimal_string(pid as u64).as_str());
    r.append("-");
    r.append(decimal_string(seq).as_str());
    r
}

/// The text `s` cut to its first `max_chars` characters (0 = no limit), and
/// whether anything was cut.
pub open spec fn truncated_text(s: Seq<char>, max_chars: nat) -> (Seq<char>, bool) {
    if max_chars == 0 || s.len() <= max_chars {
        (s, false)
    } else {
        (s.take(max_chars as int), true)
    }
}

/// A truncated text is a prefix of the original, of at most `max_chars`
/// characters when there is a limit; it is flagged exactly when characters
/// were dropped; it keeps as many characters as the limit allows (all of
/// them when the limit is 0, meaning no limit); and cutting it again to the
/// same limit changes nothing.
pub proof fn law_truncation_is_flagged_prefix(s: Seq<char>, max_chars: nat)
    ensures
        truncated_text(s, max_chars).0 == s.take(truncated_text(s, max_chars).0.len() as int),
        truncated_text(s, max_chars).0.len() <= s.len(),
        max_chars > 0 ==> truncated_text(s, max_chars).0.len() <= max_chars,
        truncated_text(s, max_chars).1 <==> truncated_text(s, max_chars).0.len() < s.len(),
        truncated_text(truncated_text(s, max_chars).0, max_chars) == (truncated_text(s, max_chars).0, false),
        max_chars == 0 ==> truncated_text(s, max_chars) == (s, false),
        max_chars > 0 ==> truncated_text(s, max_chars).0.len() == (if s.len() <= max_chars { s.len() } else { max_chars }),
{
    assert(s.take(s.len() as int) =~= s);
}

/// Truncate `s` to at most `max_chars` characters (0 = unlimited). Returns the
/// possibly-truncated string and whether truncation happened.
pub fn truncate(s: String, max_chars: usize) -> (r: (String, bool))
    ensures
        (r.0@, r.1) == truncated_text(s@, max_chars as nat),
{
    if max_chars == 0 {
        return (s, false);
    }
    let n = s.unicode_len();
    if n <= max_chars {
        return (s, false);
    }
    let kept = String::from_str(s.as_str().substring_char(0, max_chars));
    assert(kept@ =~= s@.take(max_chars as int));
    (kept, true)
}

/// Whether the requested `format` selects the full serialized DOM: it is
/// `html`, ASCII case ignored. Any other format reads the rendered text.
pub fn is_html_format(format: &str) -> (r: bool)
    ensures
        r == eq_ignore_ascii_case(format@, "html"@),
{
    proof {
        reveal_strlit("html");
    }
    let n = format.unicode_len();
    if n != 4 {
        return false;
    }
    let r = matches_ignore_ascii_case_at(format, 0, "html");
    assert(format@.subrange(0, 4) =~= format@);
    r
}

/// The URL a navigation landed on, when it must be re-checked by the guard:
/// Chrome follows redirects (and resolves names) on its own, so a landed-on
/// URL that differs from the requested one is vetted again.
pub fn redirect_to_recheck(landed: Option<String>, requested: &WebUrl) -> (r: Option<String>)
    ensures
        r is Some <==> (landed is Some && landed->Some_0@ != requested.serialization@),
        r is Some ==> r->Some_0@ == landed->Some_0@,
{
    match landed {
        Some(f) => {
            if str_equals(f.as_str(), requested.as_str()) {
                None
            } else {
                Some(f)
            }
        },
        None => None,
    }
}

/// The error of a navigation to `url` that exceeded `nav_timeout_ms`.
pub fn navigation_timeout(url: &WebUrl, nav_timeout_ms: u64) -> (e: WebError)
    ensures
        e is Timeout,
        e@.1 == "navigation to "@ + url.serialization@ + " exceeded "@ + decimal(nav_timeout_ms as nat) + " ms"@,
{
    let mut m = joined("navigation to ", url.as_str());
    m.append(" exceeded ");
    m.append(decimal_string(nav_timeout_ms).as_str());
    m.append(" ms");
    WebError::Timeout(m)
}

/// One outbound link of a page.
#[derive(Debug, Clone)]
pub struct PageLink {
    pub href: String,
    pub text: String,
}

/// What `web_read` returns for a page.
#[derive(Debug)]
pub struct PageContent {
    /// The final URL, after any redirects.
    pub url: String,
    pub title: String,
    /// `"html"` or `"text"`.
    pub format: String,
    pub content: String,
    /// Whether `content` was cut at the requested number of characters.
    pub truncated: bool,
    /// Present only when links were asked for.
    pub links: Option<Vec<PageLink>>,
}

/// Shape what was read from a page into its [`PageContent`]: the landed-on
/// URL (or the requested one if the browser reports none), the title (empty
/// if none), the format label, the content cut to `max_chars`, and the links,
/// present exactly when they were asked for.
pub fn assemble_page(
    requested: &WebUrl,
    landed: Option<String>,
    title: Option<String>,
    is_html: bool,
    raw: String,
    max_chars: usize,
    include_links: bool,
    links: Vec<PageLink>,
) -> (p: PageContent)
    ensures
        p.url@ == (match landed { Some(f) => f@, None => requested.serialization@ }),
        p.title@ == (match title { Some(t) => t@, None => Seq::<char>::empty() }),
        p.format@ == (if is_html { "html"@ } else { "text"@ }),
        (p.content@, p.truncated) == truncated_text(raw@, max_chars as nat),
        p.links is Some <==> include_links,
        include_links ==> p.links == Some(links),
{
    let (content, truncated) = truncate(raw, max_chars);
    let url = match landed {
        Some(f) => f,
        None => requested.serialization.clone(),
    };
    let title = match title {
        Some(t) => t,
        None => String::new(),
    };
    PageContent {
        url,
        title,
        format: String::from_str(if is_html { "html" } else { "text" }),
        content,
        truncated,
        links: if include_links { Some(links) } else { None },
    }
}

} // verus!
