use web_mcp::operations::browser::{
    assemble_page, chrome_launch_args, is_html_format, navigation_timeout, profile_dir_name, redirect_to_recheck,
    truncate, PageLink,
};
use web_mcp::url_guard::{GuardVerdict, UrlGuard};
use web_mcp::web_url::WebUrl;

const AUTOMATION_FLAG: &str = "--disable-blink-features=AutomationControlled";

#[test]
fn truncate_respects_char_boundaries() {
    let (t, cut) = truncate("héllo wörld".to_string(), 5);
    assert!(cut);
    assert_eq!(t, "héllo");
}

#[test]
fn truncate_zero_is_unlimited() {
    let (t, cut) = truncate("abc".to_string(), 0);
    assert!(!cut);
    assert_eq!(t, "abc");
}

#[test]
fn truncate_shorter_than_limit_is_untouched() {
    let (t, cut) = truncate("abc".to_string(), 100);
    assert!(!cut);
    assert_eq!(t, "abc");
}

#[test]
fn truncate_exactly_at_limit_is_untouched() {
    let (t, cut) = truncate("abc".to_string(), 3);
    assert!(!cut);
    assert_eq!(t, "abc");
    let (t, cut) = truncate("abcd".to_string(), 3);
    assert!(cut);
    assert_eq!(t, "abc");
}

#[test]
fn truncating_again_changes_nothing() {
    let (t, _) = truncate("wörld wide web".to_string(), 7);
    let (t2, cut2) = truncate(t.clone(), 7);
    assert_eq!(t, t2);
    assert!(!cut2);
}

#[test]
fn launch_args_always_disable_automation_control() {
    // The flag that stops Chrome advertising navigator.webdriver is applied
    // even with no operator args.
    let args = chrome_launch_args(&[]);
    assert_eq!(args, vec![AUTOMATION_FLAG.to_string()]);
}

#[test]
fn launch_args_prepend_defaults_before_user_args() {
    let user = vec!["--no-sandbox".to_string(), "--disable-dev-shm-usage".to_string()];
    let args = chrome_launch_args(&user);
    assert!(args.contains(&AUTOMATION_FLAG.to_string()), "anti-automation flag is present");
    assert!(args.contains(&"--no-sandbox".to_string()), "operator container flags are preserved");
    let auto = args.iter().position(|a| a == AUTOMATION_FLAG).unwrap();
    let sandbox = args.iter().position(|a| a == "--no-sandbox").unwrap();
    assert!(auto < sandbox, "defaults come before operator args");
}

#[test]
fn launch_args_keep_operator_order() {
    let user = vec!["--a".to_string(), "--b".to_string(), "--a".to_string()];
    let args = chrome_launch_args(&user);
    assert_eq!(args, vec![AUTOMATION_FLAG.to_string(), "--a".to_string(), "--b".to_string(), "--a".to_string()]);
}

#[test]
fn profile_dir_is_unique_per_launch() {
    assert_eq!(profile_dir_name(4242, 0), "web-mcp-chrome-4242-0");
    assert_eq!(profile_dir_name(7, 1234567890123), "web-mcp-chrome-7-1234567890123");
    assert_ne!(profile_dir_name(1, 2), profile_dir_name(1, 3));
}

#[test]
fn html_format_ignores_ascii_case() {
    assert!(is_html_format("html"));
    assert!(is_html_format("HTML"));
    assert!(is_html_format("HtMl"));
    assert!(!is_html_format("text"));
    assert!(!is_html_format("htm"));
    assert!(!is_html_format("html "));
    assert!(!is_html_format(""));
}

fn allowed_url(raw: &str) -> WebUrl {
    match UrlGuard::new(true).check(raw) {
        Ok(GuardVerdict::Allowed(u)) => u,
        other => panic!("expected an allowed URL, got {other:?}"),
    }
}

#[test]
fn redirect_is_rechecked_only_when_the_url_changed() {
    let url = allowed_url("https://example.com/");
    assert_eq!(redirect_to_recheck(Some("https://example.com/".to_string()), &url), None);
    assert_eq!(redirect_to_recheck(None, &url), None);
    assert_eq!(
        redirect_to_recheck(Some("http://169.254.169.254/latest".to_string()), &url),
        Some("http://169.254.169.254/latest".to_string())
    );
}

#[test]
fn navigation_timeout_names_url_and_budget() {
    let url = allowed_url("https://example.com/page");
    let e = navigation_timeout(&url, 30000);
    assert_eq!(
        e.message(),
        "Timed out: navigation to https://example.com/page exceeded 30000 ms"
    );
}

#[test]
fn assembled_page_uses_landed_url_and_truncates() {
    let url = allowed_url("https://example.com/");
    let links = vec![PageLink { href: "https://www.iana.org/domains/example".to_string(), text: "Learn more".to_string() }];
    let page = assemble_page(
        &url,
        Some("https://example.com/final".to_string()),
        Some("Example Domain".to_string()),
        false,
        "Example Domain body".to_string(),
        7,
        true,
        links,
    );
    assert_eq!(page.url, "https://example.com/final");
    assert_eq!(page.title, "Example Domain");
    assert_eq!(page.format, "text");
    assert_eq!(page.content, "Example");
    assert!(page.truncated);
    assert_eq!(page.links.as_ref().unwrap()[0].text, "Learn more");
}

#[test]
fn assembled_page_defaults_url_and_title() {
    let url = allowed_url("https://example.com/");
    let page = assemble_page(&url, None, None, true, "<html></html>".to_string(), 0, false, vec![]);
    assert_eq!(page.url, "https://example.com/");
    assert_eq!(page.title, "");
    assert_eq!(page.format, "html");
    assert_eq!(page.content, "<html></html>");
    assert!(!page.truncated);
    assert!(page.links.is_none());
}

#[test]
fn asked_for_links_are_present_even_when_none_were_found() {
    let url = allowed_url("https://example.com/");
    let page = assemble_page(&url, None, None, false, "x".to_string(), 0, true, vec![]);
    assert_eq!(page.links.map(|l| l.len()), Some(0));
}
