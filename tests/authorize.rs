use dynbox::authorize::{process_auth_urls, token_in_pairs};
use dynbox::link::{launch_links, AuthUrl};

fn link(s: &str) -> AuthUrl {
    AuthUrl::parse(s).unwrap()
}

fn pair(k: &str, v: &str) -> (String, String) {
    (k.to_string(), v.to_string())
}

/// The store's `token` entry after a call that wrote and flushed successfully.
fn apply(stored: Option<String>, urls: &Vec<AuthUrl>) -> Option<String> {
    match process_auth_urls(urls) {
        Some(t) => Some(t),
        None => stored,
    }
}

#[test]
fn no_authorize_link_writes_nothing() {
    let urls = vec![
        link("https://example.com/?token=x"),
        link("dynbox://other?token=y"),
        link("other://authorize?token=z"),
    ];
    assert_eq!(process_auth_urls(&urls), None);
    assert_eq!(apply(Some("kept".to_string()), &urls), Some("kept".to_string()));
}

#[test]
fn empty_list_writes_nothing() {
    assert_eq!(process_auth_urls(&Vec::new()), None);
}

#[test]
fn only_matching_second_link_is_stored() {
    let urls = vec![link("dynbox://other?token=first"), link("dynbox://authorize?token=second")];
    assert_eq!(process_auth_urls(&urls), Some("second".to_string()));
}

#[test]
fn first_token_occurrence_wins() {
    let urls = vec![link("dynbox://authorize?token=abc&token=xyz")];
    assert_eq!(process_auth_urls(&urls), Some("abc".to_string()));
}

#[test]
fn authorize_link_without_token_key_writes_nothing() {
    let urls = vec![link("dynbox://authorize?foo=1&bar=2")];
    assert_eq!(process_auth_urls(&urls), None);
    let urls = vec![link("dynbox://authorize")];
    assert_eq!(process_auth_urls(&urls), None);
}

#[test]
fn later_call_overwrites_earlier() {
    let first = vec![link("dynbox://authorize?token=T1")];
    let second = vec![link("dynbox://authorize?token=T2")];
    let stored = apply(None, &first);
    assert_eq!(stored, Some("T1".to_string()));
    assert_eq!(apply(stored, &second), Some("T2".to_string()));
}

#[test]
fn first_matching_link_ends_the_scan() {
    let urls = vec![
        link("dynbox://authorize?other=1"),
        link("dynbox://authorize?token=a"),
        link("dynbox://authorize?token=b"),
    ];
    assert_eq!(process_auth_urls(&urls), Some("a".to_string()));
}

#[test]
fn token_value_is_decoded() {
    let urls = vec![link("dynbox://authorize?token=a%20b+c")];
    assert_eq!(process_auth_urls(&urls), Some("a b c".to_string()));
}

#[test]
fn empty_token_value_is_a_token() {
    let urls = vec![link("dynbox://authorize?token=&token=x")];
    assert_eq!(process_auth_urls(&urls), Some(String::new()));
}

#[test]
fn link_parts_come_from_the_url() {
    let l = link("DynBox://authorize?a=1&token=t%21");
    assert_eq!(l.scheme, "dynbox");
    assert_eq!(l.authority, "authorize");
    assert_eq!(l.query_pairs, vec![pair("a", "1"), pair("token", "t!")]);
    assert!(l.is_authorize());
    assert_eq!(l.token(), Some("t!".to_string()));
}

#[test]
fn authority_with_user_is_not_authorize() {
    let l = link("dynbox://me@authorize?token=t");
    assert!(!l.is_authorize());
    assert_eq!(l.token(), None);
}

#[test]
fn hand_built_link() {
    let l = AuthUrl {
        scheme: "dynbox".to_string(),
        authority: "authorize".to_string(),
        query_pairs: vec![pair("x", "1"), pair("token", "tok"), pair("token", "other")],
    };
    assert_eq!(process_auth_urls(&vec![l]), Some("tok".to_string()));
}

#[test]
fn token_in_pairs_cases() {
    assert_eq!(token_in_pairs(&Vec::new()), None);
    assert_eq!(token_in_pairs(&vec![pair("tokens", "a"), pair("Token", "b")]), None);
    assert_eq!(token_in_pairs(&vec![pair("a", "token"), pair("token", "c")]), Some("c".to_string()));
}

#[test]
fn launch_arg_with_app_link() {
    let l = AuthUrl::from_launch_arg("dynbox://authorize?token=T").unwrap();
    assert_eq!(l.scheme, "dynbox");
    assert_eq!(process_auth_urls(&vec![l]), Some("T".to_string()));
}

#[test]
fn launch_arg_other_text_is_ignored() {
    assert!(AuthUrl::from_launch_arg("--flag").is_none());
    assert!(AuthUrl::from_launch_arg("https://dynbox.co").is_none());
    assert!(AuthUrl::from_launch_arg("DYNBOX://authorize?token=T").is_none());
    assert!(AuthUrl::from_launch_arg("").is_none());
}

#[test]
fn launch_arg_that_does_not_parse_is_ignored() {
    assert!(AuthUrl::from_launch_arg("dynbox://[bad").is_none());
}

#[test]
fn parse_rejects_text_that_is_not_a_url() {
    assert!(AuthUrl::parse("no scheme here").is_none());
    assert!(AuthUrl::parse("").is_none());
}

#[test]
fn launch_args_each_carry_their_own_link() {
    let args: Vec<String> = vec![
        "dynbox-app".to_string(),
        "--minimized".to_string(),
        "https://dynbox.co/?token=x".to_string(),
        "dynbox://authorize?token=abc".to_string(),
    ];
    let links = launch_links(&args);
    assert_eq!(links.len(), 1);
    assert_eq!(links[0].scheme, "dynbox");
    assert_eq!(links[0].authority, "authorize");
    assert_eq!(process_auth_urls(&vec![links.into_iter().next().unwrap()]), Some("abc".to_string()));
}

#[test]
fn launch_args_last_token_stays() {
    let args: Vec<String> = vec![
        "dynbox://authorize?token=t1".to_string(),
        "dynbox://[bad".to_string(),
        "dynbox://authorize?token=t2".to_string(),
        "dynbox://settings".to_string(),
    ];
    let links = launch_links(&args);
    assert_eq!(links.len(), 3);
    let mut stored: Option<String> = None;
    for l in links {
        stored = apply(stored, &vec![l]);
    }
    assert_eq!(stored, Some("t2".to_string()));
}
