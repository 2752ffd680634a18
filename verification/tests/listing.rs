use gstm::{description_limit, listing_line, owner_name, summarizable, summarize, File, Gist, User};
use std::collections::HashMap;

fn gist(description: Option<&str>, owner: Option<User>) -> Gist {
    Gist {
        url: Some(String::from("https://api.github.com/gists/abc123")),
        html_url: Some(String::from("https://gist.github.com/abc123")),
        id: Some(String::from("abc123")),
        description: description.map(String::from),
        public: true,
        created_at: Some(String::from("2020-04-01T12:00:00Z")),
        owner,
        files: HashMap::new(),
    }
}

#[test]
fn limit_is_a_third_of_the_columns() {
    assert_eq!(description_limit(Some((120, 40))), 40);
    assert_eq!(description_limit(Some((80, 24))), 26);
    assert_eq!(description_limit(Some((2, 1))), 0);
    assert_eq!(description_limit(None), 40);
}

#[test]
fn short_description_is_shown_whole_on_one_line() {
    assert_eq!(summarize("plain", 40), "plain");
    assert_eq!(summarize("two\nlines\n", 40), "two lines ");
    assert_eq!(summarize("", 0), "");
    assert_eq!(summarize("exactly", 7), "exactly");
}

#[test]
fn long_description_is_cut_and_dotted() {
    assert_eq!(summarize("exactly!", 7), "exactly...");
    assert_eq!(summarize("a\nb\nc\nd", 3), "a b...");
    assert_eq!(summarize("anything", 0), "...");
}

#[test]
fn cut_counts_bytes() {
    let text = "\u{e9}\u{e9}\u{e9}";
    assert!(summarizable(text, 6));
    assert_eq!(summarize(text, 6), text);
    assert!(summarizable(text, 4));
    assert_eq!(summarize(text, 4), "\u{e9}\u{e9}...");
    assert!(!summarizable(text, 3));
    assert!(!summarizable(text, 5));
    assert!(summarizable(text, 0));
    assert!(summarizable("plain ascii", 3));
}

#[test]
fn owner_name_is_empty_without_owner_or_login() {
    assert_eq!(owner_name(&gist(None, None)), "");
    assert_eq!(owner_name(&gist(None, Some(User { login: None }))), "");
    assert_eq!(owner_name(&gist(None, Some(User { login: Some(String::from("alice")) }))), "alice");
}

#[test]
fn line_joins_the_four_parts() {
    let g = gist(Some("my\nnotes"), Some(User { login: Some(String::from("alice")) }));
    assert_eq!(listing_line(&g, 40), "2020-04-01T12:00:00Z alice abc123 my notes");
    assert_eq!(listing_line(&g, 2), "2020-04-01T12:00:00Z alice abc123 my...");
}

#[test]
fn line_shows_nothing_for_what_is_absent() {
    let anonymous = gist(None, None);
    assert!(anonymous.owner.is_none());
    assert_eq!(listing_line(&anonymous, 40), "2020-04-01T12:00:00Z  abc123 ");
    let bare = Gist {
        url: None,
        html_url: None,
        id: None,
        description: None,
        public: false,
        created_at: None,
        owner: None,
        files: HashMap::new(),
    };
    assert_eq!(listing_line(&bare, 40), "   ");
}

#[test]
fn collection_keeps_its_files_by_name() {
    let mut g = gist(Some("d"), None);
    g.files.insert(
        String::from("a.txt"),
        File {
            raw_url: None,
            filename: Some(String::from("a.txt")),
            language: Some(String::from("Text")),
            content: Some(String::from("hello")),
            size: 5,
            truncated: Some(false),
        },
    );
    assert_eq!(g.files.len(), 1);
    assert_eq!(g.files["a.txt"].content.as_deref(), Some("hello"));
    assert_eq!(g.files["a.txt"].size, 5);
    assert_eq!(listing_line(&g, 40), "2020-04-01T12:00:00Z  abc123 d");
}
