use shorturl::handlers::{invalid_url_message, redirect, root, shorten, url_accepted};
use shorturl::handlers::{RedirectOutcome, ShortenOutcome};
use shorturl::store::Store;

#[test]
fn root_returns_greeting() {
    let (status, body) = root();
    assert_eq!(status, 200);
    assert_eq!(body, "Hello, World!");
}

#[test]
fn root_is_independent_of_store_state() {
    let mut store = Store::new();
    let before = root();
    shorten(&mut store, String::from("https://example.com/page"));
    let after = root();
    assert_eq!(before, (200, "Hello, World!"));
    assert_eq!(after, (200, "Hello, World!"));
}

#[test]
fn shorten_accepts_http_url() {
    let mut store = Store::new();
    let outcome = shorten(&mut store, String::from("https://example.com/page"));
    assert_eq!(outcome.status(), 200);
    match outcome {
        ShortenOutcome::Accepted { original_url, short_id } => {
            assert_eq!(original_url, "https://example.com/page");
            assert_eq!(short_id, 0);
        }
        ShortenOutcome::Rejected => panic!("a URL with the http prefix must be accepted"),
    }
    assert_eq!(store.len(), 1);
}

#[test]
fn shorten_assigns_sequential_ids() {
    let mut store = Store::new();
    let urls = [
        "http://one.example/",
        "https://two.example/a",
        "http://three.example/b/c",
        "https://four.example/?q=1",
    ];
    for (expected, url) in urls.iter().enumerate() {
        match shorten(&mut store, String::from(*url)) {
            ShortenOutcome::Accepted { short_id, .. } => {
                assert_eq!(short_id as usize, expected);
            }
            ShortenOutcome::Rejected => panic!("accepted URL was rejected"),
        }
    }
    assert_eq!(store.len(), urls.len());
}

#[test]
fn shorten_rejects_without_http_prefix() {
    let mut store = Store::new();
    let outcome = shorten(&mut store, String::from("not-a-url"));
    assert_eq!(outcome.status(), 200);
    assert!(matches!(outcome, ShortenOutcome::Rejected));
    assert_eq!(store.len(), 0);
    assert_eq!(invalid_url_message(), "invalid url");
}

#[test]
fn rejection_leaves_existing_entries_alone() {
    let mut store = Store::new();
    shorten(&mut store, String::from("http://kept.example/"));
    shorten(&mut store, String::from("ftp://rejected.example/"));
    assert_eq!(store.len(), 1);
    match redirect(&store, 0) {
        RedirectOutcome::Found { location } => assert_eq!(location, "http://kept.example/"),
        RedirectOutcome::NotFound => panic!("entry 0 must still be present"),
    }
}

#[test]
fn redirect_round_trip() {
    let mut store = Store::new();
    let url = "https://example.com/some/long/path?x=1&y=2";
    let id = match shorten(&mut store, String::from(url)) {
        ShortenOutcome::Accepted { short_id, .. } => short_id,
        ShortenOutcome::Rejected => panic!("accepted URL was rejected"),
    };
    let outcome = redirect(&store, id);
    assert_eq!(outcome.status(), 302);
    match outcome {
        RedirectOutcome::Found { location } => assert_eq!(location, url),
        RedirectOutcome::NotFound => panic!("a freshly assigned id must be found"),
    }
}

#[test]
fn redirect_unknown_id_is_not_found() {
    let store = Store::new();
    let outcome = redirect(&store, 0);
    assert_eq!(outcome.status(), 404);
    assert!(matches!(outcome, RedirectOutcome::NotFound));
}

#[test]
fn redirect_past_the_end_is_not_found() {
    let mut store = Store::new();
    shorten(&mut store, String::from("http://a.example/"));
    shorten(&mut store, String::from("http://b.example/"));
    let outcome = redirect(&store, 5);
    assert_eq!(outcome.status(), 404);
    assert!(matches!(outcome, RedirectOutcome::NotFound));
}

#[test]
fn distinct_urls_get_distinct_dense_ids() {
    let mut store = Store::new();
    let count: u32 = 8;
    for i in 0..count {
        let url = format!("https://example.com/page/{}", i);
        match shorten(&mut store, url) {
            ShortenOutcome::Accepted { short_id, .. } => assert_eq!(short_id, i),
            ShortenOutcome::Rejected => panic!("accepted URL was rejected"),
        }
    }
    assert_eq!(store.len(), count as usize);
    for i in 0..count {
        match redirect(&store, i) {
            RedirectOutcome::Found { location } => {
                assert_eq!(location, format!("https://example.com/page/{}", i));
            }
            RedirectOutcome::NotFound => panic!("every assigned id must resolve"),
        }
    }
    assert!(matches!(redirect(&store, count), RedirectOutcome::NotFound));
}

#[test]
fn validation_is_exactly_the_http_prefix() {
    assert!(url_accepted("http"));
    assert!(url_accepted("https://example.com"));
    assert!(url_accepted("httpx"));
    assert!(!url_accepted("htt"));
    assert!(!url_accepted(""));
    assert!(!url_accepted("HTTP://example.com"));
    assert!(!url_accepted("ftp://example.com"));
    assert!(!url_accepted(" http://leading-space.example"));
}

#[test]
fn store_insert_and_lookup() {
    let mut store = Store::new();
    assert_eq!(store.len(), 0);
    let id = store.insert(String::from("https://example.com/"));
    assert_eq!(id, 0);
    assert_eq!(store.len(), 1);
    assert_eq!(store.lookup(0), Some(&String::from("https://example.com/")));
    assert_eq!(store.lookup(1), None);
}

#[test]
fn stored_urls_are_kept_verbatim() {
    let mut store = Store::new();
    let url = "https://example.com/%20?q=a b&r=\u{00e9}";
    store.insert(String::from(url));
    match redirect(&store, 0) {
        RedirectOutcome::Found { location } => assert_eq!(location, url),
        RedirectOutcome::NotFound => panic!("entry 0 must be present"),
    }
}
