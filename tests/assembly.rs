use list_feed::feed::{after_lists, create_feed, render_feed, resolve_list, FeedConfig, ListDescriptor, ListStep, PAGE_SIZE};
use list_feed::render::FeedError;
use list_feed::status::{Author, Status};

fn config() -> FeedConfig {
    FeedConfig {
        title: "My feed".to_string(),
        link: "https://example.com/".to_string(),
        description: "News list".to_string(),
        list_name: "News".to_string(),
    }
}

fn list(id: u64, name: &str) -> ListDescriptor {
    ListDescriptor { id, name: name.to_string() }
}

fn status(id: u64, text: &str, created_at: i64) -> Status {
    Status {
        id,
        author: Some(Author { name: "Ada".to_string(), handle: "ada".to_string() }),
        text: text.to_string(),
        created_at,
        urls: Vec::new(),
        media: Vec::new(),
        quoted: None,
        retweeted: None,
    }
}

#[test]
fn resolve_list_cases() {
    let lists = vec![list(10, "Friends"), list(11, "News"), list(12, "News")];
    assert_eq!(resolve_list(&lists, "News"), Some(11));
    assert_eq!(resolve_list(&lists, "Friends"), Some(10));
    assert_eq!(resolve_list(&lists, "news"), None);
    assert_eq!(resolve_list(&Vec::new(), "News"), None);
}

#[test]
fn no_matching_list_gives_empty_feed() {
    let lists = vec![list(10, "Friends")];
    match after_lists(&config(), &lists) {
        ListStep::Respond { feed } => {
            assert!(feed.contains("<title>My feed</title>"));
            assert!(feed.contains("<link>https://example.com/</link>"));
            assert!(feed.contains("<rss"));
            assert!(!feed.contains("<item>"));
        }
        other => panic!("unexpected step {:?}", other),
    }
}

#[test]
fn matching_list_is_fetched() {
    let lists = vec![list(10, "Friends"), list(77, "News")];
    match after_lists(&config(), &lists) {
        ListStep::FetchTimeline { list_id } => assert_eq!(list_id, 77),
        other => panic!("unexpected step {:?}", other),
    }
    assert_eq!(PAGE_SIZE, 100);
}

#[test]
fn end_to_end_two_statuses() {
    let lists = vec![list(5, "News")];
    let list_id = match after_lists(&config(), &lists) {
        ListStep::FetchTimeline { list_id } => list_id,
        other => panic!("unexpected step {:?}", other),
    };
    assert_eq!(list_id, 5);
    let statuses = vec![status(2, "newer", 200), status(1, "older", 100)];
    let doc = create_feed(&config(), &statuses).unwrap();
    assert_eq!(doc.items.len(), 2);
    assert_eq!(doc.items[0].guid, "2");
    assert_eq!(doc.items[1].guid, "1");
    assert!(!doc.items[0].guid_is_permalink);
    let feed = render_feed(&config(), &statuses).unwrap();
    assert_eq!(feed.matches("<item>").count(), 2);
    let first = feed.find("<guid isPermaLink=\"false\">2</guid>").unwrap();
    let second = feed.find("<guid isPermaLink=\"false\">1</guid>").unwrap();
    assert!(first < second);
    assert!(feed.contains("<link>https://twitter.com/ada/status/2</link>"));
    assert!(feed.contains("<![CDATA[<p>newer</p>]]>"));
}

#[test]
fn status_without_author_fails_the_feed() {
    let mut anonymous = status(3, "who", 300);
    anonymous.author = None;
    let statuses = vec![status(2, "fine", 200), anonymous, status(1, "fine", 100)];
    assert_eq!(render_feed(&config(), &statuses).unwrap_err(), FeedError::MissingAuthor { status_id: 3 });
    assert!(create_feed(&config(), &statuses).is_err());
}

#[test]
fn first_failing_status_decides_the_error() {
    let mut late = status(4, "late", 253402300800);
    late.author = Some(Author { name: "Z".to_string(), handle: "z".to_string() });
    let mut anonymous = status(3, "who", 300);
    anonymous.author = None;
    let statuses = vec![late, anonymous];
    assert_eq!(render_feed(&config(), &statuses).unwrap_err(), FeedError::DateOutOfRange { status_id: 4 });
}
