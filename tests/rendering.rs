use list_feed::render::{content_for, item_for, replaced_content_for, username_for, FeedError};
use list_feed::status::{Author, MediaEntity, Status, UrlEntity};
use list_feed::text::{decimal_string, replace_all};

fn author(name: &str, handle: &str) -> Option<Author> {
    Some(Author { name: name.to_string(), handle: handle.to_string() })
}

fn status(id: u64, text: &str) -> Status {
    Status {
        id,
        author: author("Ada", "ada"),
        text: text.to_string(),
        created_at: 0,
        urls: Vec::new(),
        media: Vec::new(),
        quoted: None,
        retweeted: None,
    }
}

fn link(short: &str, expanded: Option<&str>, display: &str) -> UrlEntity {
    UrlEntity {
        url: short.to_string(),
        expanded_url: expanded.map(|s| s.to_string()),
        display_url: display.to_string(),
    }
}

#[test]
fn replace_all_every_occurrence() {
    assert_eq!(replace_all("a b a", "a", "X"), "X b X");
    assert_eq!(replace_all("aaa", "aa", "X"), "Xa");
    assert_eq!(replace_all("abc", "", "X"), "abc");
    assert_eq!(replace_all("", "a", "X"), "");
    assert_eq!(replace_all("héllo wörld", "ö", "o"), "héllo world");
}

#[test]
fn decimal_of_ids() {
    assert_eq!(decimal_string(0), "0");
    assert_eq!(decimal_string(7), "7");
    assert_eq!(decimal_string(1234567890), "1234567890");
    assert_eq!(decimal_string(u64::MAX), "18446744073709551615");
}

#[test]
fn plain_status_is_raw_text() {
    let st = status(1, "hello <b>world</b>");
    assert_eq!(replaced_content_for(&st), "hello <b>world</b>");
    assert_eq!(content_for(&st), "<p>hello <b>world</b></p>");
}

#[test]
fn link_becomes_anchor() {
    let mut st = status(1, "see https://t.co/abc now");
    st.urls.push(link("https://t.co/abc", Some("https://example.com/x"), "example.com/x"));
    let out = replaced_content_for(&st);
    assert_eq!(out, "see <a href=\"https://example.com/x\">example.com/x</a> now");
    assert!(!out.contains("https://t.co/abc"));
}

#[test]
fn link_without_expansion_uses_short_form() {
    let mut st = status(1, "go https://t.co/q");
    st.urls.push(link("https://t.co/q", None, "t.co/q"));
    assert_eq!(replaced_content_for(&st), "go <a href=\"https://t.co/q\">t.co/q</a>");
}

#[test]
fn every_link_is_substituted() {
    let mut st = status(1, "https://t.co/a and https://t.co/b and https://t.co/a");
    st.urls.push(link("https://t.co/a", Some("https://a.org"), "a.org"));
    st.urls.push(link("https://t.co/b", Some("https://b.org"), "b.org"));
    assert_eq!(
        replaced_content_for(&st),
        "<a href=\"https://a.org\">a.org</a> and <a href=\"https://b.org\">b.org</a> and <a href=\"https://a.org\">a.org</a>"
    );
}

#[test]
fn attachment_becomes_image() {
    let mut st = status(1, "pic https://t.co/m");
    st.media.push(MediaEntity {
        media_url_https: "https://pbs.example/img.jpg".to_string(),
        url: "https://t.co/m".to_string(),
    });
    let out = replaced_content_for(&st);
    assert_eq!(out, "\npic <img src=\"https://pbs.example/img.jpg\">");
    assert!(!out.contains("https://t.co/m"));
}

#[test]
fn two_attachments_two_images() {
    let mut st = status(1, "two https://t.co/m");
    st.media.push(MediaEntity { media_url_https: "https://p/1.jpg".to_string(), url: "https://t.co/m".to_string() });
    st.media.push(MediaEntity { media_url_https: "https://p/2.jpg".to_string(), url: "https://t.co/m".to_string() });
    let out = replaced_content_for(&st);
    assert_eq!(out, "\n\ntwo <img src=\"https://p/1.jpg\"><img src=\"https://p/2.jpg\">");
    assert_eq!(out.matches("<img ").count(), 2);
}

#[test]
fn missing_author_has_placeholder_name() {
    let mut st = status(1, "x");
    st.author = None;
    assert_eq!(username_for(&st), "No username");
    assert_eq!(username_for(&status(1, "x")), "Ada");
}

#[test]
fn quote_follows_paragraph() {
    let mut st = status(1, "mine");
    let mut q = status(2, "theirs");
    q.author = author("Bob", "bob");
    st.quoted = Some(Box::new(q));
    assert_eq!(content_for(&st), "<p>mine</p>\nBob:\n<blockquote>theirs</blockquote>");
}

#[test]
fn reshare_overrides_quote() {
    let mut st = status(1, "mine");
    let mut q = status(2, "quoted");
    q.author = author("Bob", "bob");
    let mut rt = status(3, "reshared");
    rt.author = author("Cy", "cy");
    st.quoted = Some(Box::new(q));
    st.retweeted = Some(Box::new(rt));
    assert_eq!(content_for(&st), "<p>Retweet Cy: reshared</p>");
}

#[test]
fn reshare_of_anonymous_status() {
    let mut st = status(1, "RT");
    let mut rt = status(3, "reshared");
    rt.author = None;
    st.retweeted = Some(Box::new(rt));
    assert_eq!(content_for(&st), "<p>Retweet No username: reshared</p>");
}

#[test]
fn item_fields() {
    let mut st = status(42, "hello");
    st.created_at = 1057056757;
    let item = item_for(&st).unwrap();
    assert_eq!(item.title, "Ada");
    assert_eq!(item.description, "<p>hello</p>");
    assert_eq!(item.link, "https://twitter.com/ada/status/42");
    assert_eq!(item.guid, "42");
    assert!(!item.guid_is_permalink);
    assert_eq!(item.pub_date, "Tue, 1 Jul 2003 10:52:37 +0000");
}

#[test]
fn item_epoch_date() {
    let item = item_for(&status(1, "x")).unwrap();
    assert_eq!(item.pub_date, "Thu, 1 Jan 1970 00:00:00 +0000");
}

#[test]
fn item_without_author_fails() {
    let mut st = status(9, "x");
    st.author = None;
    assert_eq!(item_for(&st).unwrap_err(), FeedError::MissingAuthor { status_id: 9 });
}

#[test]
fn item_date_out_of_range_fails() {
    let mut st = status(5, "x");
    st.created_at = 253402300800;
    assert_eq!(item_for(&st).unwrap_err(), FeedError::DateOutOfRange { status_id: 5 });
    st.created_at = -62167219201;
    assert_eq!(item_for(&st).unwrap_err(), FeedError::DateOutOfRange { status_id: 5 });
    st.created_at = 253402300799;
    assert_eq!(item_for(&st).unwrap().pub_date, "Fri, 31 Dec 9999 23:59:59 +0000");
}
