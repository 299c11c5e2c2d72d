//! Turning a status into HTML and into a feed entry.
use vstd::prelude::*;

use crate::date::{rfc2822, rfc2822_of, rfc2822_representable, END_RFC2822_SECOND, FIRST_RFC2822_SECOND};
use crate::status::{MediaEntity, Status, UrlEntity};
use crate::text::{decimal, decimal_string, push_decimal, replace_all, replaced};

verus! {

/// Where a link points: its expanded form, or its short form when none is known.
pub open spec fn href(e: UrlEntity) -> Seq<char> {
    match e.expanded_url {
        Some(x) => x@,
        None => e.url@,
    }
}

/// The anchor element that stands for a link.
pub open spec fn anchor(e: UrlEntity) -> Seq<char> {
    "<a href=\""@ + href(e) + "\">"@ + e.display_url@ + "</a>"@
}

/// `text` with the short form of each link replaced by its anchor, link by link in order.
pub open spec fn linked(text: Seq<char>, urls: Seq<UrlEntity>) -> Seq<char>
    decreases urls.len(),
{
    if urls.len() == 0 {
        text
    } else {
        replaced(linked(text, urls.drop_last()), urls.last().url@, anchor(urls.last()))
    }
}

/// `text` with the short form of each attachment removed, in order.
pub open spec fn stripped(text: Seq<char>, media: Seq<MediaEntity>) -> Seq<char>
    decreases media.len(),
{
    if media.len() == 0 {
        text
    } else {
        replaced(stripped(text, media.drop_last()), media.last().url@, Seq::empty())
    }
}

/// The image element that stands for an attachment.
pub open spec fn image(m: MediaEntity) -> Seq<char> {
    "<img src=\""@ + m.media_url_https@ + "\">"@
}

/// One image element per attachment, in order.
pub open spec fn images(media: Seq<MediaEntity>) -> Seq<char>
    decreases media.len(),
{
    if media.len() == 0 {
        Seq::empty()
    } else {
        images(media.drop_last()) + image(media.last())
    }
}

/// `k` line breaks.
pub open spec fn newlines(k: nat) -> Seq<char> {
    Seq::new(k, |i: int| '\n')
}

/// The rendered body of a status: links substituted, attachment links removed,
/// and one image per attachment after the text (each attachment also adds a
/// leading line break).
pub open spec fn body_html(st: Status) -> Seq<char> {
    newlines(st.media@.len()) + stripped(linked(st.text@, st.urls@), st.media@) + images(
        st.media@,
    )
}

/// The name shown for the author of a status.
pub open spec fn display_name(st: Status) -> Seq<char> {
    match st.author {
        Some(a) => a.name@,
        None => "No username"@,
    }
}

/// The rendered body of a status in a paragraph.
pub open spec fn paragraph(st: Status) -> Seq<char> {
    "<p>"@ + body_html(st) + "</p>"@
}

/// The quote block that follows the paragraph of a quoting status.
pub open spec fn quote_block(q: Status) -> Seq<char> {
    "\n"@ + display_name(q) + ":\n<blockquote>"@ + body_html(q) + "</blockquote>"@
}

/// The paragraph that stands for a reshare.
pub open spec fn reshare_paragraph(rt: Status) -> Seq<char> {
    "<p>Retweet "@ + display_name(rt) + ": "@ + body_html(rt) + "</p>"@
}

/// The entry description: a reshare overrides everything else, a quote adds
/// its block after the status's own paragraph.
pub open spec fn description(st: Status) -> Seq<char> {
    match st.retweeted {
        Some(rt) => reshare_paragraph(*rt),
        None => match st.quoted {
            Some(q) => paragraph(st) + quote_block(*q),
            None => paragraph(st),
        },
    }
}

/// The permalink of status `id` posted by `handle`.
pub open spec fn permalink(handle: Seq<char>, id: u64) -> Seq<char> {
    "https://twitter.com/"@ + handle + "/status/"@ + decimal(id as nat)
}

fn anchor_for(e: &UrlEntity) -> (r: String)
    ensures
        r@ == anchor(*e),
{
    let mut r = String::from_str("<a href=\"");
    match &e.expanded_url {
        Some(x) => r.append(x.as_str()),
        None => r.append(e.url.as_str()),
    }
    r.append("\">");
    r.append(e.display_url.as_str());
    r.append("</a>");
    r
}

/// Renders the body of a status as HTML.
pub fn replaced_content_for(st: &Status) -> (r: String)
    ensures
        r@ == body_html(*st),
{
    let mut content = st.text.clone();
    let mut i: usize = 0;
    assert(st.urls@.subrange(0, 0) =~= Seq::<UrlEntity>::empty());
    while i < st.urls.len()
        invariant
            i <= st.urls@.len(),
            content@ == linked(st.text@, st.urls@.subrange(0, i as int)),
        decreases st.urls@.len() - i,
    {
        let e = &st.urls[i];
        let a = anchor_for(e);
        content = replace_all(content.as_str(), e.url.as_str(), a.as_str());
        assert(st.urls@.subrange(0, i + 1).drop_last() =~= st.urls@.subrange(0, i as int));
        i = i + 1;
    }
    assert(st.urls@.subrange(0, i as int) =~= st.urls@);
    let k = st.media.len();
    let mut j: usize = 0;
    assert(st.media@.subrange(0, 0) =~= Seq::<MediaEntity>::empty());
    while j < k
        invariant
            k == st.media@.len(),
            j <= k,
            content@ == stripped(linked(st.text@, st.urls@), st.media@.subrange(0, j as int)),
        decreases k - j,
    {
        let m = &st.media[j];
        content = replace_all(content.as_str(), m.url.as_str(), "");
        proof {
            reveal_strlit("");
            assert(st.media@.subrange(0, j + 1).drop_last() =~= st.media@.subrange(0, j as int));
            assert(""@ =~= Seq::<char>::empty());
        }
        j = j + 1;
    }
    assert(st.media@.subrange(0, k as int) =~= st.media@);
    let mut out = String::new();
    let mut n: usize = 0;
    assert(out@ =~= newlines(0));
    while n < k
        invariant
            n <= k,
            out@ == newlines(n as nat),
        decreases k - n,
    {
        out.append("\n");
        proof {
            reveal_strlit("\n");
        }
        assert(out@ =~= newlines((n + 1) as nat));
        n = n + 1;
    }
    out.append(content.as_str());
    let mut j: usize = 0;
    assert(st.media@.subrange(0, 0) =~= Seq::<MediaEntity>::empty());
    assert(out@ =~= newlines(k as nat) + stripped(linked(st.text@, st.urls@), st.media@)
        + images(st.media@.subrange(0, 0)));
    while j < k
        invariant
            k == st.media@.len(),
            j <= k,
            out@ == newlines(k as nat) + stripped(linked(st.text@, st.urls@), st.media@) + images(
                st.media@.subrange(0, j as int),
            ),
        decreases k - j,
    {
        let m = &st.media[j];
        out.append("<img src=\"");
        out.append(m.media_url_https.as_str());
        out.append("\">");
        assert(st.media@.subrange(0, j + 1).drop_last() =~= st.media@.subrange(0, j as int));
        assert(out@ =~= newlines(k as nat) + stripped(linked(st.text@, st.urls@), st.media@)
            + images(st.media@.subrange(0, j + 1)));
        j = j + 1;
    }
    assert(st.media@.subrange(0, k as int) =~= st.media@);
    out
}

/// The name shown for the author of a status, or a placeholder when it has none.
pub fn username_for(st: &Status) -> (r: String)
    ensures
        r@ == display_name(*st),
{
    match &st.author {
        Some(a) => a.name.clone(),
        None => String::from_str("No username"),
    }
}

/// The HTML description of the feed entry for a status.
pub fn content_for(st: &Status) -> (r: String)
    ensures
        r@ == description(*st),
{
    match &st.retweeted {
        Some(rt) => {
            let mut r = String::from_str("<p>Retweet ");
            r.append(username_for(rt).as_str());
            r.append(": ");
            r.append(replaced_content_for(rt).as_str());
            r.append("</p>");
            assert(r@ =~= reshare_paragraph(**rt));
            r
        },
        None => {
            let mut r = String::from_str("<p>");
            r.append(replaced_content_for(st).as_str());
            r.append("</p>");
            assert(r@ =~= paragraph(*st));
            match &st.quoted {
                Some(q) => {
                    r.append("\n");
                    r.append(username_for(q).as_str());
                    r.append(":\n<blockquote>");
                    r.append(replaced_content_for(q).as_str());
                    r.append("</blockquote>");
                    assert(r@ =~= paragraph(*st) + quote_block(**q));
                },
                None => {},
            }
            r
        },
    }
}

} // verus!

verus! {

/// Why a status cannot become a feed entry.
#[derive(Debug, PartialEq, Eq, Structural)]
pub enum FeedError {
    /// The status has no author, so no permalink can be built for it.
    MissingAuthor { status_id: u64 },
    /// The creation time lies outside the years that RFC 2822 can express.
    DateOutOfRange { status_id: u64 },
}

/// One entry of the feed.
#[derive(Debug)]
pub struct FeedItem {
    pub title: String,
    pub description: String,
    pub link: String,
    pub guid: String,
    pub guid_is_permalink: bool,
    pub pub_date: String,
}

/// The plain contents of an entry: title, description, link, guid, whether the
/// guid is a permalink, and publication date.
pub open spec fn entry(item: FeedItem) -> (Seq<char>, Seq<char>, Seq<char>, Seq<char>, bool, Seq<char>) {
    (item.title@, item.description@, item.link@, item.guid@, item.guid_is_permalink, item.pub_date@)
}

/// The error a status gives, if any: a missing author first, then an
/// unrepresentable date.
pub open spec fn item_error(st: Status) -> Option<FeedError> {
    if st.author is None {
        Some(FeedError::MissingAuthor { status_id: st.id })
    } else if !rfc2822_representable(st.created_at) {
        Some(FeedError::DateOutOfRange { status_id: st.id })
    } else {
        None
    }
}

/// The entry for a status that has an author and a representable date.
pub open spec fn entry_of(st: Status) -> (Seq<char>, Seq<char>, Seq<char>, Seq<char>, bool, Seq<char>) {
    (
        display_name(st),
        description(st),
        permalink(st.author->0.handle@, st.id),
        decimal(st.id as nat),
        false,
        rfc2822_of(st.created_at as int),
    )
}

/// Builds the feed entry for a status.
pub fn item_for(st: &Status) -> (r: Result<FeedItem, FeedError>)
    ensures
        match r {
            Ok(item) => item_error(*st) is None && entry(item) == entry_of(*st),
            Err(e) => item_error(*st) == Some(e),
        },
{
    match &st.author {
        None => Err(FeedError::MissingAuthor { status_id: st.id }),
        Some(a) => {
            if st.created_at < FIRST_RFC2822_SECOND || st.created_at >= END_RFC2822_SECOND {
                return Err(FeedError::DateOutOfRange { status_id: st.id });
            }
            let pub_date = rfc2822(st.created_at);
            let mut link = String::from_str("https://twitter.com/");
            link.append(a.handle.as_str());
            link.append("/status/");
            push_decimal(&mut link, st.id);
            let item = FeedItem {
                title: username_for(st),
                description: content_for(st),
                link,
                guid: decimal_string(st.id),
                guid_is_permalink: false,
                pub_date,
            };
            assert(item.link@ =~= permalink(a.handle@, st.id));
            Ok(item)
        },
    }
}

} // verus!
