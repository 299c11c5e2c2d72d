//! The status records that feed entries are built from.
use vstd::prelude::*;

verus! {

/// The account that posted a status.
#[derive(Debug)]
pub struct Author {
    /// Display name, used as the entry title.
    pub name: String,
    /// Handle, used in the status permalink.
    pub handle: String,
}

/// A link embedded in a status body.
#[derive(Debug)]
pub struct UrlEntity {
    /// The short form as it appears in the body.
    pub url: String,
    /// The full target of the link, when known.
    pub expanded_url: Option<String>,
    /// The text shown for the link.
    pub display_url: String,
}

/// An attached image.
#[derive(Debug)]
pub struct MediaEntity {
    /// Where the image is served from.
    pub media_url_https: String,
    /// The short form that the body carries for the attachment.
    pub url: String,
}

/// One post, with the posts it quotes or reshares held by value.
#[derive(Debug)]
pub struct Status {
    pub id: u64,
    pub author: Option<Author>,
    pub text: String,
    /// Creation time in seconds since the Unix epoch, UTC.
    pub created_at: i64,
    pub urls: Vec<UrlEntity>,
    /// Attached media; empty when the status has none.
    pub media: Vec<MediaEntity>,
    pub quoted: Option<Box<Status>>,
    pub retweeted: Option<Box<Status>>,
}

} // verus!
