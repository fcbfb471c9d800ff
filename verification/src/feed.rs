//! Feed addresses and feed documents.
//!
//! Two things here are left to other crates: reading a URL from text, and
//! decoding a feed document. Each is a call whose result has a name in the
//! contracts of this module; what is done with the result is verified.

use vstd::prelude::*;

use crate::message::{Channel, ChannelView, Episode};

verus! {

#[verifier::external_type_specification]
#[verifier::external_body]
pub struct ExUrlParseError(url::ParseError);

#[verifier::external_type_specification]
#[verifier::external_body]
pub struct ExFeedReadError(rss::Error);

/// What `url::Url::parse` makes of `input`: the serialization of the absolute
/// URL that it reads there, or `None` where it reads none.
pub uninterp spec fn parsed_url(input: Seq<char>) -> Option<Seq<char>>;

/// Calls `url::Url::parse` and hands back the serialization of the URL, which
/// is what `String::from` gives for a `Url`. Trusted: the result is the one
/// that `parsed_url` names.
#[verifier::external_body]
fn parse_url(input: &str) -> (r: Result<String, url::ParseError>)
    ensures
        match r {
            Ok(text) => parsed_url(input@) == Some(text@),
            Err(_) => parsed_url(input@) is None,
        },
{
    url::Url::parse(input).map(String::from)
}

/// Whether `text` is the serialization of a URL, as reading some input gives it.
pub open spec fn is_url_text(text: Seq<char>) -> bool {
    exists|input: Seq<char>| parsed_url(input) == Some(text)
}

/// The address of a feed: an absolute URL in its serialized form.
///
/// A value is only ever made from text that was read as a URL.
#[derive(Debug, PartialEq, Eq)]
pub struct FeedUrl {
    text: String,
}

impl View for FeedUrl {
    type V = Seq<char>;

    closed spec fn view(&self) -> Seq<char> {
        self.text@
    }
}

/// The model of an optional address.
pub open spec fn url_view(url: Option<FeedUrl>) -> Option<Seq<char>> {
    match url {
        Some(u) => Some(u@),
        None => None,
    }
}

impl FeedUrl {
    #[verifier::type_invariant]
    spec fn validated(self) -> bool {
        is_url_text(self.text@)
    }

    /// Reads `input` as an absolute URL. There is an address exactly where
    /// the text is read as one, and it is the serialization of what was read.
    pub fn parse(input: &str) -> (r: Option<FeedUrl>)
        ensures
            url_view(r) == parsed_url(input@),
    {
        match parse_url(input) {
            Ok(text) => {
                assert(is_url_text(text@)) by {
                    assert(parsed_url(input@) == Some(text@));
                }
                Some(FeedUrl { text })
            },
            Err(_) => None,
        }
    }

    /// The serialized URL.
    pub fn as_str(&self) -> (r: &str)
        ensures
            r@ == self@,
            is_url_text(r@),
    {
        proof {
            use_type_invariant(self);
        }
        self.text.as_str()
    }
}

impl Clone for FeedUrl {
    fn clone(&self) -> (r: Self)
        ensures
            r@ == self@,
    {
        proof {
            use_type_invariant(self);
        }
        FeedUrl { text: self.text.clone() }
    }
}

/// Why a feed could not be had.
#[derive(Debug, Clone, Copy, PartialEq, Eq, Structural)]
pub enum FetchError {
    /// The retrieval brought no body back.
    Transport,
    /// The body is not a feed document.
    Decode,
}

/// What `rss::Channel::read_from` makes of the bytes of a document: the title
/// and the items of the channel that it decodes, each item with its title, its
/// description and the URL of its enclosure, or `None` where it decodes none.
pub uninterp spec fn decoded_channel(body: Seq<u8>) -> Option<ChannelView>;

/// Calls `rss::Channel::read_from` on the bytes and moves the title and the
/// items of the channel that it returns into a [`Channel`]. Trusted: the
/// result is the one that `decoded_channel` names.
#[verifier::external_body]
fn read_channel(body: &[u8]) -> (r: Result<Channel, rss::Error>)
    ensures
        match r {
            Ok(channel) => decoded_channel(body@) == Some(channel@),
            Err(_) => decoded_channel(body@) is None,
        },
{
    rss::Channel::read_from(body).map(|c| {
        let items = c.items.into_iter();
        let episodes = items.map(|i| Episode::new(i.title, i.description, i.enclosure.map(|e| e.url)));
        Channel::new(c.title, episodes.collect())
    })
}

/// What comes of a retrieval, given the body that it brought back (`None`
/// where the transport failed) and what decoding that body gives.
pub open spec fn feed_outcome(body: Option<Seq<u8>>) -> Result<ChannelView, FetchError> {
    match body {
        None => Err(FetchError::Transport),
        Some(bytes) => match decoded_channel(bytes) {
            Some(channel) => Ok(channel),
            None => Err(FetchError::Decode),
        },
    }
}

/// The model of the result of [`get_feed`].
pub open spec fn fetched_view(fetched: Result<Channel, FetchError>) -> Result<
    ChannelView,
    FetchError,
> {
    match fetched {
        Ok(channel) => Ok(channel@),
        Err(e) => Err(e),
    }
}

/// The model of the body that a retrieval brought back.
pub open spec fn body_view(body: Option<&[u8]>) -> Option<Seq<u8>> {
    match body {
        Some(bytes) => Some(bytes@),
        None => None,
    }
}

/// Completes one retrieval of a feed: `body` is what the transport brought
/// back, `None` where it failed. Nothing is kept from one call to the next.
pub fn get_feed(body: Option<&[u8]>) -> (r: Result<Channel, FetchError>)
    ensures
        fetched_view(r) == feed_outcome(body_view(body)),
{
    match body {
        None => Err(FetchError::Transport),
        Some(bytes) => match read_channel(bytes) {
            Ok(channel) => Ok(channel),
            Err(_) => Err(FetchError::Decode),
        },
    }
}

} // verus!
